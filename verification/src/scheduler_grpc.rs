//! The gRPC surface of the resource scheduler: the method table that the client
//! uses to address calls and the server uses to route them.
use std::sync::Arc;
use vstd::prelude::*;
use crate::scheduler::{Empty, AccessResource, ResourceResult, ResourceToken, ExecResult};

verus! {

/// Options that a client attaches to a call (metadata, cacheability); carried through unchanged.
#[verifier::external_type_specification]
#[verifier::external_body]
pub struct ExRequestOptions(grpc::RequestOptions);

/// The connection that client calls go out on; carried through unchanged.
#[verifier::external_type_specification]
#[verifier::external_body]
pub struct ExClient(grpc::Client);

/// The per-call server context handed to a handler.
#[verifier::external_type_specification]
#[verifier::external_body]
pub struct ExServerHandlerContext(grpc::ServerHandlerContext);

/// A single request message as the server receives it.
#[verifier::external_type_specification]
#[verifier::external_body]
#[verifier::reject_recursive_types(Req)]
pub struct ExServerRequestSingle<Req>(grpc::ServerRequestSingle<Req>);

/// The sink through which a handler answers a unary call.
#[verifier::external_type_specification]
#[verifier::external_body]
#[verifier::reject_recursive_types(Resp)]
pub struct ExServerResponseUnarySink<Resp: Send + 'static>(grpc::ServerResponseUnarySink<Resp>);

/// The error type of gRPC handlers.
#[verifier::external_type_specification]
#[verifier::external_body]
pub struct ExGrpcError(grpc::Error);

/// The methods of the scheduler service.
#[derive(Clone, Copy, Debug, PartialEq, Eq, Structural)]
pub enum SchedulerMethod {
    Test,
    TryAccess,
    RemoveGuard,
    Ping,
}

/// How requests and responses of a method are streamed.
#[derive(Clone, Copy, Debug, PartialEq, Eq, Structural)]
pub enum Streaming {
    Unary,
    ClientStreaming,
    ServerStreaming,
    Bidi,
}

/// How a message is put on the wire.
#[derive(Clone, Copy, Debug, PartialEq, Eq, Structural)]
pub enum Marshaller {
    Protobuf,
}

/// The name of the service: the prefix of every method path.
pub open spec fn service_prefix() -> Seq<char> {
    "/scheduler.Scheduler"@
}

/// The bare name of a method.
pub open spec fn method_name(m: SchedulerMethod) -> Seq<char> {
    match m {
        SchedulerMethod::Test => "Test"@,
        SchedulerMethod::TryAccess => "TryAccess"@,
        SchedulerMethod::RemoveGuard => "RemoveGuard"@,
        SchedulerMethod::Ping => "Ping"@,
    }
}

/// The full path under which a method is called and served.
pub open spec fn method_path(m: SchedulerMethod) -> Seq<char> {
    match m {
        SchedulerMethod::Test => "/scheduler.Scheduler/Test"@,
        SchedulerMethod::TryAccess => "/scheduler.Scheduler/TryAccess"@,
        SchedulerMethod::RemoveGuard => "/scheduler.Scheduler/RemoveGuard"@,
        SchedulerMethod::Ping => "/scheduler.Scheduler/Ping"@,
    }
}

/// Describes one method: its path, its streaming kind and how its messages are encoded.
pub struct MethodDescriptor {
    pub name: String,
    pub streaming: Streaming,
    pub req_marshaller: Marshaller,
    pub resp_marshaller: Marshaller,
}

pub struct MethodDescriptorView {
    pub name: Seq<char>,
    pub streaming: Streaming,
    pub req_marshaller: Marshaller,
    pub resp_marshaller: Marshaller,
}

impl View for MethodDescriptor {
    type V = MethodDescriptorView;

    open spec fn view(&self) -> MethodDescriptorView {
        MethodDescriptorView {
            name: self.name@,
            streaming: self.streaming,
            req_marshaller: self.req_marshaller,
            resp_marshaller: self.resp_marshaller,
        }
    }
}

/// The descriptor of a scheduler method: its path, unary, protobuf both ways.
pub open spec fn descriptor_of(m: SchedulerMethod) -> MethodDescriptorView {
    MethodDescriptorView {
        name: method_path(m),
        streaming: Streaming::Unary,
        req_marshaller: Marshaller::Protobuf,
        resp_marshaller: Marshaller::Protobuf,
    }
}

/// Builds the descriptor of a scheduler method.
pub fn method_descriptor(m: SchedulerMethod) -> (d: MethodDescriptor)
    ensures
        d@ == descriptor_of(m),
{
    let name = match m {
        SchedulerMethod::Test => String::from_str("/scheduler.Scheduler/Test"),
        SchedulerMethod::TryAccess => String::from_str("/scheduler.Scheduler/TryAccess"),
        SchedulerMethod::RemoveGuard => String::from_str("/scheduler.Scheduler/RemoveGuard"),
        SchedulerMethod::Ping => String::from_str("/scheduler.Scheduler/Ping"),
    };
    MethodDescriptor {
        name,
        streaming: Streaming::Unary,
        req_marshaller: Marshaller::Protobuf,
        resp_marshaller: Marshaller::Protobuf,
    }
}

/// A unary call that is ready to go out: the options, the request and the method it addresses.
pub struct UnaryCall<Req> {
    pub options: grpc::RequestOptions,
    pub request: Req,
    pub method: MethodDescriptor,
}

// ---------------------------------------------------------------- client

/// The client of the scheduler service.
pub struct SchedulerClient {
    grpc_client: Arc<grpc::Client>,
}

impl SchedulerClient {
    /// Wraps an established connection.
    pub fn with_client(grpc_client: Arc<grpc::Client>) -> (c: SchedulerClient)
        ensures
            c.connection() == grpc_client,
    {
        SchedulerClient { grpc_client }
    }

    pub closed spec fn connection(&self) -> Arc<grpc::Client> {
        self.grpc_client
    }

    /// The connection that this client's calls go out on.
    pub fn grpc_client(&self) -> (r: &Arc<grpc::Client>)
        ensures
            *r == self.connection(),
    {
        &self.grpc_client
    }

    /// The `Test` call.
    pub fn test(&self, o: grpc::RequestOptions, req: Empty) -> (call: UnaryCall<Empty>)
        ensures
            call.options == o,
            call.request == req,
            call.method@ == descriptor_of(SchedulerMethod::Test),
    {
        UnaryCall { options: o, request: req, method: method_descriptor(SchedulerMethod::Test) }
    }

    /// The `TryAccess` call.
    pub fn try_access(&self, o: grpc::RequestOptions, req: AccessResource) -> (call: UnaryCall<
        AccessResource,
    >)
        ensures
            call.options == o,
            call.request == req,
            call.method@ == descriptor_of(SchedulerMethod::TryAccess),
    {
        UnaryCall {
            options: o,
            request: req,
            method: method_descriptor(SchedulerMethod::TryAccess),
        }
    }

    /// The `RemoveGuard` call.
    pub fn remove_guard(&self, o: grpc::RequestOptions, req: ResourceToken) -> (call: UnaryCall<
        ResourceToken,
    >)
        ensures
            call.options == o,
            call.request == req,
            call.method@ == descriptor_of(SchedulerMethod::RemoveGuard),
    {
        UnaryCall {
            options: o,
            request: req,
            method: method_descriptor(SchedulerMethod::RemoveGuard),
        }
    }

    /// The `Ping` call.
    pub fn ping(&self, o: grpc::RequestOptions, req: ResourceToken) -> (call: UnaryCall<
        ResourceToken,
    >)
        ensures
            call.options == o,
            call.request == req,
            call.method@ == descriptor_of(SchedulerMethod::Ping),
    {
        UnaryCall { options: o, request: req, method: method_descriptor(SchedulerMethod::Ping) }
    }
}

// ---------------------------------------------------------------- server

/// What a scheduler service implements: one handler per method.
pub trait Scheduler {
    fn test(
        &self,
        o: grpc::ServerHandlerContext,
        req: grpc::ServerRequestSingle<Empty>,
        resp: grpc::ServerResponseUnarySink<Empty>,
    ) -> grpc::Result<()>;

    fn try_access(
        &self,
        o: grpc::ServerHandlerContext,
        req: grpc::ServerRequestSingle<AccessResource>,
        resp: grpc::ServerResponseUnarySink<ResourceResult>,
    ) -> grpc::Result<()>;

    fn remove_guard(
        &self,
        o: grpc::ServerHandlerContext,
        req: grpc::ServerRequestSingle<ResourceToken>,
        resp: grpc::ServerResponseUnarySink<ExecResult>,
    ) -> grpc::Result<()>;

    fn ping(
        &self,
        o: grpc::ServerHandlerContext,
        req: grpc::ServerRequestSingle<ResourceToken>,
        resp: grpc::ServerResponseUnarySink<ExecResult>,
    ) -> grpc::Result<()>;
}

/// One served method: its descriptor and the handler method that answers it.
pub struct ServerMethod {
    pub descriptor: MethodDescriptor,
    pub handler_method: SchedulerMethod,
}

pub struct ServerMethodView {
    pub descriptor: MethodDescriptorView,
    pub handler_method: SchedulerMethod,
}

impl View for ServerMethod {
    type V = ServerMethodView;

    open spec fn view(&self) -> ServerMethodView {
        ServerMethodView { descriptor: self.descriptor@, handler_method: self.handler_method }
    }
}

/// A service as the server serves it: a path prefix, the method table and the shared handler.
pub struct ServerServiceDefinition<H> {
    pub prefix: String,
    pub methods: Vec<ServerMethod>,
    pub handler: Arc<H>,
}

/// The method table seen as a sequence of views.
pub open spec fn table_view(methods: Seq<ServerMethod>) -> Seq<ServerMethodView> {
    methods.map_values(|m: ServerMethod| m@)
}

/// The method that serves a path: the first entry of the table whose path is `name`.
pub open spec fn route(table: Seq<ServerMethodView>, name: Seq<char>) -> Option<SchedulerMethod>
    decreases table.len(),
{
    if table.len() == 0 {
        None
    } else if table[0].descriptor.name == name {
        Some(table[0].handler_method)
    } else {
        route(table.drop_first(), name)
    }
}

/// The entry that serves a scheduler method.
pub open spec fn entry_of(m: SchedulerMethod) -> ServerMethodView {
    ServerMethodView { descriptor: descriptor_of(m), handler_method: m }
}

/// The scheduler's method table, in the order the service registers it.
pub open spec fn scheduler_table() -> Seq<ServerMethodView> {
    seq![
        entry_of(SchedulerMethod::Test),
        entry_of(SchedulerMethod::TryAccess),
        entry_of(SchedulerMethod::RemoveGuard),
        entry_of(SchedulerMethod::Ping),
    ]
}

impl<H> ServerServiceDefinition<H> {
    /// The method that serves `name`, or `None` for a path that the service does not have
    /// (the server answers such a call as unimplemented).
    pub fn find_method(&self, name: &str) -> (r: Option<SchedulerMethod>)
        ensures
            r == route(table_view(self.methods@), name@),
    {
        let key = String::from_str(name);
        let ghost table = table_view(self.methods@);
        let mut i: usize = 0;
        assert(table.skip(0) =~= table);
        while i < self.methods.len()
            invariant
                i <= self.methods.len(),
                table == table_view(self.methods@),
                key@ == name@,
                route(table, name@) == route(table.skip(i as int), name@),
            decreases self.methods.len() - i,
        {
            assert(table.skip(i as int).drop_first() =~= table.skip(i + 1));
            assert(table.skip(i as int)[0] == self.methods@[i as int]@);
            if self.methods[i].descriptor.name == key {
                return Some(self.methods[i].handler_method);
            }
            i = i + 1;
        }
        assert(table.skip(i as int).len() == 0);
        None
    }
}

/// Builds scheduler service definitions.
pub struct SchedulerServer;

impl SchedulerServer {
    /// The service definition that serves every scheduler method by `handler`.
    pub fn new_service_def<H: Scheduler + 'static + Sync + Send + 'static>(handler: H) -> (def:
        ServerServiceDefinition<H>)
        ensures
            def.prefix@ == service_prefix(),
            table_view(def.methods@) == scheduler_table(),
            *def.handler == handler,
    {
        let handler_arc = Arc::new(handler);
        let mut methods: Vec<ServerMethod> = Vec::new();
        methods.push(
            ServerMethod {
                descriptor: method_descriptor(SchedulerMethod::Test),
                handler_method: SchedulerMethod::Test,
            },
        );
        methods.push(
            ServerMethod {
                descriptor: method_descriptor(SchedulerMethod::TryAccess),
                handler_method: SchedulerMethod::TryAccess,
            },
        );
        methods.push(
            ServerMethod {
                descriptor: method_descriptor(SchedulerMethod::RemoveGuard),
                handler_method: SchedulerMethod::RemoveGuard,
            },
        );
        methods.push(
            ServerMethod {
                descriptor: method_descriptor(SchedulerMethod::Ping),
                handler_method: SchedulerMethod::Ping,
            },
        );
        assert(table_view(methods@) =~= scheduler_table());
        ServerServiceDefinition {
            prefix: String::from_str("/scheduler.Scheduler"),
            methods,
            handler: handler_arc,
        }
    }
}

// ---------------------------------------------------------------- laws

/// Every method is served under the service's prefix: its path is the prefix, a slash
/// and the method's name.
pub proof fn lemma_method_path_under_service(m: SchedulerMethod)
    ensures
        method_path(m) == service_prefix() + "/"@ + method_name(m),
{
    reveal_strlit("/scheduler.Scheduler");
    reveal_strlit("/");
    reveal_strlit("Test");
    reveal_strlit("TryAccess");
    reveal_strlit("RemoveGuard");
    reveal_strlit("Ping");
    reveal_strlit("/scheduler.Scheduler/Test");
    reveal_strlit("/scheduler.Scheduler/TryAccess");
    reveal_strlit("/scheduler.Scheduler/RemoveGuard");
    reveal_strlit("/scheduler.Scheduler/Ping");
    assert(method_path(m) =~= service_prefix() + "/"@ + method_name(m));
}

/// Different methods have different paths, so a path names at most one method.
pub proof fn lemma_method_paths_distinct(m1: SchedulerMethod, m2: SchedulerMethod)
    requires
        m1 != m2,
    ensures
        method_path(m1) != method_path(m2),
{
    reveal_strlit("/scheduler.Scheduler/Test");
    reveal_strlit("/scheduler.Scheduler/TryAccess");
    reveal_strlit("/scheduler.Scheduler/RemoveGuard");
    reveal_strlit("/scheduler.Scheduler/Ping");
    if (m1 == SchedulerMethod::Test && m2 == SchedulerMethod::Ping) || (m1
        == SchedulerMethod::Ping && m2 == SchedulerMethod::Test) {
        assert(method_path(m1)[21] != method_path(m2)[21]);
    } else {
        assert(method_path(m1).len() != method_path(m2).len());
    }
}

/// A call that the client makes for a method is routed by the server to the table entry whose
/// handler method is that same method.
pub proof fn lemma_client_call_routed_to_its_handler(m: SchedulerMethod)
    ensures
        route(scheduler_table(), descriptor_of(m).name) == Some(m),
{
    reveal_with_fuel(route, 5);
    let t = scheduler_table();
    assert(t.drop_first() =~= seq![t[1], t[2], t[3]]);
    assert(t.drop_first().drop_first() =~= seq![t[2], t[3]]);
    assert(t.drop_first().drop_first().drop_first() =~= seq![t[3]]);
    if m != SchedulerMethod::Test {
        lemma_method_paths_distinct(SchedulerMethod::Test, m);
    }
    if m != SchedulerMethod::TryAccess {
        lemma_method_paths_distinct(SchedulerMethod::TryAccess, m);
    }
    if m != SchedulerMethod::RemoveGuard {
        lemma_method_paths_distinct(SchedulerMethod::RemoveGuard, m);
    }
}

/// No two entries of the scheduler's method table share a path, so routing is unambiguous.
pub proof fn lemma_scheduler_table_paths_distinct(i: int, j: int)
    requires
        0 <= i < j < scheduler_table().len(),
    ensures
        scheduler_table()[i].descriptor.name != scheduler_table()[j].descriptor.name,
{
    let t = scheduler_table();
    lemma_method_paths_distinct(t[i].handler_method, t[j].handler_method);
}

/// A path that names no scheduler method is routed to no table entry.
pub proof fn lemma_unknown_path_not_routed(name: Seq<char>)
    requires
        forall|m: SchedulerMethod| name != #[trigger] method_path(m),
    ensures
        route(scheduler_table(), name) is None,
{
    reveal_with_fuel(route, 5);
    let t = scheduler_table();
    assert(name != method_path(SchedulerMethod::Test));
    assert(name != method_path(SchedulerMethod::TryAccess));
    assert(name != method_path(SchedulerMethod::RemoveGuard));
    assert(name != method_path(SchedulerMethod::Ping));
    assert(t.drop_first() =~= seq![t[1], t[2], t[3]]);
    assert(t.drop_first().drop_first() =~= seq![t[2], t[3]]);
    assert(t.drop_first().drop_first().drop_first() =~= seq![t[3]]);
    assert(t.drop_first().drop_first().drop_first().drop_first() =~= Seq::<ServerMethodView>::empty());
}

} // verus!

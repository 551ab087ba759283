use fil_webapi::scheduler::{AccessResource, Empty, ExecResult, ResourceResult, ResourceToken};
use fil_webapi::scheduler_grpc::{
    method_descriptor, Marshaller, Scheduler, SchedulerClient, SchedulerMethod, SchedulerServer,
    Streaming,
};
use std::sync::Arc;

struct NoopScheduler;

impl Scheduler for NoopScheduler {
    fn test(
        &self,
        _o: grpc::ServerHandlerContext,
        _req: grpc::ServerRequestSingle<Empty>,
        _resp: grpc::ServerResponseUnarySink<Empty>,
    ) -> grpc::Result<()> {
        Ok(())
    }

    fn try_access(
        &self,
        _o: grpc::ServerHandlerContext,
        _req: grpc::ServerRequestSingle<AccessResource>,
        _resp: grpc::ServerResponseUnarySink<ResourceResult>,
    ) -> grpc::Result<()> {
        Ok(())
    }

    fn remove_guard(
        &self,
        _o: grpc::ServerHandlerContext,
        _req: grpc::ServerRequestSingle<ResourceToken>,
        _resp: grpc::ServerResponseUnarySink<ExecResult>,
    ) -> grpc::Result<()> {
        Ok(())
    }

    fn ping(
        &self,
        _o: grpc::ServerHandlerContext,
        _req: grpc::ServerRequestSingle<ResourceToken>,
        _resp: grpc::ServerResponseUnarySink<ExecResult>,
    ) -> grpc::Result<()> {
        Ok(())
    }
}

const ALL: [SchedulerMethod; 4] = [
    SchedulerMethod::Test,
    SchedulerMethod::TryAccess,
    SchedulerMethod::RemoveGuard,
    SchedulerMethod::Ping,
];

#[test]
fn descriptors_name_each_method_under_the_service() {
    assert_eq!(method_descriptor(SchedulerMethod::Test).name, "/scheduler.Scheduler/Test");
    assert_eq!(
        method_descriptor(SchedulerMethod::TryAccess).name,
        "/scheduler.Scheduler/TryAccess"
    );
    assert_eq!(
        method_descriptor(SchedulerMethod::RemoveGuard).name,
        "/scheduler.Scheduler/RemoveGuard"
    );
    assert_eq!(method_descriptor(SchedulerMethod::Ping).name, "/scheduler.Scheduler/Ping");
    for m in ALL {
        let d = method_descriptor(m);
        assert_eq!(d.streaming, Streaming::Unary);
        assert_eq!(d.req_marshaller, Marshaller::Protobuf);
        assert_eq!(d.resp_marshaller, Marshaller::Protobuf);
    }
}

#[test]
fn service_definition_registers_four_methods_in_order() {
    let def = SchedulerServer::new_service_def(NoopScheduler);
    assert_eq!(def.prefix, "/scheduler.Scheduler");
    let served: Vec<SchedulerMethod> = def.methods.iter().map(|m| m.handler_method).collect();
    assert_eq!(served, ALL.to_vec());
    for m in &def.methods {
        assert_eq!(m.descriptor.name, method_descriptor(m.handler_method).name);
    }
}

#[test]
fn server_routes_every_client_path_to_its_handler() {
    let def = SchedulerServer::new_service_def(NoopScheduler);
    for m in ALL {
        let path = method_descriptor(m).name;
        assert_eq!(def.find_method(&path), Some(m));
    }
}

#[test]
fn server_routes_unknown_paths_nowhere() {
    let def = SchedulerServer::new_service_def(NoopScheduler);
    assert_eq!(def.find_method("/scheduler.Scheduler/Missing"), None);
    assert_eq!(def.find_method("Test"), None);
    assert_eq!(def.find_method("/scheduler.Scheduler/test"), None);
    assert_eq!(def.find_method(""), None);
}

#[test]
fn client_calls_carry_request_and_method() {
    let conf = grpc::ClientConf::new();
    let client = grpc::ClientBuilder::new("127.0.0.1", 1)
        .conf(conf)
        .build()
        .expect("a client is built without connecting");
    let client = SchedulerClient::with_client(Arc::new(client));

    let call = client.test(grpc::RequestOptions::new(), Empty::new());
    assert_eq!(call.method.name, "/scheduler.Scheduler/Test");
    assert_eq!(call.request, Empty {});

    let mut req = AccessResource::new();
    req.set_request_resource("C2".to_string());
    req.set_name("C2-1".to_string());
    let call = client.try_access(grpc::RequestOptions::new(), req);
    assert_eq!(call.method.name, "/scheduler.Scheduler/TryAccess");
    assert_eq!(call.request.get_request_resource(), "C2");
    assert_eq!(call.request.get_name(), "C2-1");

    let call = client.remove_guard(grpc::RequestOptions::new(), ResourceToken { token: 7 });
    assert_eq!(call.method.name, "/scheduler.Scheduler/RemoveGuard");
    assert_eq!(call.request.get_token(), 7);

    let call = client.ping(grpc::RequestOptions::new(), ResourceToken { token: 9 });
    assert_eq!(call.method.name, "/scheduler.Scheduler/Ping");
    assert_eq!(call.request.get_token(), 9);
    assert_eq!(call.method.streaming, Streaming::Unary);
}

#[test]
fn resource_result_token_defaults_to_zero() {
    let mut r = ResourceResult::new();
    assert!(!r.has_token());
    assert_eq!(r.get_token(), ResourceToken { token: 0 });
    r.set_token(ResourceToken { token: 42 });
    assert!(r.has_token());
    assert_eq!(r.get_token().get_token(), 42);
    let mut t = ResourceToken::new();
    assert_eq!(t.get_token(), 0);
    t.set_token(5);
    assert_eq!(t.token, 5);
    assert_eq!(ExecResult::new(), ExecResult {});
}

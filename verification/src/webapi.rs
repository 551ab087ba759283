//! The decisions of the web API client: which server to use, what a reply means, when to
//! retry, how a long-running job is polled to its end, how a scheduler resource is waited for
//! and kept, and what the caller of the sealing entry point is answered.
use rand::seq::SliceRandom;
use vstd::prelude::*;
use crate::decimal::{decimal, decimal_string, lemma_decimal_injective};
use crate::json::{
    json_member, json_parse, json_get, json_debug, json_error_debug, str_debug, debug_json_value,
    debug_str,
};
use crate::scheduler::{AccessResource, ResourceResult, ResourceToken};
use crate::util::rpc::{reply_accepted, reply_error_text, reply_value};

verus! {

// ---------------------------------------------------------------- servers

/// One web API server: its base URL, an optional certificate file to trust, and the token that
/// authorizes requests to it.
#[derive(Debug)]
pub struct ServerConfig {
    pub url: String,
    pub cert: Option<String>,
    pub token: String,
}

/// The configured web API servers.
#[derive(Debug)]
pub struct WebApiConfig {
    pub servers: Vec<ServerConfig>,
}

/// Calls `rand::seq::SliceRandom::choose` with the thread-local generator. Claimed, as its
/// documentation gives it: `None` exactly when there is no server, else one of the servers.
/// Which one is left open: it is drawn at random.
#[verifier::external_body]
fn choose_server(servers: &Vec<ServerConfig>) -> (r: Option<&ServerConfig>)
    ensures
        (r is None) == (servers.len() == 0),
        r matches Some(s) ==> servers@.contains(*s),
{
    servers.as_slice().choose(&mut rand::thread_rng())
}

fn copy_server(s: &ServerConfig) -> (r: ServerConfig)
    ensures
        r == *s,
{
    let cert = match &s.cert {
        Some(c) => Some(c.clone()),
        None => None,
    };
    ServerConfig { url: s.url.clone(), cert, token: s.token.clone() }
}

impl WebApiConfig {
    /// One of the configured servers, drawn at random.
    pub fn pick_server(&self) -> (s: ServerConfig)
        requires
            self.servers.len() > 0,
        ensures
            self.servers@.contains(s),
    {
        match choose_server(&self.servers) {
            Some(s) => copy_server(s),
            None => vstd::pervasive::unreached(),
        }
    }
}

/// The URL of `path` on a server: the server's base URL followed by the path.
pub fn server_url(server: &ServerConfig, path: &str) -> (u: String)
    ensures
        u@ == server.url@ + path@,
{
    server.url.clone().concat(path)
}

// ---------------------------------------------------------------- one request

/// Why a request to a web API server failed.
#[derive(Debug)]
pub enum WebApiError {
    /// The server answered with this HTTP status instead of 200.
    StatusError(u16),
    /// The request could not be made, or its reply could not be used; the text says why.
    Error(String),
}

/// The HTTP status that a server answers when it is busy.
pub const TOO_MANY_REQUESTS: u16 = 429;

/// The first check on a reply: only status 200 goes on.
pub fn post_status(stat: u16) -> (r: Result<(), WebApiError>)
    ensures
        (r is Ok) == (stat == 200),
        r matches Err(e) ==> e == WebApiError::StatusError(stat),
{
    if stat != 200 {
        Err(WebApiError::StatusError(stat))
    } else {
        Ok(())
    }
}

/// The second check on a reply: its body must be a JSON document without an `Err` member.
pub fn post_reply(text: &str) -> (r: Result<serde_json::Value, WebApiError>)
    ensures
        (r is Ok) == reply_accepted(text@),
        r matches Ok(v) ==> json_parse(text@) == Ok::<serde_json::Value, serde_json::Error>(v),
        r matches Err(e) ==> e matches WebApiError::Error(m) && m@ == reply_error_text(text@),
        match json_parse(text@) {
            Ok(v) => if json_member(v, "Err"@) is None {
                r == Ok::<serde_json::Value, WebApiError>(v)
            } else {
                r matches Err(WebApiError::Error(m)) && m@ == json_debug(v)
            },
            Err(e) => r matches Err(WebApiError::Error(m)) && m@ == json_error_debug(e),
        },
{
    match reply_value(text) {
        Ok(v) => Ok(v),
        Err(e) => Err(WebApiError::Error(e)),
    }
}

// ---------------------------------------------------------------- a request to some server

/// What to do after a request to a picked server.
pub enum PickStep {
    /// Stop with this outcome.
    Finished(Result<serde_json::Value, String>),
    /// The server was busy: wait this many seconds, pick a server again and repeat the request.
    RetryAfter(u64),
}

/// Seconds to wait before retrying a busy server.
pub const BUSY_RETRY_SECS: u64 = 60;

/// The text of the error for an unexpected HTTP status.
pub open spec fn status_error_text(stat: u16) -> Seq<char> {
    "Err with code: "@ + decimal(stat as nat)
}

/// Decides on the outcome of one request to a picked server: a reply is the result, a failure
/// ends with its text, a busy server is retried after a pause, any other status ends with an
/// error that names it.
pub fn pick_step(res: Result<serde_json::Value, WebApiError>) -> (step: PickStep)
    ensures
        match res {
            Ok(v) => step == PickStep::Finished(Ok(v)),
            Err(WebApiError::Error(e)) => step == PickStep::Finished(Err(e)),
            Err(WebApiError::StatusError(stat)) => if stat == 429 {
                step == PickStep::RetryAfter(60)
            } else {
                step matches PickStep::Finished(Err(m)) && m@ == status_error_text(stat)
            },
        },
{
    match res {
        Ok(v) => PickStep::Finished(Ok(v)),
        Err(WebApiError::Error(e)) => PickStep::Finished(Err(e)),
        Err(WebApiError::StatusError(stat)) => {
            if stat != TOO_MANY_REQUESTS {
                let m = String::from_str("Err with code: ").concat(
                    decimal_string(stat as u128).as_str(),
                );
                PickStep::Finished(Err(m))
            } else {
                PickStep::RetryAfter(BUSY_RETRY_SECS)
            }
        },
    }
}

// ---------------------------------------------------------------- polling a job

/// The state of a job on a web API server, as the server reports it.
#[derive(Debug)]
pub enum PollingState {
    /// The job was started under this id.
    Started(u64),
    /// The job is still running.
    Pending,
    /// The job finished with this result.
    Done(serde_json::Value),
    /// The job failed, for this reason.
    Error(String),
}

/// The text that the derived `Debug` implementation writes for a state: the variant's name, and
/// its field in brackets written by the field's own `Debug`.
pub open spec fn polling_state_debug(s: PollingState) -> Seq<char> {
    match s {
        PollingState::Started(id) => "Started("@ + decimal(id as nat) + ")"@,
        PollingState::Pending => "Pending"@,
        PollingState::Done(v) => "Done("@ + json_debug(v) + ")"@,
        PollingState::Error(m) => "Error("@ + str_debug(m@) + ")"@,
    }
}

impl PollingState {
    /// The state as its derived `Debug` implementation writes it.
    pub fn debug_text(&self) -> (t: String)
        ensures
            t@ == polling_state_debug(*self),
    {
        match self {
            PollingState::Started(id) => {
                let t = String::from_str("Started(").concat(decimal_string(*id as u128).as_str());
                t.concat(")")
            },
            PollingState::Pending => String::from_str("Pending"),
            PollingState::Done(v) => {
                let t = String::from_str("Done(").concat(debug_json_value(v).as_str());
                t.concat(")")
            },
            PollingState::Error(m) => {
                let t = String::from_str("Error(").concat(debug_str(m.as_str()).as_str());
                t.concat(")")
            },
        }
    }
}

/// A job being polled: the server that runs it and the id it was started under.
pub struct Polling {
    pub server: ServerConfig,
    pub proc_id: u64,
}

/// What to do after a state report of a polled job.
pub enum PollStep {
    /// Stop with this outcome.
    Finished(Result<serde_json::Value, String>),
    /// The job is still running: wait this many seconds and ask again.
    QueryAfter(u64),
}

/// Seconds between two state queries of a running job.
pub const POLL_INTERVAL_SECS: u64 = 30;

/// The path, on the job's server, that answers state queries.
pub open spec fn query_state_path() -> Seq<char> {
    "sys/query_state"@
}

/// Begins polling from the server's answer to the request that submitted the job: a started
/// job is polled on the same server under its id; any other answer is an error.
pub fn start_polling(server: ServerConfig, state: PollingState) -> (r: Result<Polling, String>)
    ensures
        match state {
            PollingState::Started(id) => r == Ok::<Polling, String>(
                Polling { server, proc_id: id },
            ),
            _ => r matches Err(m) && m@ == "webapi_post_polling response error: "@
                + polling_state_debug(state),
        },
{
    match state {
        PollingState::Started(id) => Ok(Polling { server, proc_id: id }),
        _ => {
            let text = state.debug_text();
            let prefix = "webapi_post_polling response error: ";
            let m = String::from_str(prefix).concat(text.as_str());
            Err(m)
        },
    }
}

impl Polling {
    /// The URL that state queries of this job go to.
    pub fn query_url(&self) -> (u: String)
        ensures
            u@ == self.server.url@ + query_state_path(),
    {
        server_url(&self.server, "sys/query_state")
    }

    /// Decides on a state report: a finished job yields its result, a running job is asked
    /// again after the poll interval, anything else is an error.
    pub fn step(&self, state: PollingState) -> (s: PollStep)
        ensures
            match state {
                PollingState::Done(v) => s == PollStep::Finished(Ok(v)),
                PollingState::Pending => s == PollStep::QueryAfter(30),
                _ => s matches PollStep::Finished(Err(m)) && m@ == "poll_state error: "@
                    + polling_state_debug(state),
            },
    {
        match state {
            PollingState::Done(v) => PollStep::Finished(Ok(v)),
            PollingState::Pending => PollStep::QueryAfter(POLL_INTERVAL_SECS),
            _ => {
                let text = state.debug_text();
                let m = String::from_str("poll_state error: ").concat(text.as_str());
                PollStep::Finished(Err(m))
            },
        }
    }
}

// ---------------------------------------------------------------- scheduler resources

/// The host of the scheduler service.
pub open spec fn scheduler_host() -> Seq<char> {
    "127.0.0.1"@
}

/// The port of the scheduler service.
pub const SCHEDULER_PORT: u16 = 3000;

/// The host of the scheduler service.
pub fn scheduler_host_name() -> (h: String)
    ensures
        h@ == scheduler_host(),
{
    String::from_str("127.0.0.1")
}

/// The request for a resource of class `cond`, named after the class and the time of asking
/// (nanoseconds since the Unix epoch).
pub fn access_request(cond: &str, nanos: u128) -> (req: AccessResource)
    ensures
        req.request_resource@ == cond@,
        req.name@ == cond@ + "-"@ + decimal(nanos as nat),
{
    let name = String::from_str(cond).concat("-").concat(decimal_string(nanos).as_str());
    let mut req = AccessResource::new();
    req.set_request_resource(String::from_str(cond));
    req.set_name(name);
    req
}

/// Requests for the same resource class made at different times carry different names.
pub proof fn lemma_access_names_differ(cond: Seq<char>, t1: nat, t2: nat)
    requires
        t1 != t2,
    ensures
        cond + "-"@ + decimal(t1) != cond + "-"@ + decimal(t2),
{
    let p = cond + "-"@;
    if p + decimal(t1) == p + decimal(t2) {
        assert((p + decimal(t1)).skip(p.len() as int) =~= decimal(t1));
        assert((p + decimal(t2)).skip(p.len() as int) =~= decimal(t2));
        lemma_decimal_injective(t1, t2);
    }
}

/// What to do after the scheduler answered a request for a resource.
#[derive(Clone, Copy, Debug, PartialEq, Eq, Structural)]
pub enum AccessStep {
    /// The resource was granted under this token.
    Granted(ResourceToken),
    /// Not yet: wait this many seconds and ask again.
    RetryAfter(u64),
}

/// Decides on the scheduler's answer: a token grants the resource, no token means asking again
/// after `poll_time` seconds.
pub fn access_step(r: &ResourceResult, poll_time: u64) -> (s: AccessStep)
    ensures
        match r.token {
            Some(t) => s == AccessStep::Granted(t),
            None => s == AccessStep::RetryAfter(poll_time),
        },
{
    if r.has_token() {
        AccessStep::Granted(r.get_token())
    } else {
        AccessStep::RetryAfter(poll_time)
    }
}

/// What the keep-alive loop of a held resource found on its stop channel.
#[derive(Clone, Copy, Debug, PartialEq, Eq, Structural)]
pub enum StopSignal {
    /// The holder asked to stop.
    Received,
    /// Nothing yet.
    Empty,
    /// The holder is gone.
    Disconnected,
}

/// What the keep-alive loop does next.
#[derive(Clone, Copy, Debug, PartialEq, Eq, Structural)]
pub enum KeepAliveStep {
    /// End the loop.
    Stop,
    /// Sleep this many seconds, then ping the scheduler with this token.
    PingAfter(u64, ResourceToken),
}

/// Keeps a granted resource alive: the token it was granted under and the seconds between pings.
#[derive(Clone, Copy, Debug, PartialEq, Eq, Structural)]
pub struct KeepAlive {
    pub token: ResourceToken,
    pub interval_secs: u64,
}

impl KeepAlive {
    pub fn new(token: ResourceToken, interval_secs: u64) -> (k: KeepAlive)
        ensures
            k.token == token,
            k.interval_secs == interval_secs,
    {
        KeepAlive { token, interval_secs }
    }

    /// Decides on what the stop channel held: a stop request or a vanished holder ends the loop,
    /// else the resource's own token is pinged after the interval.
    pub fn step(&self, signal: StopSignal) -> (s: KeepAliveStep)
        ensures
            match signal {
                StopSignal::Empty => s == KeepAliveStep::PingAfter(self.interval_secs, self.token),
                _ => s == KeepAliveStep::Stop,
            },
    {
        match signal {
            StopSignal::Empty => KeepAliveStep::PingAfter(self.interval_secs, self.token),
            _ => KeepAliveStep::Stop,
        }
    }
}

// ---------------------------------------------------------------- commit phase 2

/// The resource class that commit phase 2 waits for.
pub open spec fn commit_phase2_resource() -> Seq<char> {
    "C2"@
}

/// The resource class that commit phase 2 waits for.
pub fn commit_phase2_resource_name() -> (s: String)
    ensures
        s@ == commit_phase2_resource(),
{
    String::from_str("C2")
}

/// Seconds between two requests for the commit phase 2 resource.
pub const COMMIT_PHASE2_POLL_SECS: u64 = 30;

/// Seconds between two pings that keep the commit phase 2 resource.
pub const COMMIT_PHASE2_KEEP_ALIVE_SECS: u64 = 60;

/// The web API path that runs commit phase 2.
pub open spec fn commit_phase2_path() -> Seq<char> {
    "seal/seal_commit_phase2"@
}

/// The web API path that runs commit phase 2.
pub fn commit_phase2_path_name() -> (s: String)
    ensures
        s@ == commit_phase2_path(),
{
    String::from_str("seal/seal_commit_phase2")
}

/// The member of a finished job's result that holds its output, if there is one.
pub fn commit_phase2_output(done: &serde_json::Value) -> (r: Option<&serde_json::Value>)
    ensures
        match r {
            Some(m) => json_member(*done, "Ok"@) == Some(*m),
            None => json_member(*done, "Ok"@) is None,
        },
{
    let key = "Ok";
    proof {
        reveal_strlit("Ok");
    }
    json_get(done, key)
}

/// The status that the sealing entry point answers with.
#[derive(Clone, Copy, Debug, PartialEq, Eq, Structural)]
pub enum ResponseStatus {
    NoError,
    UnclassifiedError,
    CallerError,
    ReceiverError,
}

/// What the sealing entry point answers: a status, the proof on success, a message on failure.
pub struct CommitPhase2Response {
    pub status_code: ResponseStatus,
    pub proof: Vec<u8>,
    pub error_msg: Option<String>,
}

/// The answer for the outcome of commit phase 2: the proof with no error, or an unclassified
/// error with its message and no proof.
pub fn commit_phase2_response(outcome: Result<Vec<u8>, String>) -> (r: CommitPhase2Response)
    ensures
        match outcome {
            Ok(proof) => r.status_code == ResponseStatus::NoError && r.proof@ == proof@
                && r.error_msg is None,
            Err(msg) => r.status_code == ResponseStatus::UnclassifiedError && r.proof@.len() == 0
                && r.error_msg == Some(msg),
        },
{
    match outcome {
        Ok(proof) => CommitPhase2Response {
            status_code: ResponseStatus::NoError,
            proof,
            error_msg: None,
        },
        Err(msg) => CommitPhase2Response {
            status_code: ResponseStatus::UnclassifiedError,
            proof: Vec::new(),
            error_msg: Some(msg),
        },
    }
}

} // verus!

use fil_webapi::decimal::decimal_string;
use fil_webapi::scheduler::{ResourceResult, ResourceToken};
use fil_webapi::util::rpc::{reply_value, rpc_url};
use fil_webapi::webapi::{
    access_request, access_step, commit_phase2_output, commit_phase2_path_name,
    commit_phase2_resource_name, commit_phase2_response, pick_step, post_reply, post_status,
    scheduler_host_name, server_url, start_polling, AccessStep, KeepAlive, KeepAliveStep, PickStep,
    PollStep, PollingState, ResponseStatus, ServerConfig, StopSignal, WebApiConfig, WebApiError,
    SCHEDULER_PORT,
};

fn j(text: &str) -> serde_json::Value {
    serde_json::from_str(text).unwrap()
}

fn server(url: &str) -> ServerConfig {
    ServerConfig { url: url.to_string(), cert: None, token: format!("token-{}", url) }
}

#[test]
fn decimal_rendering() {
    assert_eq!(decimal_string(0), "0");
    assert_eq!(decimal_string(7), "7");
    assert_eq!(decimal_string(10), "10");
    assert_eq!(decimal_string(429), "429");
    assert_eq!(decimal_string(u128::MAX), u128::MAX.to_string());
    assert_eq!(decimal_string(1_600_000_000_123_456_789), "1600000000123456789");
}

#[test]
fn rpc_url_joins_host_and_path() {
    assert_eq!(rpc_url("sys/test"), "http://127.0.0.1:8888/sys/test");
    assert_eq!(rpc_url(""), "http://127.0.0.1:8888/");
}

#[test]
fn reply_value_accepts_plain_documents() {
    let v = reply_value("{\"Ok\": 1}").unwrap();
    assert_eq!(v, j(r#"{"Ok": 1}"#));
    assert_eq!(reply_value("[1, 2]").unwrap(), j("[1, 2]"));
    assert_eq!(reply_value("\"Err\"").unwrap(), j(r#""Err""#));
}

#[test]
fn reply_value_rejects_err_member_and_bad_json() {
    let e = reply_value("{\"Err\": \"boom\"}").unwrap_err();
    assert_eq!(e, format!("{:?}", j(r#"{"Err": "boom"}"#)));
    assert_eq!(e, "Object {\"Err\": String(\"boom\")}");
    let e = reply_value("not json").unwrap_err();
    let parse_error = serde_json::from_str::<serde_json::Value>("not json").unwrap_err();
    assert_eq!(e, format!("{:?}", parse_error));
    assert_eq!(e, "Error(\"expected ident\", line: 1, column: 2)");
    assert!(reply_value("{\"Err\": null, \"Ok\": 1}").is_err());
    assert!(reply_value("not json").is_err());
    assert!(reply_value("").is_err());
    assert!(reply_value("{\"a\": 1} trailing").is_err());
}

#[test]
fn post_status_only_200_goes_on() {
    assert!(post_status(200).is_ok());
    assert!(matches!(post_status(404), Err(WebApiError::StatusError(404))));
    assert!(matches!(post_status(429), Err(WebApiError::StatusError(429))));
    assert!(matches!(post_status(201), Err(WebApiError::StatusError(201))));
}

#[test]
fn post_reply_maps_errors() {
    assert!(post_reply("{\"x\": true}").is_ok());
    assert!(matches!(post_reply("{\"Err\": 1}"), Err(WebApiError::Error(_))));
    assert!(matches!(post_reply("{"), Err(WebApiError::Error(_))));
}

#[test]
fn pick_step_decisions() {
    match pick_step(Ok(j("5"))) {
        PickStep::Finished(Ok(v)) => assert_eq!(v, j("5")),
        _ => panic!("a reply ends the request"),
    }
    match pick_step(Err(WebApiError::Error("down".to_string()))) {
        PickStep::Finished(Err(m)) => assert_eq!(m, "down"),
        _ => panic!("a failure ends the request"),
    }
    assert!(matches!(pick_step(Err(WebApiError::StatusError(429))), PickStep::RetryAfter(60)));
    match pick_step(Err(WebApiError::StatusError(500))) {
        PickStep::Finished(Err(m)) => assert_eq!(m, "Err with code: 500"),
        _ => panic!("other statuses end the request"),
    }
    match pick_step(Err(WebApiError::StatusError(0))) {
        PickStep::Finished(Err(m)) => assert_eq!(m, "Err with code: 0"),
        _ => panic!("other statuses end the request"),
    }
}

#[test]
fn polling_starts_only_from_started() {
    let p = start_polling(server("http://a/"), PollingState::Started(17)).ok().unwrap();
    assert_eq!(p.proc_id, 17);
    assert_eq!(p.server.url, "http://a/");
    assert_eq!(p.query_url(), "http://a/sys/query_state");
    let e = start_polling(server("http://a/"), PollingState::Pending).err().unwrap();
    assert_eq!(e, "webapi_post_polling response error: Pending");
    let e = start_polling(server("http://a/"), PollingState::Done(j("1")))
        .err()
        .unwrap();
    assert_eq!(e, "webapi_post_polling response error: Done(Number(1))");
    let e = start_polling(server("http://a/"), PollingState::Error("no \"disk\"".to_string()))
        .err()
        .unwrap();
    assert_eq!(e, "webapi_post_polling response error: Error(\"no \\\"disk\\\"\")");
}

#[test]
fn polling_state_text_is_its_debug_text() {
    let states = vec![
        PollingState::Started(0),
        PollingState::Started(u64::MAX),
        PollingState::Pending,
        PollingState::Done(j(r#"{"Ok": {"proof": [1, 2]}, "n": null}"#)),
        PollingState::Done(j("[true, 1.5, \"x\"]")),
        PollingState::Error(String::new()),
        PollingState::Error("tab\there \u{7f} é \\ \"q\"".to_string()),
    ];
    for s in states {
        assert_eq!(s.debug_text(), format!("{:?}", s));
    }
    assert_eq!(PollingState::Started(42).debug_text(), "Started(42)");
    assert_eq!(PollingState::Error("x".to_string()).debug_text(), "Error(\"x\")");
}

#[test]
fn post_reply_error_text_is_debug_of_document() {
    match post_reply("{\"Err\": 1}") {
        Err(WebApiError::Error(m)) => assert_eq!(m, "Object {\"Err\": Number(1)}"),
        _ => panic!("a reply with an Err member is refused"),
    }
}

#[test]
fn polling_steps() {
    let p = start_polling(server("http://b/"), PollingState::Started(3)).ok().unwrap();
    assert!(matches!(p.step(PollingState::Pending), PollStep::QueryAfter(30)));
    match p.step(PollingState::Done(j(r#"{"Ok": [1, 2]}"#))) {
        PollStep::Finished(Ok(v)) => assert_eq!(v, j(r#"{"Ok": [1, 2]}"#)),
        _ => panic!("a finished job ends polling"),
    }
    match p.step(PollingState::Error("bad".to_string())) {
        PollStep::Finished(Err(m)) => assert_eq!(m, "poll_state error: Error(\"bad\")"),
        _ => panic!("a failed job ends polling"),
    }
    match p.step(PollingState::Started(4)) {
        PollStep::Finished(Err(m)) => assert_eq!(m, "poll_state error: Started(4)"),
        _ => panic!("a restart is an error"),
    }
}

#[test]
fn access_request_names_the_time() {
    let req = access_request("C2", 1234567890);
    assert_eq!(req.request_resource, "C2");
    assert_eq!(req.name, "C2-1234567890");
    let req = access_request("", 0);
    assert_eq!(req.name, "-0");
    assert_ne!(access_request("C2", 10).name, access_request("C2", 100).name);
}

#[test]
fn access_step_waits_for_a_token() {
    let mut r = ResourceResult::new();
    assert_eq!(access_step(&r, 30), AccessStep::RetryAfter(30));
    r.set_token(ResourceToken { token: 11 });
    assert_eq!(access_step(&r, 30), AccessStep::Granted(ResourceToken { token: 11 }));
}

#[test]
fn keep_alive_pings_until_stopped() {
    let k = KeepAlive::new(ResourceToken { token: 8 }, 60);
    assert_eq!(k.step(StopSignal::Empty), KeepAliveStep::PingAfter(60, ResourceToken { token: 8 }));
    assert_eq!(k.step(StopSignal::Received), KeepAliveStep::Stop);
    assert_eq!(k.step(StopSignal::Disconnected), KeepAliveStep::Stop);
}

#[test]
fn scheduler_address_and_commit_constants() {
    assert_eq!(scheduler_host_name(), "127.0.0.1");
    assert_eq!(SCHEDULER_PORT, 3000);
    assert_eq!(commit_phase2_resource_name(), "C2");
    assert_eq!(commit_phase2_path_name(), "seal/seal_commit_phase2");
}

#[test]
fn commit_phase2_response_shapes() {
    let r = commit_phase2_response(Ok(vec![1, 2, 3]));
    assert_eq!(r.status_code, ResponseStatus::NoError);
    assert_eq!(r.proof, vec![1, 2, 3]);
    assert!(r.error_msg.is_none());
    let r = commit_phase2_response(Err("\"failed\"".to_string()));
    assert_eq!(r.status_code, ResponseStatus::UnclassifiedError);
    assert!(r.proof.is_empty());
    assert_eq!(r.error_msg.as_deref(), Some("\"failed\""));
}

#[test]
fn commit_phase2_output_reads_ok_member() {
    let done = j(r#"{"Ok": {"proof": [1]}}"#);
    assert_eq!(commit_phase2_output(&done), Some(&j(r#"{"proof": [1]}"#)));
    assert_eq!(commit_phase2_output(&j(r#"{"Err": 1}"#)), None);
    assert_eq!(commit_phase2_output(&j("[1]")), None);
}

#[test]
fn pick_server_returns_a_configured_server() {
    let config = WebApiConfig { servers: vec![server("http://only/")] };
    assert_eq!(config.pick_server().url, "http://only/");
    let config = WebApiConfig { servers: vec![server("http://a/"), server("http://b/")] };
    for _ in 0..20 {
        let s = config.pick_server();
        assert!(s.url == "http://a/" || s.url == "http://b/");
        assert_eq!(s.token, format!("token-{}", s.url));
    }
}

#[test]
fn server_url_appends_path() {
    assert_eq!(server_url(&server("http://a/"), "seal/x"), "http://a/seal/x");
}

//! The host: requests, answers, and the envelope of its answers.

use session_control::host::{Host, HostFn, Reply, Request, open_envelope, parse_envelope};
use session_control::json::{Json, parse_json};

#[test]
fn an_answer_is_its_document() {
    let doc = parse_envelope(r#"{"sessions":[]}"#).unwrap();
    assert_eq!(doc.to_text(), r#"{"sessions":[]}"#);
}

#[test]
fn an_error_in_the_envelope_is_a_refusal() {
    assert_eq!(parse_envelope(r#"{"error":"no such session"}"#).unwrap_err(), "no such session");
    // An error that is no text is not one.
    assert!(parse_envelope(r#"{"error":17}"#).is_ok());
    assert!(open_envelope(Json::Null).is_ok());
}

#[test]
fn an_answer_that_is_no_document_is_a_refusal() {
    let message = serde_json::from_str::<serde_json::Value>("oops").unwrap_err();
    assert_eq!(
        parse_envelope("oops").unwrap_err(),
        format!("host returned invalid json: {message}")
    );
}

#[test]
fn requests_are_answered_in_order() {
    let mut host = Host::new(vec![
        Reply::Count(7),
        Reply::Returned(parse_json(r#"{"a":1}"#).unwrap()),
        Reply::Refused("no".into()),
        Reply::Lease(true),
        Reply::Released,
    ]);
    assert!(host.pending().is_none());
    assert_eq!(host.next_token(), Some(7));
    let first = host.call(HostFn::ListFolders, Json::Null).unwrap().unwrap();
    assert_eq!(first.to_text(), r#"{"a":1}"#);
    assert_eq!(host.call(HostFn::ListModels, Json::Null).unwrap().unwrap_err(), "no");
    assert_eq!(host.acquire(), Some(true));
    assert_eq!(host.release(), Some(()));
    assert_eq!(host.asked().len(), 5);
    assert!(matches!(host.asked()[2], Request::Call(HostFn::ListModels, _)));
    // No answer is left: the request stands.
    assert_eq!(host.next_id(), None);
    assert!(matches!(host.pending(), Some(Request::NextId)));
}

#[test]
fn an_answer_of_another_kind_is_none() {
    let mut host = Host::new(vec![Reply::Count(1)]);
    assert!(host.call(HostFn::ListFolders, Json::Null).is_none());
    let mut host = Host::new(vec![Reply::Released]);
    assert!(host.decode(Json::Null).is_none());
}

#[test]
fn giving_up_is_a_request() {
    let mut host = Host::new(Vec::new());
    host.abort("why");
    assert!(matches!(host.pending(), Some(Request::Abort(why)) if why == "why"));
}

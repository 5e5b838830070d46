//! The session-control tools.

use session_control::control::{
    clear_session_tool, find_session_tool, interrupt_session_tool, opt_str, require_str,
    send_image_tool, send_message_tool, terminate_agent_tool,
};
use session_control::host::{Host, Reply, Request};
use session_control::json::{Fields, Json, parse_json};

fn j(text: &str) -> Json {
    parse_json(text).unwrap()
}

/// A host on which the target lies in the caller's folder.
fn near() -> Host {
    Host::new(vec![
        Reply::Returned(j(r#"{"session_id":"me","folder_id":"f"}"#)),
        Reply::Returned(j(r#"{"sessions":[{"session_id":"s1","folder_id":"f"}]}"#)),
        Reply::Returned(j(r#"{"done":true}"#)),
    ])
}

fn last(host: &Host) -> String {
    match host.pending() {
        Some(Request::Call(f, input)) => format!("{f:?} {}", input.to_text()),
        other => format!("{other:?}"),
    }
}

#[test]
fn require_str_rejects_missing_and_blank() {
    let args = Fields::new().with("session_id", Json::text("   ")).done();
    assert!(require_str(&args, "session_id").is_err());
    assert!(require_str(&args, "nope").is_err());
    let ok = Fields::new().with("session_id", Json::text("s1")).done();
    assert_eq!(require_str(&ok, "session_id").unwrap(), "s1");
}

#[test]
fn missing_arguments_are_named() {
    assert_eq!(require_str(&Json::Null, "text").unwrap_err(), "'text' is required");
    assert_eq!(require_str(&j(r#"{"text":7}"#), "text").unwrap_err(), "'text' is required");
    let mut host = near();
    let r = send_message_tool(&j(r#"{"session_id":"s1","text":" "}"#), &mut host);
    assert_eq!(r.unwrap().unwrap_err(), "'text' is required");
    assert!(host.asked().is_empty());
}

#[test]
fn optional_arguments_have_defaults() {
    assert_eq!(opt_str(&j(r#"{"a":"x"}"#), "a", "d"), "x");
    assert_eq!(opt_str(&j(r#"{"a":1}"#), "a", "d"), "d");
    assert_eq!(opt_str(&Json::Null, "a", "d"), "d");
}

#[test]
fn actions_reach_the_host() {
    let args = j(r#"{"session_id":"s1"}"#);
    let mut host = near();
    let r = interrupt_session_tool(&args, &mut host).unwrap().unwrap();
    assert_eq!(r.to_text(), r#"{"done":true}"#);
    assert_eq!(last(&host), r#"InterruptSession {"session_id":"s1"}"#);
    let mut host = near();
    assert!(terminate_agent_tool(&args, &mut host).unwrap().is_ok());
    assert_eq!(last(&host), r#"TerminateAgent {"session_id":"s1"}"#);
    let mut host = near();
    assert!(clear_session_tool(&args, &mut host).unwrap().is_ok());
    assert_eq!(last(&host), r#"ClearSession {"session_id":"s1"}"#);
}

#[test]
fn messages_carry_their_text() {
    let mut host = near();
    let r = send_message_tool(&j(r#"{"session_id":"s1","text":"hi"}"#), &mut host);
    assert!(r.unwrap().is_ok());
    assert_eq!(last(&host), r#"SendMessage {"session_id":"s1","text":"hi"}"#);
}

#[test]
fn images_carry_their_attachment() {
    let mut host = near();
    let args = j(r#"{"session_id":"s1","image_base64":"AAA=","mime_type":"image/png"}"#);
    assert!(send_image_tool(&args, &mut host).unwrap().is_ok());
    assert_eq!(
        last(&host),
        [
            r#"SendMessage {"attachments":[{"data_base64":"AAA=","filename":"image","#,
            r#""mime_type":"image/png"}],"session_id":"s1","text":""}"#,
        ]
        .concat()
    );
    let args = j(r#"{"session_id":"s1","image_base64":"AAA="}"#);
    let r = send_image_tool(&args, &mut near());
    assert_eq!(r.unwrap().unwrap_err(), "'mime_type' is required");
}

#[test]
fn a_question_to_the_user_holds_the_action_back() {
    let mut host = Host::new(vec![
        Reply::Returned(j(r#"{"session_id":"me","folder_id":"f"}"#)),
        Reply::Returned(j(r#"{"sessions":[{"session_id":"s1","folder_id":"g"}]}"#)),
        Reply::Returned(j(r#"{}"#)),
        Reply::Returned(j(r#"{"value":{"token":"k"}}"#)),
        Reply::Returned(j(r#"{}"#)),
    ]);
    let r = clear_session_tool(&j(r#"{"session_id":"s1"}"#), &mut host).unwrap().unwrap();
    assert_eq!(r.text_at("status"), Some("awaiting_approval"));
    assert_eq!(last(&host), r#"GetAnswer {"token":"k"}"#);
}

#[test]
fn discovery_asks_nobody() {
    let mut host = Host::new(vec![Reply::Returned(j(r#"{"sessions":[]}"#))]);
    let r = find_session_tool(&j(r#"{"query":"abc"}"#), &mut host);
    assert!(r.unwrap().is_ok());
    assert_eq!(host.asked().len(), 1);
    assert_eq!(last(&host), r#"ListSessions {"query":"abc"}"#);
    let mut host = Host::new(vec![Reply::Refused("down".into())]);
    assert_eq!(find_session_tool(&Json::Null, &mut host).unwrap().unwrap_err(), "down");
    assert_eq!(last(&host), r#"ListSessions {"query":""}"#);
}

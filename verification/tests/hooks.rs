//! Hook dispatch.

use session_control::hooks::{dispatch, dispatch_hook};
use session_control::host::{Host, Reply, Request};
use session_control::json::{Json, parse_json};
use session_control::manifest::manifest;

fn j(text: &str) -> Json {
    parse_json(text).unwrap()
}

fn ret(text: &str) -> Reply {
    Reply::Returned(j(text))
}

fn silent() -> Host {
    Host::new(Vec::new())
}

fn invoke(payload: &str, replies: Vec<Reply>) -> (Option<String>, Host) {
    let mut host = Host::new(replies);
    let r = dispatch_hook("mcp.tool.invoke", &j(payload), &mut host);
    (r, host)
}

#[test]
fn unknown_hooks_are_skipped() {
    let mut host = silent();
    let r = dispatch_hook("some.other.hook", &Json::Null, &mut host);
    assert_eq!(r.as_deref(), Some(r#"{"verdict":"skip"}"#));
    assert!(host.asked().is_empty());
}

#[test]
fn unknown_tools_are_cancelled() {
    let (r, host) = invoke(r#"{"tool":"fly"}"#, vec![]);
    assert_eq!(
        r.as_deref(),
        Some(r#"{"reason":"session-control does not provide tool 'fly'","verdict":"cancel"}"#)
    );
    assert!(host.asked().is_empty());
    let (r, _) = invoke("null", vec![]);
    assert!(r.unwrap().contains("does not provide tool ''"));
}

#[test]
fn a_refusal_cancels() {
    let (r, _) = invoke(r#"{"tool":"clear_session","arguments":{}}"#, vec![]);
    assert_eq!(r.as_deref(), Some(r#"{"reason":"'session_id' is required","verdict":"cancel"}"#));
}

#[test]
fn declared_tools_are_dispatched() {
    let doc = manifest("d", "1", "r");
    let tools = doc.array_at("mcp_tools").unwrap();
    assert_eq!(tools.len(), 13);
    for tool in tools {
        let name = tool.text_at("name").unwrap();
        let (r, host) = invoke(&format!(r#"{{"tool":"{name}"}}"#), vec![]);
        match r {
            Some(verdict) => assert!(verdict.contains("is required"), "{name}"),
            None => assert_eq!(host.asked().len(), 1),
        }
        let (r, host) = invoke(&format!(r#"{{"tool":"{name}s"}}"#), vec![]);
        assert!(r.unwrap().contains(&format!("does not provide tool '{name}s'")));
        assert!(host.asked().is_empty());
    }
}

#[test]
fn every_tool_is_there() {
    for tool in [
        "interrupt_session",
        "terminate_agent",
        "clear_session",
        "send_message",
        "send_image",
        "create_session",
        "assign_hat",
        "watch_session",
        "unwatch_session",
        "update_goal_status",
        "orchestrator_report",
    ] {
        let (r, _) = invoke(&format!(r#"{{"tool":"{tool}"}}"#), vec![]);
        assert!(r.unwrap().contains("is required"), "{tool}");
    }
    for tool in ["find_session", "list_managed_sessions"] {
        let (r, _) = invoke(&format!(r#"{{"tool":"{tool}"}}"#), vec![Reply::Refused("x".into())]);
        assert_eq!(r.as_deref(), Some(r#"{"reason":"x","verdict":"cancel"}"#));
    }
}

#[test]
fn a_success_allows_and_is_attributed() {
    let (r, host) = invoke(
        r#"{"tool":"interrupt_session","arguments":{"session_id":"s1"}}"#,
        vec![
            ret(r#"{"session_id":"s1"}"#),
            ret(r#"{"sessions":[{"session_id":"s1"}]}"#),
            ret(r#"{"ok":true}"#),
            Reply::Lease(true),
            ret("{}"),
            Reply::Released,
        ],
    );
    assert_eq!(r.as_deref(), Some(r#"{"payload":{"ok":true},"verdict":"allow"}"#));
    assert!(matches!(host.asked()[3], Request::AcquireLease));
}

#[test]
fn a_question_is_no_action() {
    let (r, host) = invoke(
        r#"{"tool":"interrupt_session","arguments":{"session_id":"s1"}}"#,
        vec![
            ret(r#"{"session_id":"me"}"#),
            ret(r#"{"sessions":[{"session_id":"s1"}]}"#),
            ret("{}"),
            ret(r#"{"value":{"token":"k"}}"#),
            ret("{}"),
        ],
    );
    assert!(r.unwrap().contains("awaiting_approval"));
    assert_eq!(host.asked().len(), 5);
}

#[test]
fn discovery_is_no_action() {
    let (r, host) = invoke(r#"{"tool":"find_session"}"#, vec![ret(r#"{"sessions":[]}"#)]);
    assert_eq!(r.as_deref(), Some(r#"{"payload":{"sessions":[]},"verdict":"allow"}"#));
    assert_eq!(host.asked().len(), 1);
}

#[test]
fn notifications_always_allow() {
    let r = dispatch_hook("timer.tick", &Json::Null, &mut silent());
    assert_eq!(
        r.as_deref(),
        Some(r#"{"payload":{"error":"timer.tick payload missing 'now'","ok":false},"verdict":"allow"}"#)
    );
    let r = dispatch_hook("session.agent.ended", &Json::Null, &mut silent());
    assert_eq!(r.as_deref(), Some(r#"{"payload":{"ok":true},"verdict":"allow"}"#));
}

#[test]
fn messages_are_only_observed() {
    let mut host = Host::new(vec![Reply::Refused("x".into())]);
    let r = dispatch_hook("session.message.before", &j(r#"{"session_id":"s1"}"#), &mut host);
    assert_eq!(r.as_deref(), Some(r#"{"verdict":"skip"}"#));
}

#[test]
fn requests_are_served() {
    let r = dispatch("http.request.before", &Json::Null, &mut silent()).unwrap();
    assert_eq!(r.text_at("verdict"), Some("allow"));
    assert_eq!(r.get("payload").unwrap().u64_at("status"), Some(404));
    let r = dispatch("http.request.authed", &Json::Null, &mut silent()).unwrap();
    assert_eq!(r.text_at("verdict"), Some("allow"));
    assert_eq!(r.get("payload").unwrap().u64_at("status"), Some(404));
}

/// Running again with one answer more asks what was asked before, and goes on.
#[test]
fn a_run_goes_on_where_it_stopped() {
    let payload = j(r#"{"tool":"interrupt_session","arguments":{"session_id":"s1"}}"#);
    let answers = vec![
        ret(r#"{"session_id":"s1"}"#),
        ret(r#"{"sessions":[{"session_id":"s1"}]}"#),
        ret(r#"{"ok":true}"#),
        Reply::Lease(true),
        ret("{}"),
        Reply::Released,
    ];
    let mut before: Vec<String> = Vec::new();
    for n in 0..=answers.len() {
        let mut host = Host::new(answers[..n].to_vec());
        let r = dispatch_hook("mcp.tool.invoke", &payload, &mut host);
        assert_eq!(r.is_some(), n == answers.len());
        let asked: Vec<String> = host.asked().iter().map(|q| format!("{q:?}")).collect();
        assert!(asked.starts_with(&before));
        assert_eq!(asked.len(), if r.is_some() { n } else { n + 1 });
        before = asked;
    }
}

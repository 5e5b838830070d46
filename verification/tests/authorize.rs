//! Cross-folder approval, answer by answer.

use session_control::authorize::{Gate, ensure_cross_folder_allowed, new_token, store_has_always};
use session_control::host::{Host, Reply, Request};
use session_control::json::parse_json;

fn ret(text: &str) -> Reply {
    Reply::Returned(parse_json(text).unwrap())
}

fn asked(host: &Host) -> Vec<String> {
    host.asked()
        .iter()
        .map(|q| match q {
            Request::Call(f, input) => format!("{f:?} {}", input.to_text()),
            other => format!("{other:?}"),
        })
        .collect()
}

const SCOPE: &str = r#"{"session_id":"me","folder_id":"f1"}"#;
const NEAR: &str = r#"{"sessions":[{"session_id":"x"},{"session_id":"t","folder_id":"f1","name":"T"}]}"#;
const FAR: &str = r#"{"sessions":[{"session_id":"t","folder_id":"f2","name":"Far"}]}"#;
const NONE: &str = r#"{"value":null}"#;
const PENDING: &str = r#"{"value":{"token":"tok","target_id":"t","action":"clear"}}"#;

fn gate(replies: Vec<Reply>) -> (Option<Result<Gate, String>>, Host) {
    let mut host = Host::new(replies);
    let r = ensure_cross_folder_allowed("t", "clear", &mut host);
    (r, host)
}

fn is_ready(r: &Option<Result<Gate, String>>) -> bool {
    matches!(r, Some(Ok(Gate::Ready)))
}

fn refusal(r: Option<Result<Gate, String>>) -> String {
    match r {
        Some(Err(e)) => e,
        other => panic!("no refusal: {other:?}"),
    }
}

fn waiting(r: Option<Result<Gate, String>>) -> String {
    match r {
        Some(Ok(Gate::Awaiting(doc))) => doc.to_text(),
        other => panic!("not waiting: {other:?}"),
    }
}

#[test]
fn the_own_folder_is_free() {
    let (r, host) = gate(vec![ret(SCOPE), ret(NEAR)]);
    assert!(is_ready(&r));
    assert_eq!(asked(&host), ["CallerScope {}", r#"ListSessions {"query":"t"}"#]);
}

#[test]
fn a_session_controls_itself() {
    let (r, _) = gate(vec![ret(r#"{"session_id":"t"}"#), ret(FAR)]);
    assert!(is_ready(&r));
}

#[test]
fn empty_folders_are_no_common_folder() {
    let (r, _) = gate(vec![
        ret(r#"{"session_id":"","folder_id":""}"#),
        ret(r#"{"sessions":[{"session_id":"t"}]}"#),
    ]);
    assert_eq!(
        refusal(r),
        "cross-folder session control requires a caller session (invoke from a session tool call)"
    );
}

#[test]
fn an_unknown_target_is_refused() {
    let (r, _) = gate(vec![ret(SCOPE), ret(r#"{"sessions":[{"session_id":"tt"}]}"#)]);
    assert_eq!(refusal(r), "session not found: t");
    let (r, _) = gate(vec![ret(SCOPE), ret(r#"{}"#)]);
    assert_eq!(refusal(r), "session not found: t");
    let (r, _) = gate(vec![Reply::Refused("down".into())]);
    assert_eq!(refusal(r), "down");
}

#[test]
fn the_first_time_the_user_is_asked() {
    let (r, host) = gate(vec![
        ret(SCOPE),
        ret(FAR),
        ret(NONE),
        ret(NONE),
        Reply::Count(5),
        ret("{}"),
        ret("{}"),
    ]);
    assert_eq!(
        waiting(r),
        concat_lines(&[
            r#"{"message":"Waiting for user approval to clear cross-folder session \"Far\". "#,
            r#"Re-call this tool after they answer (Approve once / Approve always / Deny).","#,
            r#""status":"awaiting_approval","target_session_id":"t"}"#,
        ])
    );
    assert_eq!(
        asked(&host)[2..],
        [
            r#"StoreGet {"collection":"cross_folder_always","key":"me"}"#.to_string(),
            r#"StoreGet {"collection":"cross_folder_pending","key":"me|t"}"#.to_string(),
            "NextToken".to_string(),
            concat_lines(&[
                r#"StorePut {"collection":"cross_folder_pending","data":{"action":"clear","#,
                r#""target_id":"t","token":"sc-me-t-5"},"key":"me|t"}"#,
            ]),
            concat_lines(&[
                r#"AskUser {"options":["Approve once","Approve always","Deny"],"#,
                r#""question":"Allow this session to clear session \"Far\" (t) in another folder?","#,
                r#""token":"sc-me-t-5"}"#,
            ]),
        ]
    );
}

fn concat_lines(parts: &[&str]) -> String {
    parts.concat()
}

#[test]
fn without_an_answer_it_waits() {
    let (r, host) = gate(vec![
        ret(SCOPE),
        ret(FAR),
        ret(NONE),
        ret(PENDING),
        ret(r#"{"status":"open"}"#),
    ]);
    assert!(waiting(r).contains("Still waiting for user approval to clear"));
    assert_eq!(asked(&host).last().unwrap(), r#"GetAnswer {"token":"tok"}"#);
}

fn answered(answer: &str) -> (Option<Result<Gate, String>>, Vec<String>) {
    let (r, host) = gate(vec![
        ret(SCOPE),
        ret(FAR),
        ret(NONE),
        ret(PENDING),
        ret(answer),
        ret("{}"),
        ret("{}"),
    ]);
    (r, asked(&host)[5..].to_vec())
}

const SETTLED: &str = r#"StoreDelete {"collection":"cross_folder_pending","key":"me|t"}"#;

#[test]
fn approve_once_grants_the_pair() {
    let (r, rest) = answered(r#"{"status":"answered","answer":"Approve once"}"#);
    assert!(is_ready(&r));
    assert_eq!(
        rest,
        [
            SETTLED,
            r#"StorePut {"collection":"cross_folder_once","data":{"approved":true},"key":"me|t"}"#,
        ]
    );
}

#[test]
fn approve_always_grants_the_session() {
    let (r, rest) = answered(r#"{"status":"answered","answer":"Approve always (this session)"}"#);
    assert!(is_ready(&r));
    assert_eq!(
        rest,
        [
            SETTLED,
            r#"StorePut {"collection":"cross_folder_always","data":{"approved":true},"key":"me"}"#,
        ]
    );
}

#[test]
fn a_denial_is_refused_and_settled() {
    for answer in [
        r#"{"status":"answered","answer":"Deny"}"#,
        r#"{"status":"answered","answer":"Approve always","rejected":true}"#,
    ] {
        let (r, rest) = answered(answer);
        assert_eq!(refusal(r), "the user denied clear on cross-folder session \"Far\"");
        assert_eq!(rest, [SETTLED]);
    }
}

#[test]
fn another_answer_is_refused() {
    let (r, rest) = answered(r#"{"status":"answered","answer":"perhaps"}"#);
    assert_eq!(refusal(r), "the user did not approve clear on \"Far\" (answer: perhaps)");
    assert_eq!(rest, [SETTLED]);
}

#[test]
fn a_broken_question_is_refused() {
    let (r, _) = gate(vec![ret(SCOPE), ret(FAR), ret(NONE), ret(r#"{"value":{}}"#)]);
    assert_eq!(refusal(r), "corrupt pending approval record");
}

#[test]
fn after_always_nobody_is_asked() {
    for grant in [r#"{"value":{"approved":true}}"#, r#"{"value":{}}"#] {
        let (r, host) = gate(vec![ret(SCOPE), ret(FAR), ret(grant)]);
        assert!(is_ready(&r));
        assert_eq!(host.asked().len(), 3);
    }
    let mut host = Host::new(vec![ret(r#"{"value":{"approved":false}}"#)]);
    assert_eq!(store_has_always("me", &mut host), Some(Ok(false)));
}

#[test]
fn tokens_differ_by_their_number() {
    let mut host = Host::new(vec![Reply::Count(1), Reply::Count(12)]);
    assert_eq!(new_token("a", "b", &mut host).unwrap(), "sc-a-b-1");
    assert_eq!(new_token("a", "b", &mut host).unwrap(), "sc-a-b-12");
}

#[test]
fn a_missing_answer_leaves_the_request() {
    let (r, host) = gate(vec![ret(SCOPE)]);
    assert!(r.is_none());
    assert_eq!(asked(&host).last().unwrap(), r#"ListSessions {"query":"t"}"#);
}

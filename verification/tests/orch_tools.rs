//! The tools of orchestrator brains.

use session_control::control::require_str;
use session_control::engine::watchdog_due;
use session_control::host::{Host, HostFn, Reply, Request};
use session_control::json::{Fields, Json, parse_json};
use session_control::orch_tools::{
    apply_report, assign_hat_tool, attribute_action, caller_orchestrator, caller_session,
    check_report, create_session_tool, hat_prompt, list_managed_sessions_tool, now, opt_str,
    orchestrator_report_tool, update_goal_status_tool, watch_session_tool,
};
use session_control::records::{HatAssignment, Orchestrator};
use session_control::state::BUSY_MSG;

#[test]
fn hat_prompt_names_hat_and_scope() {
    let p = hat_prompt("QA", "test everything");
    assert!(p.contains("\"QA\" hat"));
    assert!(p.contains("test everything"));
    assert!(p.contains("Stay inside this scope"));
}

#[test]
fn require_str_rejects_blank() {
    let blank = Fields::new().with("state", Json::text(" ")).done();
    assert!(require_str(&blank, "state").is_err());
    let done = Fields::new().with("state", Json::text("done")).done();
    assert_eq!(require_str(&done, "state").unwrap(), "done");
}

const NOW: &str = "2026-08-29T10:00:00Z";

fn j(text: &str) -> Json {
    parse_json(text).unwrap()
}

fn ret(text: &str) -> Reply {
    Reply::Returned(j(text))
}

fn names(host: &Host) -> Vec<String> {
    host.asked()
        .iter()
        .map(|q| match q {
            Request::Call(f, _) => format!("{f:?}"),
            other => format!("{other:?}").split('(').next().unwrap().to_string(),
        })
        .collect()
}

fn clock() -> Reply {
    ret(&format!(r#"{{"value":{{"now":"{NOW}"}}}}"#))
}

/// An orchestrator whose brain is the session `me`.
fn mine() -> Orchestrator {
    let mut o = Orchestrator::new("o1", "N", "f");
    o.session_id = Some("me".into());
    o
}

/// The answers that lead from the lease to the caller's orchestrator.
fn from_brain(o: Orchestrator) -> Vec<Reply> {
    vec![
        ret(r#"{"session_id":"me"}"#),
        ret(r#"{"items":[{"key":"o0","value":0},{"key":"o1","value":1}]}"#),
        Reply::Record(Some(Orchestrator::new("o0", "other", "f"))),
        Reply::Record(Some(o)),
    ]
}

fn leased(o: Orchestrator, rest: Vec<Reply>) -> Host {
    let mut replies = vec![Reply::Lease(true)];
    replies.extend(from_brain(o));
    replies.extend(rest);
    Host::new(replies)
}

/// The record that was stored last.
fn stored(host: &Host) -> Json {
    host.asked()
        .iter()
        .rev()
        .find_map(|q| match q {
            Request::Call(HostFn::StorePut, input) => Some(input.get("data").unwrap().clone()),
            _ => None,
        })
        .unwrap()
}

fn feed(doc: &Json) -> (String, String) {
    let last = doc.array_at("log").unwrap().last().unwrap();
    (last.text_at("kind").unwrap().into(), last.text_at("detail").unwrap().into())
}

#[test]
fn a_created_session_is_recorded() {
    let mut host = leased(mine(), vec![
        ret(r#"{"session":{"id":"s9"}}"#),
        clock(),
        ret("{}"),
        Reply::Released,
    ]);
    let args = j(r#"{"name":"Builder","hat":"QA","responsibilities":"test"}"#);
    let r = create_session_tool(&args, &mut host).unwrap().unwrap();
    assert_eq!(r.to_text(), r#"{"ok":true,"session_id":"s9","watched":true}"#);
    let Request::Call(HostFn::CreateSession, input) = &host.asked()[5] else { panic!() };
    assert_eq!(input.text_at("name"), Some("Builder"));
    assert_eq!(input.get("model").unwrap().to_text(), "null");
    assert_eq!(input.text_at("system_prompt"), Some(hat_prompt("QA", "test").as_str()));
    let doc = stored(&host);
    assert_eq!(doc.get("created_sessions").unwrap().to_text(), r#"["s9"]"#);
    assert_eq!(doc.get("stats").unwrap().u64_at("sessions_created"), Some(1));
    assert_eq!(doc.get("stats").unwrap().u64_at("actions"), Some(1));
    assert_eq!(
        doc.get("hats").unwrap().to_text(),
        format!(r#"{{"s9":{{"assigned_at":"{NOW}","hat":"QA","responsibilities":"test"}}}}"#)
    );
    assert_eq!(
        feed(&doc),
        (
            "created_session".into(),
            "created session \"Builder\" (s9) wearing hat \"QA\"".into()
        )
    );
}

#[test]
fn a_session_of_no_brain_is_only_created() {
    let mut host = Host::new(vec![
        Reply::Lease(true),
        ret("{}"),
        ret(r#"{"session":{"id":"s9"}}"#),
        Reply::Released,
    ]);
    let r = create_session_tool(&j(r#"{"name":"B"}"#), &mut host).unwrap().unwrap();
    assert_eq!(r.to_text(), r#"{"ok":true,"session_id":"s9","watched":false}"#);
    assert_eq!(names(&host), ["AcquireLease", "CallerScope", "CreateSession", "ReleaseLease"]);
}

#[test]
fn the_session_cap_holds() {
    let mut o = mine();
    o.stats.sessions_created = 10;
    let mut host = leased(o, vec![Reply::Released]);
    let r = create_session_tool(&j(r#"{"name":"B"}"#), &mut host);
    assert_eq!(
        r.unwrap().unwrap_err(),
        "session cap reached (10 of max_sessions_created=10) — raise the cap on the \
Orchestrators page if more are truly needed"
    );
    assert!(!names(&host).contains(&"CreateSession".to_string()));
    assert_eq!(names(&host).last().unwrap(), "ReleaseLease");
}

#[test]
fn an_unwatched_creation_is_not_watched() {
    let mut o = mine();
    o.watch.auto_watch_created = false;
    let mut host = leased(o, vec![
        ret(r#"{"session":{"id":"s9"}}"#),
        clock(),
        ret("{}"),
        Reply::Released,
    ]);
    assert!(create_session_tool(&j(r#"{"name":"B"}"#), &mut host).unwrap().is_ok());
    assert_eq!(stored(&host).get("created_sessions").unwrap().to_text(), "[]");
    let mut host = leased(mine(), vec![ret("{}"), Reply::Released]);
    assert_eq!(
        create_session_tool(&j(r#"{"name":"B"}"#), &mut host).unwrap().unwrap_err(),
        "create_session returned no session id"
    );
}

#[test]
fn a_contended_lease_is_refused() {
    let refused = Some(BUSY_MSG.to_string());
    let busy = || Host::new(vec![Reply::Lease(false)]);
    let err = |r: Option<Result<Json, String>>| r.unwrap().err();
    assert_eq!(err(create_session_tool(&j(r#"{"name":"B"}"#), &mut busy())), refused);
    assert_eq!(err(watch_session_tool(&j(r#"{"session_id":"s"}"#), true, &mut busy())), refused);
    assert_eq!(err(orchestrator_report_tool(&j(r#"{"summary":"x"}"#), &mut busy())), refused);
    assert_eq!(err(update_goal_status_tool(&j(r#"{"state":"done"}"#), &mut busy())), refused);
    let mut host = Host::new(vec![ret("{}"), Reply::Lease(false)]);
    let args = j(r#"{"session_id":"s","hat":"h","responsibilities":"r"}"#);
    assert_eq!(err(assign_hat_tool(&args, &mut host)), refused);
}

#[test]
fn a_hat_is_written_and_recorded() {
    let mut replies = vec![ret("{}"), Reply::Lease(true)];
    replies.extend(from_brain(mine()));
    replies.extend([clock(), ret("{}"), Reply::Released]);
    let mut host = Host::new(replies);
    let args = j(r#"{"session_id":"s1","hat":"QA","responsibilities":"test"}"#);
    let r = assign_hat_tool(&args, &mut host).unwrap().unwrap();
    assert_eq!(r.to_text(), r#"{"hat":"QA","ok":true,"session_id":"s1"}"#);
    let Request::Call(HostFn::OrchestrateSetPrompt, input) = &host.asked()[0] else { panic!() };
    assert_eq!(input.text_at("system_prompt"), Some(hat_prompt("QA", "test").as_str()));
    let doc = stored(&host);
    assert_eq!(feed(&doc), ("hat_assigned".into(), "hat \"QA\" → session s1".into()));
    assert_eq!(doc.get("hats").unwrap().get("s1").unwrap().text_at("hat"), Some("QA"));
    let mut host = Host::new(vec![Reply::Refused("gone".into())]);
    assert_eq!(assign_hat_tool(&args, &mut host).unwrap().unwrap_err(), "gone");
}

#[test]
fn watching_and_unwatching_change_the_list() {
    let mut o = mine();
    o.watch.sessions.push("s0".into());
    let mut host = leased(o, vec![clock(), ret("{}"), Reply::Released]);
    let args = j(r#"{"session_id":"s1"}"#);
    let r = watch_session_tool(&args, true, &mut host).unwrap().unwrap();
    assert_eq!(r.to_text(), r#"{"ok":true,"session_id":"s1","watching":true}"#);
    let doc = stored(&host);
    assert_eq!(doc.get("watch").unwrap().get("sessions").unwrap().to_text(), r#"["s0","s1"]"#);
    assert_eq!(feed(&doc), ("watch_changed".into(), "now watching s1".into()));
    let mut o = mine();
    o.watch.sessions = vec!["s1".into(), "s0".into(), "s1".into()];
    o.created_sessions = vec!["s1".into()];
    let mut host = leased(o, vec![clock(), ret("{}"), Reply::Released]);
    assert!(watch_session_tool(&args, false, &mut host).unwrap().is_ok());
    let doc = stored(&host);
    assert_eq!(doc.get("watch").unwrap().get("sessions").unwrap().to_text(), r#"["s0"]"#);
    assert_eq!(doc.get("created_sessions").unwrap().to_text(), "[]");
    assert_eq!(feed(&doc).1, "stopped watching s1");
}

#[test]
fn watching_twice_watches_once() {
    let mut o = mine();
    o.watch.sessions.push("s1".into());
    let mut host = leased(o, vec![clock(), ret("{}"), Reply::Released]);
    assert!(watch_session_tool(&j(r#"{"session_id":"s1"}"#), true, &mut host).unwrap().is_ok());
    let doc = stored(&host);
    assert_eq!(doc.get("watch").unwrap().get("sessions").unwrap().to_text(), r#"["s1"]"#);
}

#[test]
fn tools_for_brains_refuse_others() {
    let other = || {
        Host::new(vec![
            Reply::Lease(true),
            ret(r#"{"session_id":"you"}"#),
            ret(r#"{"items":[]}"#),
            Reply::Released,
        ])
    };
    let refusal = "this tool is for orchestrator brain sessions; the calling session is not one";
    let r = watch_session_tool(&j(r#"{"session_id":"s1"}"#), true, &mut other());
    assert_eq!(r.unwrap().unwrap_err(), refusal);
    let r = orchestrator_report_tool(&j(r#"{"summary":"x"}"#), &mut other());
    assert_eq!(r.unwrap().unwrap_err(), refusal);
    let r = update_goal_status_tool(&j(r#"{"state":"done"}"#), &mut other());
    assert_eq!(r.unwrap().unwrap_err(), refusal);
    let mut host = Host::new(vec![ret("{}")]);
    let r = list_managed_sessions_tool(&Json::Null, &mut host);
    assert_eq!(r.unwrap().unwrap_err(), refusal);
}

#[test]
fn managed_sessions_are_listed() {
    let mut o = mine();
    o.watch.sessions = vec!["s1".into(), "s1".into(), "s2".into()];
    o.created_sessions = vec!["s2".into(), "s1".into()];
    o.put_hat("s1", HatAssignment {
        hat: "QA".into(),
        responsibilities: "test".into(),
        assigned_at: NOW.into(),
    });
    let mut replies = from_brain(o);
    let busy = format!(r#"{{"value":{{"busy":true,"since":"{NOW}"}}}}"#);
    replies.extend([
        clock(),
        ret(r#"{"sessions":[{"session_id":"s1","name":"A","folder_id":"f"}]}"#),
        ret(&busy),
        ret("{}"),
        ret("{}"),
    ]);
    let mut host = Host::new(replies);
    let r = list_managed_sessions_tool(&Json::Null, &mut host).unwrap().unwrap();
    let rows = r.array_at("sessions").unwrap();
    // Repetitions in a row are one.
    let ids: Vec<&str> = rows.iter().map(|s| s.text_at("session_id").unwrap()).collect();
    assert_eq!(ids, ["s1", "s2", "s1"]);
    assert_eq!(
        rows[0].to_text(),
        [
            r#"{"busy":true,"created_by_orchestrator":true,"exists":true,"folder_id":"f","#,
            r#""hat":{"hat":"QA","responsibilities":"test"},"name":"A","session_id":"s1"}"#,
        ]
        .concat()
    );
    assert_eq!(
        rows[1].to_text(),
        [
            r#"{"busy":false,"created_by_orchestrator":true,"exists":false,"folder_id":null,"#,
            r#""hat":null,"name":null,"session_id":"s2"}"#,
        ]
        .concat()
    );
    assert_eq!(r.get("goal_status").unwrap().text_at("state"), Some("in_progress"));
}

#[test]
fn reports_are_validated() {
    let err = |text: &str| check_report(&j(text)).err().unwrap();
    assert_eq!(err("{}"), "'state' is required");
    assert_eq!(err(r#"{"state":"busy"}"#), "'state' must be one of: in_progress, blocked, done");
    assert_eq!(
        err(r#"{"state":"blocked"}"#),
        "'eta_minutes' is required while the goal is not done — your current estimate of minutes \
until the entire requirements are implemented"
    );
    let r = check_report(&j(r#"{"state":"done","percent":250,"note":" "}"#)).unwrap();
    assert_eq!((r.eta_minutes, r.percent, r.note.as_str()), (0, Some(100), ""));
    let r = check_report(&j(r#"{"state":"in_progress","eta_minutes":5,"percent":-1}"#)).unwrap();
    assert_eq!((r.eta_minutes, r.percent), (5, None));
}

#[test]
fn a_report_is_recorded() {
    let mut host = leased(mine(), vec![clock(), ret("{}"), Reply::Released]);
    let args = j(r#"{"state":"in_progress","eta_minutes":90,"percent":40,"note":"going"}"#);
    let r = update_goal_status_tool(&args, &mut host).unwrap().unwrap();
    assert_eq!(r.to_text(), r#"{"eta_minutes":90,"ok":true,"state":"in_progress"}"#);
    let doc = stored(&host);
    assert_eq!(
        doc.get("goal_status").unwrap().to_text(),
        [
            r#"{"eta":{"minutes_remaining":90,"projected_at":"2026-08-29T11:30:00+00:00","#,
            r#""updated_at":"2026-08-29T10:00:00Z"},"note":"going","percent":40,"#,
            r#""state":"in_progress","updated_at":"2026-08-29T10:00:00Z"}"#,
        ]
        .concat()
    );
    assert_eq!(
        doc.get("eta_history").unwrap().to_text(),
        format!(r#"[{{"minutes_remaining":90,"percent":40,"ts":"{NOW}"}}]"#)
    );
    assert_eq!(
        feed(&doc),
        ("goal_update".into(), "state=in_progress 40% eta=90min — going".into())
    );
}

#[test]
fn done_stops_the_watchdog() {
    let mut host = leased(mine(), vec![clock(), ret("{}"), Reply::Released]);
    assert!(update_goal_status_tool(&j(r#"{"state":"done"}"#), &mut host).unwrap().is_ok());
    assert_eq!(feed(&stored(&host)).1, "state=done eta=0min");
    let mut o = mine();
    let report = check_report(&j(r#"{"state":"done"}"#)).unwrap();
    apply_report(&mut o, &report, NOW.into(), NOW);
    assert_eq!(watchdog_due(&o, NOW, &mut Host::new(Vec::new())), Some(false));
}

#[test]
fn an_estimate_beyond_all_time_gives_up() {
    let mut host = leased(mine(), vec![clock()]);
    let args = j(r#"{"state":"blocked","eta_minutes":9000000000000000000}"#);
    assert!(update_goal_status_tool(&args, &mut host).is_none());
    assert_eq!(names(&host).last().unwrap(), "Abort");
}

#[test]
fn a_summary_is_a_line_in_the_feed() {
    // Before the first tick the epoch stands in for the clock.
    let mut host = leased(mine(), vec![ret("{}"), ret("{}"), Reply::Released]);
    let r = orchestrator_report_tool(&j(r#"{"summary":"did it"}"#), &mut host);
    assert_eq!(r.unwrap().unwrap().to_text(), r#"{"ok":true}"#);
    let doc = stored(&host);
    assert_eq!(feed(&doc), ("report".into(), "did it".into()));
    let ts = doc.array_at("log").unwrap()[0].text_at("ts").unwrap().to_string();
    assert_eq!(ts, "1970-01-01T00:00:00Z");
}

#[test]
fn actions_are_attributed_to_the_brain() {
    let mut host = leased(mine(), vec![clock(), Reply::Refused("full".into()), Reply::Released]);
    assert_eq!(attribute_action("send_message", Some("s1"), &mut host), Some(()));
    assert_eq!(feed(&stored(&host)), ("tool_call".into(), "send_message → s1".into()));
    let mut host = leased(mine(), vec![clock(), ret("{}"), Reply::Released]);
    assert_eq!(attribute_action("clear_session", None, &mut host), Some(()));
    assert_eq!(feed(&stored(&host)).1, "clear_session");
    assert_eq!(attribute_action("x", None, &mut Host::new(vec![Reply::Lease(false)])), Some(()));
    let mut host = Host::new(vec![Reply::Lease(true), Reply::Refused("x".into()), Reply::Released]);
    assert_eq!(attribute_action("x", None, &mut host), Some(()));
}

#[test]
fn the_caller_is_who_the_host_says() {
    let mut host = Host::new(vec![ret(r#"{"session_id":""}"#)]);
    assert_eq!(caller_session(&mut host), Some(Ok(None)));
    let mut host = Host::new(from_brain(mine()));
    assert_eq!(caller_orchestrator(&mut host).unwrap().unwrap().unwrap().id, "o1");
    assert_eq!(now(&mut Host::new(vec![clock()])).unwrap(), NOW);
    assert_eq!(opt_str(&j(r#"{"a":" ","b":"x"}"#), "a"), None);
    assert_eq!(opt_str(&j(r#"{"a":" ","b":"x"}"#), "b").as_deref(), Some("x"));
}

//! The management page and its routes.

use session_control::engine::standing_prompt;
use session_control::host::{Host, HostFn, Reply, Request};
use session_control::json::{Fields, Items, Json, parse_json};
use session_control::page::{
    PAGE_PATH, apply_fields, create, new_id, serve_authed, serve_public, serve_route, show,
};
use session_control::page_html::page_html;
use session_control::records::Orchestrator;

#[test]
fn apply_fields_validates_and_sets() {
    let mut o = Orchestrator::new("o", "n", "f");
    let blank = Fields::new().with("name", Json::text("  ")).done();
    assert!(apply_fields(&mut o, &blank).is_err());
    let standards = Fields::new()
        .with("ux", Json::Bool(false))
        .with("custom", Json::text("no TODOs"))
        .done();
    let watch = Items::new().with(Json::text("s1")).with(Json::text("s2")).done();
    let body = Fields::new()
        .with("name", Json::text("Ship"))
        .with("goal", Json::text("G"))
        .with("every_minutes", Json::uint(30))
        .with("standards", standards)
        .with("watch_sessions", watch)
        .with("max_fires_per_hour", Json::uint(0))
        .done();
    apply_fields(&mut o, &body).unwrap();
    assert_eq!(o.name, "Ship");
    assert_eq!(o.schedule.every_minutes, Some(30));
    assert!(!o.standards.ux);
    assert_eq!(o.standards.custom, "no TODOs");
    assert_eq!(o.watch.sessions, vec!["s1", "s2"]);
    assert_eq!(o.caps.max_fires_per_hour, 1, "cap floors at 1");
}

#[test]
fn the_fire_cap_floors_at_one_for_every_number() {
    let most = u32::MAX as u64;
    for (given, cap) in [
        (0, 1),
        (1, 1),
        (7, 7),
        (most, u32::MAX),
        (most + 1, u32::MAX),
        (2 * (most + 1), u32::MAX),
        (u64::MAX, u32::MAX),
    ] {
        let mut o = Orchestrator::new("o", "n", "f");
        let body = Fields::new().with("max_fires_per_hour", Json::uint(given)).done();
        apply_fields(&mut o, &body).unwrap();
        assert_eq!(o.caps.max_fires_per_hour, cap, "{given}");
    }
}

#[test]
fn page_html_has_bridge_and_testids() {
    let page = page_html();
    assert!(page.contains("plugin-ui-fetch"));
    assert!(page.contains("plugin-ui-fetch-result"));
    assert!(page.contains("data-testid=\"orch-preset\""));
    assert!(page.contains("PROJECT_DEFINITION.md"));
    assert!(page.contains("data-testid=\"orch-card\""));
    assert!(page.contains("data-testid=\"orch-actions\""));
    assert!(page.contains("data-testid=\"orch-eta\""));
    assert!(page.contains("/api/plugin-ui/session-control"));
}

const NOW: &str = "2026-08-29T10:00:00Z";

fn j(text: &str) -> Json {
    parse_json(text).unwrap()
}

fn ret(text: &str) -> Reply {
    Reply::Returned(j(text))
}

fn clock() -> Reply {
    ret(&format!(r#"{{"value":{{"now":"{NOW}"}}}}"#))
}

fn names(host: &Host) -> Vec<String> {
    host.asked()
        .iter()
        .map(|q| match q {
            Request::Call(f, _) => format!("{f:?}"),
            other => format!("{other:?}").split('(').next().unwrap().to_string(),
        })
        .collect()
}

/// Status and body of what a route responds.
fn call(method: &str, path: &str, body: &str, host: &mut Host) -> (u64, String) {
    let path = format!("/api/plugin-ui/session-control{path}");
    let r = serve_route(method, &path, &j(body), host).unwrap().unwrap();
    let headers = r.get("headers").unwrap();
    assert_eq!(headers.text_at("content-type"), Some("application/json"));
    (r.u64_at("status").unwrap(), r.text_at("body").unwrap().to_string())
}

fn ok(text: &str) -> (u64, String) {
    (200, text.to_string())
}

fn refused(message: &str) -> (u64, String) {
    (400, format!(r#"{{"error":"{message}"}}"#))
}

fn o1() -> Orchestrator {
    let mut o = Orchestrator::new("o1", "N", "f");
    o.session_id = Some("b".into());
    o
}

fn loaded(o: Orchestrator) -> Vec<Reply> {
    vec![Reply::Lease(true), ret(r#"{"value":{"id":"o1"}}"#), Reply::Record(Some(o))]
}

// ── The page ──────────────────────────────────────────────────────────

#[test]
fn the_page_is_served_on_its_path() {
    let r = serve_public(&j(&format!(r#"{{"path":"{PAGE_PATH}"}}"#))).unwrap();
    assert_eq!(r.u64_at("status"), Some(200));
    assert_eq!(r.text_at("body"), Some(page_html().as_str()));
    for other in [r#"{"path":"/"}"#, "{}", "null"] {
        let r = serve_public(&j(other)).unwrap();
        assert_eq!(r.u64_at("status"), Some(404));
        assert_eq!(r.text_at("body"), Some("<!doctype html><h1>404</h1>"));
    }
}

#[test]
fn the_page_is_whole() {
    let page = page_html();
    assert!(page.starts_with("<!doctype html>\n<html>"));
    assert!(page.ends_with("</script>\n</body>\n</html>\n"));
    assert_eq!(page.matches("<script>").count(), 1);
}

// ── Editing ───────────────────────────────────────────────────────────

#[test]
fn what_the_body_leaves_out_stays() {
    let mut o = o1();
    o.model = Some("m".into());
    o.stats.next_due_at = Some(NOW.into());
    apply_fields(&mut o, &j("{}")).unwrap();
    assert_eq!(o.model.as_deref(), Some("m"));
    assert_eq!(o.stats.next_due_at.as_deref(), Some(NOW));
    apply_fields(&mut o, &j(r#"{"model":"","every_minutes":0,"watch_folders":["a",1,"b"]}"#)).unwrap();
    assert_eq!(o.model, None);
    assert_eq!(o.schedule.every_minutes, None);
    assert_eq!(o.stats.next_due_at, None);
    assert_eq!(o.watch.folders, ["a", "b"]);
}

#[test]
fn switching_on_forgets_failures() {
    let mut o = o1();
    o.enabled = false;
    o.consecutive_failures = 3;
    o.error = Some("boom".into());
    apply_fields(&mut o, &j(r#"{"enabled":true}"#)).unwrap();
    assert!(o.enabled && o.consecutive_failures == 0 && o.error.is_none());
    o.consecutive_failures = 2;
    apply_fields(&mut o, &j(r#"{"enabled":false}"#)).unwrap();
    assert!(!o.enabled && o.consecutive_failures == 2);
}

#[test]
fn blank_names_and_folders_are_refused() {
    let mut o = o1();
    assert_eq!(apply_fields(&mut o, &j(r#"{"name":""}"#)), Err("name must not be blank".into()));
    let body = j(r#"{"name":" New ","folder_id":"\t"}"#);
    assert_eq!(apply_fields(&mut o, &body), Err("folder_id must not be blank".into()));
    // What stands before the refusal has been set.
    assert_eq!((o.name.as_str(), o.folder_id.as_str()), ("New", "f"));
}

#[test]
fn the_same_edit_twice_is_one() {
    let body = j(r#"{"name":" A ","folder_id":" g ","model":"m","every_minutes":5,
        "watchdog_minutes":1,"cooldown_secs":2,"max_fires_per_hour":3,"max_sessions_created":4,
        "auto_watch_created":false,"standards":{"dev":false,"testing":false,"custom":"c"}}"#);
    let mut once = o1();
    apply_fields(&mut once, &body).unwrap();
    let mut twice = once.clone();
    apply_fields(&mut twice, &body).unwrap();
    assert_eq!(once.to_json().to_text(), twice.to_json().to_text());
    assert_eq!((once.name.as_str(), once.folder_id.as_str()), ("A", "g"));
    assert_eq!((once.watchdog_minutes, once.cooldown_secs), (1, 2));
    assert_eq!((once.caps.max_fires_per_hour, once.caps.max_sessions_created), (3, 4));
    assert!(!once.watch.auto_watch_created && !once.standards.dev && once.standards.ux);
}

// ── Routes ────────────────────────────────────────────────────────────

#[test]
fn records_are_listed_with_their_liveness() {
    let busy = format!(r#"{{"value":{{"busy":true,"since":"{NOW}"}}}}"#);
    let mut host = Host::new(vec![
        clock(),
        ret(r#"{"items":[{"key":"o1","value":{}}]}"#),
        Reply::Record(Some(o1())),
        ret(&busy),
        ret("{}"),
    ]);
    let (status, body) = call("GET", "/orchestrators", "null", &mut host);
    assert_eq!(status, 200);
    let doc = j(&body);
    assert_eq!(doc.text_at("clock"), Some(NOW));
    assert_eq!(doc.bool_at("global_paused"), Some(false));
    let shown = &doc.array_at("orchestrators").unwrap()[0];
    assert_eq!(shown.bool_at("brain_busy"), Some(true));
    assert_eq!(shown.to_text(), show(&o1(), true).to_text());
}

#[test]
fn before_the_first_tick_no_brain_is_busy() {
    let mut host = Host::new(vec![
        ret("{}"),
        ret(r#"{"items":[{"key":"o1","value":{}}]}"#),
        Reply::Record(Some(o1())),
        ret(r#"{"value":{"paused":true}}"#),
    ]);
    let (_, body) = call("GET", "/orchestrators", "null", &mut host);
    assert_eq!(j(&body).array_at("orchestrators").unwrap()[0].bool_at("brain_busy"), Some(false));
    assert_eq!(j(&body).bool_at("global_paused"), Some(true));
}

#[test]
fn a_record_is_created_under_a_free_id() {
    let mut host = Host::new(vec![
        clock(),
        Reply::Lease(true),
        Reply::Count(1),
        clock(),
        ret(r#"{"value":{}}"#),
        Reply::Record(Some(o1())),
        Reply::Count(2),
        clock(),
        ret("{}"),
        ret("{}"),
        Reply::Released,
    ]);
    let r = call("POST", "/orchestrators", r#"{"name":"A","folder_id":"f"}"#, &mut host);
    assert_eq!(r, ok(r#"{"id":"orch-20260829100000-2","ok":true}"#));
    let Request::Call(HostFn::StorePut, input) = &host.asked()[9] else { panic!() };
    let doc = input.get("data").unwrap();
    assert_eq!(doc.text_at("id"), Some("orch-20260829100000-2"));
    assert_eq!(doc.text_at("created_at"), Some(NOW));
    let log = doc.array_at("log").unwrap();
    assert_eq!(log[0].text_at("detail"), Some("orchestrator created"));
}

#[test]
fn a_record_needs_name_and_folder() {
    let err = |body: &str| create("id", NOW, &j(body)).err().unwrap();
    assert_eq!(err("{}"), "name is required");
    assert_eq!(err(r#"{"name":"A"}"#), "folder_id is required");
    assert_eq!(err(r#"{"name":" "}"#), "name must not be blank");
    assert_eq!(err(r#"{"name":"A","folder_id":" "}"#), "folder_id must not be blank");
    let mut host = Host::new(vec![
        clock(),
        Reply::Lease(true),
        Reply::Count(1),
        clock(),
        ret("{}"),
        Reply::Released,
    ]);
    assert_eq!(call("POST", "/orchestrators", "{}", &mut host), refused("name is required"));
    assert_eq!(names(&host).last().unwrap(), "ReleaseLease");
}

#[test]
fn ids_carry_clock_and_number() {
    let mut host = Host::new(vec![Reply::Count(3), ret("{}"), Reply::Count(4), clock()]);
    assert_eq!(new_id(&mut host).unwrap(), "orch--3");
    assert_eq!(new_id(&mut host).unwrap(), "orch-20260829100000-4");
}

#[test]
fn an_edit_reaches_the_brain() {
    let mut replies = loaded(o1());
    replies.extend([ret("{}"), Reply::Refused("gone".into()), Reply::Released]);
    let mut host = Host::new(replies);
    let r = call("POST", "/orchestrators/o1", r#"{"goal":"G"}"#, &mut host);
    assert_eq!(r, ok(r#"{"ok":true}"#));
    let Request::Call(HostFn::OrchestrateSetPrompt, input) = &host.asked()[4] else { panic!() };
    let mut edited = o1();
    edited.goal = "G".into();
    assert_eq!(input.text_at("system_prompt"), Some(standing_prompt(&edited).as_str()));
    assert_eq!(input.text_at("session_id"), Some("b"));
}

#[test]
fn a_refused_edit_is_not_stored() {
    let mut replies = loaded(o1());
    replies.push(Reply::Released);
    let mut host = Host::new(replies);
    let r = call("POST", "/orchestrators/o1", r#"{"name":""}"#, &mut host);
    assert_eq!(r, refused("name must not be blank"));
    assert!(!names(&host).contains(&"StorePut".to_string()));
    let mut host = Host::new(vec![Reply::Lease(true), ret("{}"), Reply::Released]);
    let r = call("POST", "/orchestrators/zz", "{}", &mut host);
    assert_eq!(r, refused("orchestrator not found: zz"));
}

#[test]
fn a_record_is_deleted() {
    let mut host = Host::new(vec![Reply::Lease(true), Reply::Refused("x".into()), Reply::Released]);
    let r = call("POST", "/orchestrators/o1/delete", "null", &mut host);
    assert_eq!(r, ok(r#"{"ok":true}"#));
    let Request::Call(HostFn::StoreDelete, input) = &host.asked()[1] else { panic!() };
    assert_eq!(input.to_text(), r#"{"collection":"orchestrators","key":"o1"}"#);
}

#[test]
fn pausing_sets_or_toggles() {
    for (body, before, after) in [
        ("null", false, true),
        ("null", true, false),
        (r#"{"paused":true}"#, true, true),
        (r#"{"paused":false}"#, false, false),
    ] {
        let mut o = o1();
        o.paused = before;
        let mut replies = loaded(o);
        replies.extend([ret("{}"), Reply::Released]);
        let mut host = Host::new(replies);
        let r = call("POST", "/orchestrators/o1/pause", body, &mut host);
        assert_eq!(r, ok(&format!(r#"{{"ok":true,"paused":{after}}}"#)));
        let Request::Call(HostFn::StorePut, input) = &host.asked()[3] else { panic!() };
        assert_eq!(input.get("data").unwrap().bool_at("paused"), Some(after));
    }
}

#[test]
fn everything_is_paused_and_resumed() {
    for (body, paused) in [("null", true), (r#"{"paused":false}"#, false)] {
        let mut host = Host::new(vec![ret("{}")]);
        let r = call("POST", "/pause-all", body, &mut host);
        assert_eq!(r, ok(&format!(r#"{{"ok":true,"paused":{paused}}}"#)));
    }
}

#[test]
fn a_failing_picker_is_an_empty_list() {
    let mut host = Host::new(vec![
        ret(r#"{"sessions":[1]}"#),
        Reply::Refused("no grant".into()),
        ret("{}"),
    ]);
    let r = call("GET", "/pickers", "null", &mut host);
    assert_eq!(r, ok(r#"{"folders":[],"models":[],"sessions":[1]}"#));
    assert_eq!(names(&host), ["ListSessions", "ListFolders", "ListModels"]);
}

#[test]
fn runs_and_dry_runs_are_routed() {
    let mut host = Host::new(vec![ret("{}")]);
    let r = call("POST", "/orchestrators/o1/run", "null", &mut host);
    assert_eq!(r, refused("no engine clock yet — wait for the first timer tick"));
    let mut host = Host::new(vec![
        ret(r#"{"value":{"now":"2026-08-29T10:00:00Z"}}"#),
        ret(r#"{"value":{"paused":true}}"#),
    ]);
    let r = call("POST", "/orchestrators/o1/run", "null", &mut host);
    assert_eq!(r, ok(r#"{"ok":true,"sent":false}"#));
    let mut host = Host::new(vec![
        ret("{}"),
        ret(r#"{"value":{}}"#),
        Reply::Record(Some(o1())),
    ]);
    let (status, body) = call("POST", "/orchestrators/o1/dry-run", "null", &mut host);
    assert_eq!(status, 200);
    assert!(j(&body).text_at("rendered_prompt").unwrap().starts_with("Trigger: dry-run."));
}

#[test]
fn other_routes_are_not_found() {
    let not_found = (404, r#"{"error":"no such route"}"#.to_string());
    for (method, path) in [
        ("GET", ""),
        ("GET", "/orchestrators/o1"),
        ("PUT", "/orchestrators"),
        ("POST", "/pickers"),
        ("GET", "/pause-all"),
        ("POST", "/orchestrators/o1/explode"),
        ("POST", "/orchestrators/o1/pause/now"),
        ("POST", "/other/o1"),
    ] {
        let mut host = Host::new(Vec::new());
        assert_eq!(call(method, path, "null", &mut host), not_found, "{method} {path}");
        assert!(host.asked().is_empty());
    }
}

#[test]
fn a_contended_lease_is_a_bad_request() {
    let busy = refused(session_control::state::BUSY_MSG);
    for path in ["/orchestrators/o1", "/orchestrators/o1/delete", "/orchestrators/o1/pause"] {
        let mut host = Host::new(vec![Reply::Lease(false)]);
        assert_eq!(call("POST", path, "null", &mut host), busy);
    }
    let mut host = Host::new(vec![clock(), Reply::Lease(false)]);
    assert_eq!(call("POST", "/orchestrators", "null", &mut host), busy);
}

#[test]
fn requests_are_read_from_their_payload() {
    // The method is taken in any case, and is GET where there is none.
    for payload in [
        r#"{"method":"get","path":"/api/plugin-ui/session-control/pickers"}"#,
        r#"{"path":"/api/plugin-ui/session-control//pickers/"}"#,
    ] {
        let mut host = Host::new(vec![ret("{}"), ret("{}"), ret("{}")]);
        let r = serve_authed(&j(payload), &mut host).unwrap().unwrap();
        assert_eq!(r.u64_at("status"), Some(200), "{payload}");
    }
    // The body is the document that its text is, or null.
    for (body, paused) in [(r#"{\"paused\":false}"#, false), ("oops", true)] {
        let payload = format!(
            r#"{{"method":"post","path":"/api/plugin-ui/session-control/pause-all","body":"{body}"}}"#
        );
        let mut host = Host::new(vec![ret("{}")]);
        serve_authed(&j(&payload), &mut host).unwrap().unwrap();
        let Request::Call(HostFn::StorePut, input) = &host.asked()[0] else { panic!() };
        assert_eq!(input.get("data").unwrap().bool_at("paused"), Some(paused));
    }
    let r = serve_authed(&Json::Null, &mut Host::new(Vec::new())).unwrap().unwrap();
    assert_eq!(r.u64_at("status"), Some(404));
}

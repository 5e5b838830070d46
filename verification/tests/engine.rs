//! The trigger engine.

use session_control::engine::{
    PENDING_CAP, Trigger, brain_is_idle, dry_run, fire, fire_detail, in_cooldown, on_agent_ended,
    on_message_before, on_timer_tick, over_fire_cap, push_eta_history, queue_pending,
    record_failure, render, render_prompt, run_now, schedule_due, session_folder, standards_text,
    standing_prompt, watchdog_due,
};
use session_control::host::{Host, Reply, Request};
use session_control::json::{Json, parse_json};
use session_control::records::{ETA_HISTORY_CAP, Eta, Orchestrator};

fn orch() -> Orchestrator {
    let mut o = Orchestrator::new("o1", "Ship v2", "f1");
    o.goal = "Build the widget".into();
    o
}

/// A host that is not asked anything.
fn silent() -> Host {
    Host::new(Vec::new())
}

#[test]
fn schedule_due_never_scheduled_is_due() {
    let mut o = orch();
    o.schedule.every_minutes = Some(30);
    assert!(schedule_due(&o, "2026-08-29T10:00:00Z"));
    o.stats.next_due_at = Some("2026-08-29T10:30:00Z".into());
    assert!(!schedule_due(&o, "2026-08-29T10:29:00Z"));
    assert!(schedule_due(&o, "2026-08-29T10:30:00Z"));
}

#[test]
fn no_schedule_is_never_due() {
    let o = orch();
    assert!(!schedule_due(&o, "2026-08-29T10:00:00Z"));
}

#[test]
fn watchdog_stops_at_done_and_respects_window() {
    let mut o = orch();
    // Never fired: due (initial engagement).
    assert_eq!(watchdog_due(&o, "2026-08-29T10:00:00Z", &mut silent()), Some(true));
    o.stats.last_fired_at = Some("2026-08-29T10:00:00Z".into());
    // 10 of 15 minutes.
    assert_eq!(watchdog_due(&o, "2026-08-29T10:10:00Z", &mut silent()), Some(false));
    o.goal_status.state = "done".into();
    assert_eq!(watchdog_due(&o, "2026-08-29T11:00:00Z", &mut silent()), Some(false));
    o.goal_status.state = "in_progress".into();
    o.watchdog_minutes = 0;
    // 0 disables.
    assert_eq!(watchdog_due(&o, "2026-08-29T11:00:00Z", &mut silent()), Some(false));
}

#[test]
fn cooldown_window_math() {
    let mut o = orch();
    assert!(!in_cooldown(&o, "2026-08-29T10:00:00Z"));
    o.stats.last_fired_at = Some("2026-08-29T10:00:00Z".into());
    assert!(in_cooldown(&o, "2026-08-29T10:00:30Z"));
    assert!(!in_cooldown(&o, "2026-08-29T10:01:00Z"));
}

#[test]
fn fire_cap_prunes_and_pauses() {
    let mut o = orch();
    o.caps.max_fires_per_hour = 2;
    o.stats.fire_times = vec![
        // Stale, pruned.
        "2026-08-29T08:00:00Z".into(),
        "2026-08-29T09:30:00Z".into(),
        "2026-08-29T09:45:00Z".into(),
    ];
    assert!(over_fire_cap(&mut o, "2026-08-29T10:00:00Z"));
    assert_eq!(o.stats.fire_times.len(), 2);
    o.caps.max_fires_per_hour = 3;
    assert!(!over_fire_cap(&mut o, "2026-08-29T10:00:00Z"));
}

#[test]
fn queue_pending_dedupes_by_session_and_caps() {
    let mut o = orch();
    let now = "2026-08-29T10:00:00Z";
    queue_pending(&mut o, Trigger::session_idle("s1", "A", "completed"), now);
    queue_pending(&mut o, Trigger::session_idle("s1", "A", "completed"), now);
    queue_pending(&mut o, Trigger::session_idle("s2", "B", "crashed"), now);
    assert_eq!(o.pending_triggers.len(), 2);
}

#[test]
fn render_prompt_substitutes_vars() {
    let mut o = orch();
    o.prompt = "T={{trigger}} G={{goal}} E={{eta}} P={{pending}}".into();
    let t = Trigger::session_idle("s1", "Builder", "completed");
    let out = render_prompt(&o, &t, "2026-08-29T10:00:00Z", &mut silent()).unwrap();
    assert!(out.contains("Builder"), "{out}");
    assert!(out.contains("G=Build the widget"), "{out}");
    assert!(out.contains("no estimate yet"), "{out}");
    assert!(out.contains("P=none"), "{out}");
}

#[test]
fn standing_prompt_carries_goal_rules_and_standards() {
    let o = orch();
    let sp = standing_prompt(&o);
    assert!(sp.contains("Build the widget"));
    assert!(sp.contains("update_goal_status"));
    assert!(sp.contains("eta_minutes"));
    assert!(sp.contains("Standards you must enforce"));
    assert!(sp.contains("ui-gauge"));
}

#[test]
fn standards_text_empty_when_all_off() {
    let mut o = orch();
    o.standards.dev = false;
    o.standards.testing = false;
    o.standards.ux = false;
    assert!(standards_text(&o).is_empty());
    o.standards.custom = "no unwrap()".into();
    assert!(standards_text(&o).contains("no unwrap()"));
}

#[test]
fn record_failure_backs_off_after_three() {
    let mut o = orch();
    let now = "2026-08-29T10:00:00Z";
    record_failure(&mut o, now, "boom");
    record_failure(&mut o, now, "boom");
    assert!(o.enabled);
    record_failure(&mut o, now, "boom");
    assert!(!o.enabled);
    assert_eq!(o.error.as_deref(), Some("boom"));
    assert!(o.log.iter().any(|e| e.kind == "backoff"));
}

#[test]
fn eta_history_caps() {
    let mut o = orch();
    for i in 0..(ETA_HISTORY_CAP + 5) {
        push_eta_history(&mut o, "2026-08-29T10:00:00Z", i as u64);
    }
    assert_eq!(o.eta_history.len(), ETA_HISTORY_CAP);
}

// ── Fires ─────────────────────────────────────────────────────────────

const NOW: &str = "2026-08-29T10:00:00Z";

fn j(text: &str) -> Json {
    parse_json(text).unwrap()
}

fn ret(text: &str) -> Reply {
    Reply::Returned(j(text))
}

fn asked(host: &Host) -> Vec<String> {
    host.asked()
        .iter()
        .map(|q| match q {
            Request::Call(f, input) => format!("{f:?} {}", input.to_text()),
            other => format!("{other:?}"),
        })
        .collect()
}

fn names(host: &Host) -> Vec<String> {
    asked(host).iter().map(|q| q.split([' ', '(']).next().unwrap().to_string()).collect()
}

/// An orchestrator whose brain exists.
fn awake() -> Orchestrator {
    let mut o = orch();
    o.session_id = Some("b".into());
    o
}

#[test]
fn the_first_fire_creates_the_brain() {
    let mut o = orch();
    o.model = Some("m".into());
    let mut host = Host::new(vec![
        ret(r#"{"session":{"id":"b1"}}"#),
        ret(r#"{"value":null}"#),
        ret("{}"),
        ret("{}"),
    ]);
    assert_eq!(fire(&mut o, Trigger::simple("manual"), NOW, &mut host), Some(true));
    assert_eq!(
        names(&host),
        ["OrchestrateCreateSession", "StoreGet", "OrchestrateSend", "StorePut"]
    );
    let Request::Call(_, input) = &host.asked()[0] else { panic!() };
    assert_eq!(input.text_at("folder_id"), Some("f1"));
    assert_eq!(input.text_at("name"), Some("Ship v2 (orchestrator)"));
    assert_eq!(input.text_at("model"), Some("m"));
    assert_eq!(input.text_at("system_prompt"), Some(standing_prompt(&orch()).as_str()));
    let Request::Call(_, input) = &host.asked()[2] else { panic!() };
    assert_eq!(input.text_at("session_id"), Some("b1"));
    assert_eq!(input.text_at("text"), Some(o.last_rendered_prompt.as_str()));
    assert_eq!(
        asked(&host)[3],
        format!(r#"StorePut {{"collection":"busy","data":{{"busy":true,"since":"{NOW}"}},"key":"b1"}}"#)
    );
    assert_eq!(o.session_id.as_deref(), Some("b1"));
    assert_eq!((o.stats.fires, o.stats.actions), (1, 1));
    assert_eq!(o.stats.last_fired_at.as_deref(), Some(NOW));
    assert_eq!(o.stats.fire_times, [NOW]);
    let kinds: Vec<&str> = o.log.iter().map(|e| e.kind.as_str()).collect();
    assert_eq!(kinds, ["created_session", "fired"]);
    assert_eq!(o.log[0].detail, "brain session created: b1");
    assert_eq!(o.log[1].detail, "trigger: manual");
}

#[test]
fn a_lost_brain_is_created_again() {
    let mut o = awake();
    let mut host = Host::new(vec![
        ret(r#"{"exists":false}"#),
        ret(r#"{"session":{"id":"b2"}}"#),
        ret("{}"),
        ret("{}"),
        ret("{}"),
    ]);
    assert_eq!(fire(&mut o, Trigger::simple("watchdog"), NOW, &mut host), Some(true));
    assert_eq!(o.session_id.as_deref(), Some("b2"));
    assert_eq!(o.log[0].detail, "brain session b is gone — recreating");
}

#[test]
fn a_failure_is_recorded_and_a_delivery_forgets_it() {
    let mut o = awake();
    let mut host = Host::new(vec![Reply::Refused("down".into())]);
    assert_eq!(fire(&mut o, Trigger::simple("schedule"), NOW, &mut host), Some(false));
    assert_eq!((o.consecutive_failures, o.error.as_deref()), (1, Some("down")));
    let mut host = Host::new(vec![ret(r#"{"exists":true}"#), ret("{}"), Reply::Refused("full".into())]);
    assert_eq!(fire(&mut o, Trigger::simple("schedule"), NOW, &mut host), Some(false));
    assert_eq!((o.consecutive_failures, o.error.as_deref()), (2, Some("full")));
    assert_eq!(o.stats.fires, 0);
    let mut host = Host::new(vec![ret(r#"{"exists":true}"#), ret("{}"), ret("{}"), ret("{}")]);
    assert_eq!(fire(&mut o, Trigger::simple("schedule"), NOW, &mut host), Some(true));
    assert_eq!((o.consecutive_failures, o.error.as_deref()), (0, None));
    let mut o = orch();
    let mut host = Host::new(vec![ret(r#"{"session":{}}"#)]);
    assert_eq!(fire(&mut o, Trigger::simple("schedule"), NOW, &mut host), Some(false));
    assert_eq!(o.error.as_deref(), Some("create_session returned no session id"));
}

#[test]
fn a_busy_brain_coalesces() {
    let mut o = awake();
    let busy = r#"{"value":{"busy":true,"since":"2026-08-29T09:45:00Z"}}"#;
    let mut host = Host::new(vec![ret(r#"{"exists":true}"#), ret(busy)]);
    let t = Trigger::session_idle("s1", "A", "completed");
    assert_eq!(fire(&mut o, t, NOW, &mut host), Some(false));
    assert_eq!(o.pending_triggers.len(), 1);
    assert_eq!(o.pending_triggers[0].session_name.as_deref(), Some("A"));
    assert_eq!(o.log.last().unwrap().kind, "skipped_busy");
}

#[test]
fn the_cap_pauses_without_a_request() {
    let mut o = awake();
    o.caps.max_fires_per_hour = 1;
    o.stats.fire_times = vec!["2026-08-29T09:30:00Z".into()];
    assert_eq!(fire(&mut o, Trigger::simple("manual"), NOW, &mut silent()), Some(false));
    assert!(o.paused);
    assert_eq!(
        o.log[0].detail,
        "1 fires in the last hour reached max_fires_per_hour=1 — auto-paused"
    );
}

#[test]
fn the_cooldown_keeps_events_and_drops_ticks() {
    let mut o = awake();
    o.stats.last_fired_at = Some("2026-08-29T09:59:30Z".into());
    assert_eq!(fire(&mut o, Trigger::simple("schedule"), NOW, &mut silent()), Some(false));
    assert!(o.pending_triggers.is_empty());
    let t = Trigger::session_idle("s1", "A", "completed");
    assert_eq!(fire(&mut o, t, NOW, &mut silent()), Some(false));
    assert_eq!(o.pending_triggers.len(), 1);
}

#[test]
fn what_waits_is_not_lost_in_a_cooldown() {
    let mut o = awake();
    queue_pending(&mut o, Trigger::session_idle("s1", "A", "completed"), NOW);
    queue_pending(&mut o, Trigger::session_idle("s2", "B", "crashed"), NOW);
    o.stats.last_fired_at = Some(NOW.into());
    let mut t = Trigger::simple("coalesced");
    t.pending = std::mem::take(&mut o.pending_triggers);
    assert_eq!(fire(&mut o, t, NOW, &mut silent()), Some(false));
    assert_eq!(o.pending_triggers.len(), 2);
}

#[test]
fn the_queue_keeps_the_newest() {
    let mut o = orch();
    for i in 0..(PENDING_CAP + 3) {
        queue_pending(&mut o, Trigger::session_idle(&format!("s{i}"), "A", "x"), NOW);
    }
    assert_eq!(o.pending_triggers.len(), PENDING_CAP);
    assert_eq!(o.pending_triggers[0].session_id.as_deref(), Some("s3"));
    // Triggers about no session are never duplicates.
    let mut o = orch();
    queue_pending(&mut o, Trigger::simple("manual"), NOW);
    queue_pending(&mut o, Trigger::simple("manual"), NOW);
    assert_eq!(o.pending_triggers.len(), 2);
}

#[test]
fn fires_say_what_set_them_off() {
    assert_eq!(fire_detail(&Trigger::simple("watchdog")), "trigger: watchdog");
    assert_eq!(
        fire_detail(&Trigger::session_idle("s", "A", "done")),
        "watched session \"A\" went idle (done)"
    );
    assert_eq!(fire_detail(&Trigger::simple("session_idle")), "watched session \"?\" went idle (?)");
    assert_eq!(fire_detail(&Trigger::simple("coalesced")), "delivered 1 coalesced trigger(s)");
}

#[test]
fn prompts_name_what_waited_and_the_estimate() {
    let mut o = orch();
    o.prompt = "{{trigger}}|{{session_name}}|{{outcome}}|{{watched_busy_count}}|{{pending}}|{{eta}}".into();
    queue_pending(&mut o, Trigger::session_idle("s1", "A", "completed"), NOW);
    queue_pending(&mut o, Trigger::simple("manual"), NOW);
    let mut t = Trigger::simple("coalesced");
    t.pending = std::mem::take(&mut o.pending_triggers);
    o.goal_status.eta = Some(Eta {
        minutes_remaining: 90,
        projected_at: "P".into(),
        updated_at: "U".into(),
    });
    assert_eq!(
        render(&o, &t, 3),
        "2 events while you were busy: session_idle \"A\" (completed); manual \"?\" (-)|||3|\
session_idle \"A\" (completed); manual \"?\" (-)|90 min remaining (projected P, estimated at U)"
    );
    o.prompt = " ".into();
    assert!(render(&o, &t, 0).starts_with("Trigger: 2 events while you were busy"));
}

#[test]
fn busy_sessions_are_counted() {
    let mut o = orch();
    o.prompt = "{{watched_busy_count}}".into();
    o.watch.sessions = vec!["s1".into(), "s2".into()];
    o.created_sessions = vec!["s3".into()];
    let busy = r#"{"value":{"busy":true,"since":"2026-08-29T09:59:00Z"}}"#;
    let mut host = Host::new(vec![ret(busy), ret("{}"), ret(busy)]);
    let out = render_prompt(&o, &Trigger::simple("manual"), NOW, &mut host);
    assert_eq!(out.as_deref(), Some("2"));
    assert_eq!(asked(&host)[2], r#"StoreGet {"collection":"busy","key":"s3"}"#);
}

#[test]
fn standing_prompts_without_a_goal_say_so() {
    let mut o = orch();
    o.goal = "  ".into();
    assert!(standing_prompt(&o).contains("\n(no goal set)\n"));
    o.standards.dev = false;
    o.standards.ux = false;
    let text = standards_text(&o);
    assert!(text.starts_with("\n## Standards"));
    assert_eq!(text.lines().count(), 4);
    assert!(!text.contains("ui-gauge"));
}

// ── Guards ────────────────────────────────────────────────────────────

#[test]
fn the_watchdog_waits_for_an_idle_brain() {
    let mut o = awake();
    o.stats.last_fired_at = Some("2026-08-29T09:00:00Z".into());
    let busy = r#"{"value":{"busy":true,"since":"2026-08-29T09:59:00Z"}}"#;
    assert_eq!(watchdog_due(&o, NOW, &mut Host::new(vec![ret(busy)])), Some(false));
    assert_eq!(watchdog_due(&o, NOW, &mut Host::new(vec![ret("{}")])), Some(true));
    o.stats.last_fired_at = Some("garbage".into());
    assert_eq!(watchdog_due(&o, NOW, &mut silent()), Some(false));
}

#[test]
fn a_brain_is_idle_without_a_fresh_mark() {
    assert_eq!(brain_is_idle(&orch(), NOW, &mut silent()), Some(true));
    for (mark, idle) in [
        (r#"{"value":{"busy":true,"since":"2026-08-29T09:30:01Z"}}"#, false),
        (r#"{"value":{"busy":true,"since":"2026-08-29T09:30:00Z"}}"#, true),
        (r#"{"value":{"busy":false,"since":"2026-08-29T09:59:00Z"}}"#, true),
        (r#"{"value":{"busy":true}}"#, true),
        (r#"{"value":null}"#, true),
    ] {
        assert_eq!(brain_is_idle(&awake(), NOW, &mut Host::new(vec![ret(mark)])), Some(idle), "{mark}");
    }
    let mut host = Host::new(vec![Reply::Refused("down".into())]);
    assert_eq!(brain_is_idle(&awake(), NOW, &mut host), Some(true));
}

#[test]
fn a_slot_that_cannot_be_read_is_due() {
    let mut o = orch();
    o.schedule.every_minutes = Some(5);
    o.stats.next_due_at = Some("garbage".into());
    assert!(schedule_due(&o, NOW));
}

// ── Ticks ─────────────────────────────────────────────────────────────

fn tick(replies: Vec<Reply>) -> (Option<Result<Json, String>>, Host) {
    let mut host = Host::new(replies);
    let r = on_timer_tick(&j(&format!(r#"{{"now":"{NOW}"}}"#)), &mut host);
    (r, host)
}

#[test]
fn a_tick_needs_the_time() {
    let r = on_timer_tick(&Json::Null, &mut silent());
    assert_eq!(r.unwrap().unwrap_err(), "timer.tick payload missing 'now'");
}

#[test]
fn a_paused_tick_does_nothing() {
    let (r, host) = tick(vec![ret("{}"), ret(r#"{"value":{"paused":true}}"#)]);
    assert_eq!(r.unwrap().unwrap().to_text(), r#"{"ok":true,"paused":true}"#);
    assert_eq!(
        asked(&host),
        [
            format!(r#"StorePut {{"collection":"engine","data":{{"now":"{NOW}"}},"key":"clock"}}"#),
            r#"StoreGet {"collection":"engine","key":"pause_all"}"#.to_string(),
        ]
    );
}

#[test]
fn a_contended_tick_does_nothing() {
    let (r, host) = tick(vec![ret("{}"), ret("{}"), Reply::Lease(false)]);
    assert_eq!(r.unwrap().unwrap().to_text(), r#"{"ok":true,"skipped":"busy"}"#);
    assert_eq!(host.asked().len(), 3);
}

/// The answers up to the records, which are these.
fn walk(records: Vec<Orchestrator>) -> Vec<Reply> {
    let items = vec![r#"{"key":"k","value":{}}"#; records.len()].join(",");
    let mut replies = vec![
        ret("{}"),
        ret("{}"),
        Reply::Lease(true),
        ret(&format!(r#"{{"items":[{items}]}}"#)),
    ];
    replies.extend(records.into_iter().map(|o| Reply::Record(Some(o))));
    replies
}

fn stored(host: &Host, at: usize) -> Json {
    match &host.asked()[at] {
        Request::Call(_, input) => input.get("data").unwrap().clone(),
        other => panic!("no document: {other:?}"),
    }
}

#[test]
fn resting_orchestrators_are_passed_over() {
    let mut off = awake();
    off.enabled = false;
    let mut paused = awake();
    paused.paused = true;
    let mut replies = walk(vec![off, paused]);
    replies.push(Reply::Released);
    let (r, host) = tick(replies);
    assert_eq!(r.unwrap().unwrap().to_text(), r#"{"fired":0,"ok":true}"#);
    assert_eq!(host.asked().len(), 7);
}

#[test]
fn a_schedule_fires_and_advances() {
    let mut o = awake();
    o.schedule.every_minutes = Some(30);
    let mut replies = walk(vec![o]);
    replies.extend([
        ret(r#"{"exists":true}"#),
        ret("{}"),
        ret("{}"),
        ret("{}"),
        ret("{}"),
        Reply::Released,
    ]);
    let (r, host) = tick(replies);
    assert_eq!(r.unwrap().unwrap().to_text(), r#"{"fired":1,"ok":true}"#);
    let doc = stored(&host, 9);
    let stats = doc.get("stats").unwrap();
    assert_eq!(stats.text_at("next_due_at"), Some("2026-08-29T10:30:00+00:00"));
    assert_eq!(stats.u64_at("fires"), Some(1));
    assert!(matches!(host.pending(), Some(Request::ReleaseLease)));
}

#[test]
fn a_skipped_slot_advances_too() {
    let mut o = awake();
    o.schedule.every_minutes = Some(30);
    o.stats.last_fired_at = Some(NOW.into());
    let mut replies = walk(vec![o]);
    replies.extend([ret("{}"), Reply::Released]);
    let (r, host) = tick(replies);
    assert_eq!(r.unwrap().unwrap().to_text(), r#"{"fired":0,"ok":true}"#);
    let doc = stored(&host, 5);
    assert_eq!(doc.get("stats").unwrap().text_at("next_due_at"), Some("2026-08-29T10:30:00+00:00"));
}

#[test]
fn a_slot_beyond_all_time_gives_up() {
    let mut o = awake();
    o.schedule.every_minutes = Some(1 << 60);
    let (r, host) = tick(walk(vec![o]));
    assert!(r.is_none());
    assert!(matches!(host.pending(), Some(Request::Abort(_))));
}

#[test]
fn what_waited_goes_first() {
    let mut o = awake();
    o.schedule.every_minutes = Some(30);
    queue_pending(&mut o, Trigger::session_idle("s1", "A", "completed"), NOW);
    let mut replies = walk(vec![o]);
    replies.extend([
        ret("{}"),
        ret(r#"{"exists":true}"#),
        ret("{}"),
        ret("{}"),
        ret("{}"),
        ret("{}"),
        Reply::Released,
    ]);
    let (r, host) = tick(replies);
    assert_eq!(r.unwrap().unwrap().to_text(), r#"{"fired":1,"ok":true}"#);
    let doc = stored(&host, 10);
    assert_eq!(doc.array_at("pending_triggers").unwrap().len(), 0);
    let log = doc.array_at("log").unwrap();
    assert_eq!(log.last().unwrap().text_at("detail"), Some("delivered 1 coalesced trigger(s)"));
    // The slot of the schedule is not touched.
    assert_eq!(doc.get("stats").unwrap().get("next_due_at").unwrap().to_text(), "null");
}

#[test]
fn a_store_that_refuses_ends_the_tick() {
    let mut replies = walk(vec![awake()]);
    replies.extend([
        ret(r#"{"exists":true}"#),
        ret("{}"),
        ret("{}"),
        ret("{}"),
        Reply::Refused("full".into()),
        Reply::Released,
    ]);
    let (r, host) = tick(replies);
    assert_eq!(r.unwrap().unwrap_err(), "full");
    assert!(matches!(host.pending(), Some(Request::ReleaseLease)));
}

// ── Turns ─────────────────────────────────────────────────────────────

#[test]
fn the_end_of_no_session_is_nothing() {
    let r = on_agent_ended(&j(r#"{"session_id":""}"#), &mut silent());
    assert_eq!(r.unwrap().unwrap().to_text(), r#"{"ok":true}"#);
}

#[test]
fn before_the_first_tick_a_turn_only_clears_its_mark() {
    let mut host = Host::new(vec![Reply::Refused("x".into()), ret("{}")]);
    let r = on_agent_ended(&j(r#"{"session_id":"s1"}"#), &mut host);
    assert_eq!(r.unwrap().unwrap().to_text(), r#"{"ok":true}"#);
    assert_eq!(asked(&host)[0], r#"StoreDelete {"collection":"busy","key":"s1"}"#);
    assert_eq!(host.asked().len(), 2);
}

fn ended(records: Vec<Orchestrator>, rest: Vec<Reply>) -> (Option<Result<Json, String>>, Host) {
    let mut replies = vec![ret("{}"), ret(&format!(r#"{{"value":{{"now":"{NOW}"}}}}"#))];
    replies.extend(walk(records).into_iter().skip(1));
    replies.extend(rest);
    let mut host = Host::new(replies);
    let r = on_agent_ended(&j(r#"{"session_id":"s1","session_name":"A"}"#), &mut host);
    (r, host)
}

#[test]
fn watchers_of_a_session_fire() {
    let mut o = awake();
    o.watch.sessions.push("s1".into());
    let rest = vec![
        ret(r#"{"exists":true}"#),
        ret("{}"),
        ret("{}"),
        ret("{}"),
        ret("{}"),
        ret("{}"),
        Reply::Released,
    ];
    let (r, host) = ended(vec![o], rest);
    assert_eq!(r.unwrap().unwrap().to_text(), r#"{"ok":true,"skipped":null}"#);
    let doc = stored(&host, 11);
    let log = doc.array_at("log").unwrap();
    assert_eq!(
        log.last().unwrap().text_at("detail"),
        Some("watched session \"A\" went idle (completed)")
    );
}

#[test]
fn the_folder_of_a_session_is_asked_for_once() {
    let mut one = awake();
    one.watch.folders.push("g".into());
    let mut two = awake();
    two.watch.folders.push("h".into());
    let rest = vec![ret(r#"{"session":{"folder_id":"x"}}"#), Reply::Released];
    let (r, host) = ended(vec![one, two], rest);
    assert!(r.unwrap().is_ok());
    let looks = names(&host).iter().filter(|n| *n == "OrchestrateSessionState").count();
    assert_eq!(looks, 1);
}

#[test]
fn watchers_of_a_folder_fire() {
    let mut o = awake();
    o.watch.folders.push("g".into());
    o.stats.last_fired_at = Some(NOW.into());
    let rest = vec![ret(r#"{"session":{"folder_id":"g"}}"#), ret("{}"), Reply::Released];
    let (r, host) = ended(vec![o], rest);
    assert!(r.unwrap().is_ok());
    // In its cooldown it keeps the trigger.
    let doc = stored(&host, 7);
    assert_eq!(doc.array_at("pending_triggers").unwrap().len(), 1);
}

#[test]
fn the_end_of_a_brain_turn_delivers_what_waited() {
    let mut o = awake();
    o.session_id = Some("s1".into());
    queue_pending(&mut o, Trigger::simple("manual"), NOW);
    let rest = vec![
        ret(r#"{"exists":true}"#),
        ret("{}"),
        ret("{}"),
        ret("{}"),
        ret("{}"),
        Reply::Released,
    ];
    let (r, host) = ended(vec![o], rest);
    assert!(r.unwrap().is_ok());
    assert!(names(&host).contains(&"OrchestrateSend".to_string()));
    // A brain without waiting triggers is left alone.
    let mut o = awake();
    o.session_id = Some("s1".into());
    o.watch.sessions.push("s1".into());
    let (r, host) = ended(vec![o], vec![Reply::Released]);
    assert!(r.unwrap().is_ok());
    assert_eq!(host.asked().len(), 7);
}

#[test]
fn a_starting_turn_marks_its_session() {
    let mut host = Host::new(vec![ret(&format!(r#"{{"value":{{"now":"{NOW}"}}}}"#)), ret("{}")]);
    assert_eq!(on_message_before(&j(r#"{"session_id":"s1"}"#), &mut host), Some(Ok(())));
    assert_eq!(
        asked(&host)[1],
        format!(r#"StorePut {{"collection":"busy","data":{{"busy":true,"since":"{NOW}"}},"key":"s1"}}"#)
    );
    let mut host = Host::new(vec![ret("{}")]);
    assert_eq!(on_message_before(&j(r#"{"session_id":"s1"}"#), &mut host), Some(Ok(())));
    assert_eq!(host.asked().len(), 1);
    assert_eq!(on_message_before(&Json::Null, &mut silent()), Some(Ok(())));
}

#[test]
fn folders_come_from_the_session_state() {
    let mut host = Host::new(vec![ret(r#"{"session":{"folder_id":"g"}}"#)]);
    assert_eq!(session_folder("s1", &mut host), Some(Some("g".into())));
    for reply in [ret("{}"), ret(r#"{"session":{}}"#), Reply::Refused("x".into())] {
        assert_eq!(session_folder("s1", &mut Host::new(vec![reply])), Some(None));
    }
}

// ── Manual controls ───────────────────────────────────────────────────

fn clock() -> Reply {
    ret(&format!(r#"{{"value":{{"now":"{NOW}"}}}}"#))
}

#[test]
fn a_manual_run_needs_the_clock_the_lease_and_the_record() {
    let mut host = Host::new(vec![ret("{}")]);
    assert_eq!(
        run_now("o1", &mut host).unwrap().unwrap_err(),
        "no engine clock yet — wait for the first timer tick"
    );
    let mut host = Host::new(vec![clock(), ret("{}"), Reply::Lease(false)]);
    assert_eq!(
        run_now("o1", &mut host).unwrap().unwrap_err(),
        session_control::state::BUSY_MSG
    );
    let mut host =
        Host::new(vec![clock(), ret("{}"), Reply::Lease(true), ret("{}"), Reply::Released]);
    assert_eq!(run_now("o1", &mut host).unwrap().unwrap_err(), "orchestrator not found: o1");
}

#[test]
fn a_manual_run_fires() {
    let mut host = Host::new(vec![
        clock(),
        ret(r#"{"value":{"paused":false}}"#),
        Reply::Lease(true),
        ret(r#"{"value":{"id":"o1"}}"#),
        Reply::Record(Some(awake())),
        ret(r#"{"exists":true}"#),
        ret("{}"),
        ret("{}"),
        ret("{}"),
        ret("{}"),
        Reply::Released,
    ]);
    let r = run_now("o1", &mut host).unwrap().unwrap();
    assert_eq!(r.to_text(), r#"{"ok":true,"sent":true}"#);
}

#[test]
fn a_manual_run_is_held_back_by_the_kill_switch() {
    let mut host = Host::new(vec![clock(), ret(r#"{"value":{"paused":true}}"#)]);
    let r = run_now("o1", &mut host).unwrap().unwrap();
    assert_eq!(r.to_text(), r#"{"ok":true,"sent":false}"#);
    assert_eq!(names(&host), ["StoreGet", "StoreGet"]);
}

#[test]
fn a_manual_run_leaves_a_disabled_or_paused_orchestrator_alone() {
    for (enabled, paused) in [(false, false), (true, true), (false, true)] {
        let mut o = awake();
        o.enabled = enabled;
        o.paused = paused;
        let mut host = Host::new(vec![
            clock(),
            ret("{}"),
            Reply::Lease(true),
            ret(r#"{"value":{"id":"o1"}}"#),
            Reply::Record(Some(o)),
            Reply::Released,
        ]);
        let r = run_now("o1", &mut host).unwrap().unwrap();
        assert_eq!(r.to_text(), r#"{"ok":true,"sent":false}"#);
        assert_eq!(host.asked().len(), 6);
        assert!(!names(&host).contains(&"OrchestrateSend".to_string()));
        assert!(!names(&host).contains(&"StorePut".to_string()));
    }
}

#[test]
fn a_dry_run_only_reads() {
    let mut o = awake();
    o.prompt = "T={{trigger}}".into();
    let mut host = Host::new(vec![
        ret("{}"),
        ret(r#"{"value":{"id":"o1"}}"#),
        Reply::Record(Some(o)),
    ]);
    let r = dry_run("o1", &mut host).unwrap().unwrap();
    assert_eq!(r.text_at("rendered_prompt"), Some("T=dry-run"));
    assert_eq!(r.text_at("standing_prompt"), Some(standing_prompt(&orch()).as_str()));
    assert_eq!(names(&host), ["StoreGet", "StoreGet", "Decode"]);
    let mut host = Host::new(vec![ret("{}"), ret(r#"{"value":1}"#), Reply::Record(None)]);
    assert_eq!(dry_run("o1", &mut host).unwrap().unwrap_err(), "orchestrator not found: o1");
}

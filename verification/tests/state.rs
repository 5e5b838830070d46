//! The store: documents, records, clock, pause and busy marks.

use session_control::host::{Host, Reply, Request};
use session_control::json::{Json, parse_json};
use session_control::records::{HatAssignment, Orchestrator};
use session_control::state::{
    clock, global_paused, is_busy, list_orchestrators, load_orchestrator, mark_busy, mark_idle,
    save_orchestrator, set_clock, set_global_paused, store_delete, store_get, store_list,
    store_put,
};

const NOW: &str = "2026-08-29T10:00:00Z";

fn ret(text: &str) -> Reply {
    Reply::Returned(parse_json(text).unwrap())
}

fn last(host: &Host) -> String {
    match host.pending() {
        Some(Request::Call(f, input)) => format!("{f:?} {}", input.to_text()),
        other => format!("{other:?}"),
    }
}

/// What the last request stores, as the store hands it out again.
fn given_back(host: &Host) -> Reply {
    match host.pending() {
        Some(Request::Call(_, input)) => {
            ret(&format!(r#"{{"value":{}}}"#, input.get("data").unwrap().to_text()))
        }
        other => panic!("nothing stored: {other:?}"),
    }
}

#[test]
fn documents_are_put_and_got() {
    let mut host = Host::new(vec![ret("{}")]);
    assert_eq!(store_put("c", "k", Json::uint(7), &mut host), Some(Ok(())));
    assert_eq!(last(&host), r#"StorePut {"collection":"c","data":7,"key":"k"}"#);
    let mut host = Host::new(vec![given_back(&host)]);
    let doc = store_get("c", "k", &mut host).unwrap().unwrap().unwrap();
    assert_eq!(doc.to_text(), "7");
    assert_eq!(last(&host), r#"StoreGet {"collection":"c","key":"k"}"#);
}

#[test]
fn an_absent_document_is_none() {
    for reply in ["{}", r#"{"value":null}"#, "[]"] {
        let mut host = Host::new(vec![ret(reply)]);
        assert!(store_get("c", "k", &mut host).unwrap().unwrap().is_none());
    }
    let mut host = Host::new(vec![Reply::Refused("down".into())]);
    assert_eq!(store_get("c", "k", &mut host).unwrap().unwrap_err(), "down");
    let mut host = Host::new(vec![Reply::Refused("down".into())]);
    assert_eq!(store_put("c", "k", Json::Null, &mut host), Some(Err("down".into())));
}

#[test]
fn listings_leave_out_what_is_no_entry() {
    let items = r#"{"items":[{"key":"a","value":1},{"key":2,"value":3},{"key":"b"},{"key":"c","value":null}]}"#;
    let mut host = Host::new(vec![ret(items)]);
    let found = store_list("c", &mut host).unwrap().unwrap();
    let keys: Vec<&str> = found.iter().map(|(k, _)| k.as_str()).collect();
    assert_eq!(keys, ["a", "c"]);
    assert_eq!(last(&host), r#"StoreList {"collection":"c"}"#);
    assert!(store_list("c", &mut Host::new(vec![ret("{}")])).unwrap().unwrap().is_empty());
    let mut host = Host::new(vec![Reply::Refused("down".into())]);
    assert_eq!(store_list("c", &mut host).unwrap().unwrap_err(), "down");
}

#[test]
fn deleting_never_fails() {
    let mut host = Host::new(vec![Reply::Refused("down".into())]);
    assert_eq!(store_delete("c", "k", &mut host), Some(Ok(())));
}

#[test]
fn a_document_that_is_no_record_is_none() {
    let mut host = Host::new(vec![ret(r#"{"value":17}"#), Reply::Record(None)]);
    assert!(load_orchestrator("o", &mut host).unwrap().unwrap().is_none());
    assert_eq!(host.asked().len(), 2);
    let mut host = Host::new(vec![ret("{}")]);
    assert!(load_orchestrator("o", &mut host).unwrap().unwrap().is_none());
    assert_eq!(host.asked().len(), 1);
}

#[test]
fn records_are_listed_by_creation() {
    let born = |id: &str, at: &str| {
        let mut o = Orchestrator::new(id, "n", "f");
        o.created_at = at.into();
        Reply::Record(Some(o))
    };
    let four = r#"{"items":[{"key":"1","value":1},{"key":"2","value":2},{"key":"3","value":3},{"key":"4","value":4},{"key":"5","value":5}]}"#;
    let mut host = Host::new(vec![
        ret(four),
        born("late", "2026-02"),
        born("same1", "2026-01"),
        Reply::Record(None),
        born("same2", "2026-01"),
        born("early", ""),
    ]);
    let ids: Vec<String> = list_orchestrators(&mut host)
        .unwrap()
        .unwrap()
        .into_iter()
        .map(|o| o.id)
        .collect();
    assert_eq!(ids, ["early", "same1", "same2", "late"]);
}

#[test]
fn a_record_is_stored_with_every_field() {
    let mut o = Orchestrator::new("o1", "N", "f1");
    o.push_log(NOW, "report", "hello".into());
    o.schedule.every_minutes = Some(5);
    o.put_hat("s1", HatAssignment {
        hat: "QA".into(),
        responsibilities: "test".into(),
        assigned_at: NOW.into(),
    });
    let mut host = Host::new(vec![ret("{}")]);
    assert_eq!(save_orchestrator(&o, &mut host), Some(Ok(())));
    let Some(Request::Call(_, input)) = host.pending() else { panic!() };
    assert_eq!(input.text_at("collection"), Some("orchestrators"));
    assert_eq!(input.text_at("key"), Some("o1"));
    assert_eq!(
        input.get("data").unwrap().to_text(),
        [
            r#"{"caps":{"max_fires_per_hour":12,"max_sessions_created":10},"#,
            r#""consecutive_failures":0,"cooldown_secs":60,"created_at":"","created_sessions":[],"#,
            r#""enabled":true,"error":null,"eta_history":[],"folder_id":"f1","goal":"","#,
            r#""goal_status":{"eta":null,"note":"","percent":null,"state":"in_progress","updated_at":""},"#,
            r#""hats":{"s1":{"assigned_at":"2026-08-29T10:00:00Z","hat":"QA","responsibilities":"test"}},"#,
            r#""id":"o1","last_rendered_prompt":"","#,
            r#""log":[{"detail":"hello","kind":"report","ts":"2026-08-29T10:00:00Z"}],"#,
            r#""model":null,"name":"N","paused":false,"pending_triggers":[],"prompt":"","#,
            r#""schedule":{"every_minutes":5},"session_id":null,"#,
            r#""standards":{"custom":"","dev":true,"testing":true,"ux":true},"#,
            r#""stats":{"actions":0,"fire_times":[],"fires":0,"last_fired_at":null,"next_due_at":null,"sessions_created":0},"#,
            r#""watch":{"auto_watch_created":true,"folders":[],"sessions":[]},"watchdog_minutes":15}"#,
        ]
        .concat()
    );
}

#[test]
fn the_clock_is_read_as_it_was_stored() {
    let mut host = Host::new(vec![ret("{}")]);
    assert_eq!(set_clock(NOW, &mut host), Some(()));
    let mut host = Host::new(vec![given_back(&host)]);
    assert_eq!(clock(&mut host), Some(Some(NOW.into())));
    assert_eq!(clock(&mut Host::new(vec![ret("{}")])), Some(None));
    assert_eq!(clock(&mut Host::new(vec![Reply::Refused("x".into())])), Some(None));
    assert_eq!(set_clock(NOW, &mut Host::new(vec![Reply::Refused("x".into())])), Some(()));
}

#[test]
fn the_kill_switch_is_read_as_it_was_set() {
    for paused in [true, false] {
        let mut host = Host::new(vec![ret("{}")]);
        assert_eq!(set_global_paused(paused, &mut host), Some(()));
        let mut host = Host::new(vec![given_back(&host)]);
        assert_eq!(global_paused(&mut host), Some(paused));
    }
    assert_eq!(global_paused(&mut Host::new(vec![ret(r#"{"value":{"paused":1}}"#)])), Some(false));
    assert_eq!(global_paused(&mut Host::new(vec![Reply::Refused("x".into())])), Some(false));
}

#[test]
fn a_busy_mark_holds_until_it_is_stale() {
    let mut host = Host::new(vec![ret("{}")]);
    assert_eq!(mark_busy("s", NOW, &mut host), Some(()));
    for (now, busy) in [
        (NOW, true),
        ("2026-08-29T10:29:59Z", true),
        ("2026-08-29T10:30:00Z", false),
        ("garbage", false),
    ] {
        let mut read = Host::new(vec![given_back(&host)]);
        assert_eq!(is_busy("s", now, &mut read), Some(busy), "{now}");
    }
    let mut host = Host::new(vec![ret("{}")]);
    assert_eq!(mark_idle("s", &mut host), Some(()));
    assert_eq!(last(&host), r#"StoreDelete {"collection":"busy","key":"s"}"#);
    assert_eq!(is_busy("s", NOW, &mut Host::new(vec![ret("{}")])), Some(false));
}

#[test]
fn a_saved_record_is_loaded() {
    let mut o = Orchestrator::new("o1", "Ship", "f1");
    o.goal = "Build".into();
    o.stats.fire_times.push(NOW.into());
    let text = o.to_json().to_text();
    let mut host = Host::new(vec![ret("{}")]);
    assert_eq!(save_orchestrator(&o, &mut host), Some(Ok(())));
    let mut host = Host::new(vec![given_back(&host), Reply::Record(Some(o))]);
    let read = load_orchestrator("o1", &mut host).unwrap().unwrap().unwrap();
    assert_eq!(read.to_json().to_text(), text);
    match host.asked().as_slice() {
        [Request::Call(_, place), Request::Decode(doc)] => {
            assert_eq!(place.to_text(), r#"{"collection":"orchestrators","key":"o1"}"#);
            assert_eq!(doc.to_text(), text);
        }
        other => panic!("other requests: {other:?}"),
    }
}

#[test]
fn records_that_differ_are_stored_differently() {
    let plain = || Orchestrator::new("o1", "Ship", "f1");
    let text = plain().to_json().to_text();
    let mut others: Vec<Orchestrator> = Vec::new();
    let mut o = plain();
    o.goal_status.percent = Some(0);
    others.push(o);
    let mut o = plain();
    o.watch.folders.push("f2".into());
    others.push(o);
    let mut o = plain();
    o.schedule.every_minutes = Some(30);
    others.push(o);
    let mut o = plain();
    o.error = Some(String::new());
    others.push(o);
    let mut o = plain();
    o.eta_history.push(Json::Null);
    others.push(o);
    let mut seen = vec![text];
    for o in others {
        let text = o.to_json().to_text();
        assert!(!seen.contains(&text));
        seen.push(text);
    }
}

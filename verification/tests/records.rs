//! Records: defaults, activity feed, watch lists.

use session_control::records::{HatAssignment, LOG_CAP, Orchestrator, hat_of};

#[test]
fn orchestrator_defaults_fill_from_minimal_json() {
    let o = Orchestrator::new("o1", "Ship it", "f1");
    assert!(o.enabled);
    assert!(!o.paused);
    assert_eq!(o.watchdog_minutes, 15);
    assert_eq!(o.cooldown_secs, 60);
    assert_eq!(o.caps.max_fires_per_hour, 12);
    assert!(o.watch.auto_watch_created);
    assert_eq!(o.goal_status.state, "in_progress");
    assert!(o.standards.dev && o.standards.testing && o.standards.ux);
}

#[test]
fn push_log_caps_the_feed() {
    let mut o = Orchestrator::new("o", "n", "f");
    for i in 0..(LOG_CAP + 25) {
        o.push_log("2026-01-01T00:00:00Z", "fired", format!("e{i}"));
    }
    assert_eq!(o.log.len(), LOG_CAP);
    assert_eq!(o.log.last().unwrap().detail, format!("e{}", LOG_CAP + 24));
}

#[test]
fn watches_session_covers_watch_list_and_created() {
    let mut o = Orchestrator::new("o", "n", "f");
    o.watch.sessions.push("s1".into());
    o.created_sessions.push("s2".into());
    assert!(o.watches_session("s1"));
    assert!(o.watches_session("s2"));
    assert!(!o.watches_session("s3"));
}

fn hat(name: &str) -> HatAssignment {
    HatAssignment {
        hat: name.into(),
        responsibilities: "r".into(),
        assigned_at: "2026-01-01T00:00:00Z".into(),
    }
}

#[test]
fn the_last_hat_of_a_session_is_stored() {
    let mut o = Orchestrator::new("o", "n", "f");
    o.put_hat("s1", hat("QA"));
    o.put_hat("s2", hat("Dev"));
    o.put_hat("s1", hat("UX"));
    assert_eq!(o.hats.entries().len(), 2);
    assert_eq!(o.hats.get("s1").unwrap().hat, "UX");
    assert_eq!(hat_of(&o.hats, "s2").unwrap().hat, "Dev");
    assert!(hat_of(&o.hats, "s3").is_none());
    let text = |name: &str| {
        format!(r#"{{"assigned_at":"2026-01-01T00:00:00Z","hat":"{name}","responsibilities":"r"}}"#)
    };
    assert_eq!(
        o.to_json().get("hats").unwrap().to_text(),
        format!(r#"{{"s1":{},"s2":{}}}"#, text("UX"), text("Dev"))
    );
    let copy = o.clone();
    assert_eq!(copy.to_json().to_text(), o.to_json().to_text());
}

//! Laws of the orchestrator tools, and what every operation keeps of a record.

use vstd::prelude::*;

use crate::authorize;
use crate::control;
use crate::engine::{self, TriggerView};
use crate::host::{HostFn, ReplyView, RequestView, Script};
use crate::json::JsonView;
use crate::orch_tools::{self, ReportView};
use crate::page;
use crate::record_laws;
use crate::records::{self, ETA_HISTORY_CAP, HatView, LOG_CAP, OrchestratorView};
use crate::state;

verus! {

// ── What every operation keeps ────────────────────────────────────────

/// What holds of every record: feed, history and queue are within their caps,
/// and no two waiting triggers are about the same session.
pub open spec fn well_kept(o: OrchestratorView) -> bool {
    &&& o.log.len() <= LOG_CAP
    &&& o.eta_history.len() <= ETA_HISTORY_CAP
    &&& o.pending_triggers.len() <= engine::PENDING_CAP
    &&& record_laws::distinct_sessions(o.pending_triggers)
}

/// A new record is well kept.
pub proof fn new_records_are_well_kept(id: Seq<char>, name: Seq<char>, folder_id: Seq<char>)
    ensures
        well_kept(records::fresh(id, name, folder_id)),
{
}

/// A fire keeps a record well kept, whatever comes of it.
pub proof fn fires_keep_records(o: OrchestratorView, t: TriggerView, now: Seq<char>, s: Script)
    requires
        well_kept(o),
        record_laws::distinct_sessions(t.pending),
        engine::fire_run(o, t, now, s).1 is Some,
    ensures
        well_kept((engine::fire_run(o, t, now, s).1->0).0),
{
    reveal(engine::fire_run);
    let o1 = engine::pruned(o, now);
    record_laws::queue_stays_distinct(o1, t, now);
    let r = engine::ensure_brain_run(o1, now, s).1;
    if r is Some {
        record_laws::queue_stays_distinct((r->0).0, t, now);
    }
}

/// Delivering what waits keeps a record well kept.
pub proof fn flushes_keep_records(o: OrchestratorView, now: Seq<char>, s: Script)
    requires
        well_kept(o),
        engine::fire_run(
            OrchestratorView { pending_triggers: Seq::empty(), ..o },
            TriggerView::coalesced(o.pending_triggers),
            now,
            s,
        ).1 is Some,
    ensures
        well_kept(
            (engine::fire_run(
                OrchestratorView { pending_triggers: Seq::empty(), ..o },
                TriggerView::coalesced(o.pending_triggers),
                now,
                s,
            ).1->0).0,
        ),
{
    let o1 = OrchestratorView { pending_triggers: Seq::empty(), ..o };
    fires_keep_records(o1, TriggerView::coalesced(o.pending_triggers), now, s);
}

/// The tools keep a record well kept.
pub proof fn tools_keep_records(
    o: OrchestratorView,
    id: Seq<char>,
    name: Seq<char>,
    hat: Option<Seq<char>>,
    words: Seq<char>,
    watch: bool,
    report: ReportView,
    ts: Seq<char>,
)
    requires
        well_kept(o),
    ensures
        well_kept(orch_tools::spawned(o, id, name, hat, words, ts)),
        well_kept(orch_tools::hat_assigned(o, id, name, words, ts)),
        well_kept(orch_tools::watch_changed(o, id, watch, ts)),
        well_kept(orch_tools::reported(o, report, words, ts)),
        well_kept(orch_tools::noted(o, ts, name, words)),
{
}

/// The page keeps a record well kept.
pub proof fn edits_keep_records(o: OrchestratorView, body: JsonView)
    requires
        well_kept(o),
    ensures
        well_kept(page::edited(o, body).0),
        well_kept(page::toggled(o, body)),
{
}

// ── Watching ──────────────────────────────────────────────────────────

/// A watched session is watched, an unwatched one is not (even where the
/// orchestrator created it), and the others stay as they were.
pub proof fn watching_is_watched(
    o: OrchestratorView,
    id: Seq<char>,
    ts: Seq<char>,
    other: Seq<char>,
)
    ensures
        orch_tools::watch_changed(o, id, true, ts).watches_session(id),
        !orch_tools::watch_changed(o, id, false, ts).watches_session(id),
        other != id ==> orch_tools::watch_changed(o, id, true, ts).watches_session(other)
            == o.watches_session(other),
        other != id ==> orch_tools::watch_changed(o, id, false, ts).watches_session(other)
            == o.watches_session(other),
{
    let v = o.watch.sessions;
    record_laws::removed_text_is_gone(v, id, other);
    record_laws::removed_text_is_gone(o.created_sessions, id, other);
    pushed_text_is_there(v, id, other);
}

/// A text that is appended is there, and the others stay.
proof fn pushed_text_is_there(v: Seq<Seq<char>>, s: Seq<char>, other: Seq<char>)
    ensures
        v.push(s).contains(s),
        other != s ==> v.push(s).contains(other) == v.contains(other),
{
    let w = v.push(s);
    assert(w[v.len() as int] == s);
    if v.contains(other) {
        let k = choose|k: int| 0 <= k < v.len() && v[k] == other;
        assert(w[k] == other);
    }
    if w.contains(other) && other != s {
        let k = choose|k: int| 0 <= k < w.len() && w[k] == other;
        assert(v[k] == other);
    }
}

/// Leaving out what repeats the text just before it leaves every text in.
pub proof fn deduped_keeps_every_text(v: Seq<Seq<char>>, x: Seq<char>)
    ensures
        orch_tools::deduped(v).contains(x) <==> v.contains(x),
    decreases v.len(),
{
    if v.len() >= 2 {
        let front = v.drop_last();
        deduped_keeps_every_text(front, x);
        assert(v =~= front.push(v.last()));
        assert(front[v.len() - 2] == v[v.len() - 2]);
        if x != v.last() {
            pushed_text_is_there(front, v.last(), x);
            pushed_text_is_there(orch_tools::deduped(front), v.last(), x);
        } else {
            pushed_text_is_there(front, x, x);
            pushed_text_is_there(orch_tools::deduped(front), x, x);
        }
    }
}

/// Each session of the list is told of under its id, behind those told of
/// before.
proof fn managed_docs_tell_ids(
    o: OrchestratorView,
    all: Seq<JsonView>,
    ids: Seq<Seq<char>>,
    ts: Seq<char>,
    done: Seq<JsonView>,
    s: Script,
)
    ensures
        orch_tools::managed_docs_run(o, all, ids, ts, done, s).1 matches Some(docs) ==> {
            &&& docs.len() == done.len() + ids.len()
            &&& forall|i: int| 0 <= i < done.len() ==> #[trigger] docs[i] == done[i]
            &&& forall|i: int|
                done.len() <= i < docs.len() ==> (#[trigger] docs[i]).text_at("session_id"@)
                    == Some(ids[i - done.len()])
        },
    decreases ids.len(),
{
    if ids.len() > 0 {
        let (t, busy) = state::is_busy_run(ids[0], ts, s);
        if let Some(busy) = busy {
            let doc = orch_tools::managed_doc(o, all, ids[0], busy);
            managed_names_differ();
            assert(doc.text_at("session_id"@) == Some(ids[0]));
            managed_docs_tell_ids(o, all, ids.skip(1), ts, done.push(doc), t);
            if let Some(docs) = orch_tools::managed_docs_run(
                o,
                all,
                ids.skip(1),
                ts,
                done.push(doc),
                t,
            ).1 {
                assert forall|i: int| 0 <= i < done.len() implies #[trigger] docs[i]
                    == done[i] by {
                    assert(docs[i] == done.push(doc)[i]);
                }
                assert forall|i: int| done.len() <= i < docs.len() implies (
                #[trigger] docs[i]).text_at("session_id"@) == Some(ids[i - done.len()]) by {
                    if i == done.len() {
                        assert(docs[i] == done.push(doc)[i]);
                    } else {
                        assert(ids.skip(1)[i - done.len() - 1] == ids[i - done.len()]);
                    }
                }
            }
        }
    }
}

/// The names in what is told of a managed session differ from that of its id.
proof fn managed_names_differ()
    ensures
        "session_id"@ != "name"@,
        "session_id"@ != "folder_id"@,
        "session_id"@ != "exists"@,
        "session_id"@ != "busy"@,
        "session_id"@ != "hat"@,
        "session_id"@ != "created_by_orchestrator"@,
        "sessions"@ != "orchestrator"@,
        "sessions"@ != "goal_status"@,
{
    reveal_strlit("session_id");
    reveal_strlit("name");
    reveal_strlit("folder_id");
    reveal_strlit("exists");
    reveal_strlit("busy");
    reveal_strlit("hat");
    reveal_strlit("created_by_orchestrator");
    reveal_strlit("sessions");
    reveal_strlit("orchestrator");
    reveal_strlit("goal_status");
    assert("session_id"@.len() == 10 && "name"@.len() == 4 && "folder_id"@.len() == 9);
    assert("exists"@.len() == 6 && "busy"@.len() == 4 && "hat"@.len() == 3);
    assert("created_by_orchestrator"@.len() == 23 && "sessions"@.len() == 8);
    assert("orchestrator"@.len() == 12 && "goal_status"@.len() == 11);
}

/// Whether an answer tells of the session.
pub open spec fn tells_of(doc: JsonView, id: Seq<char>) -> bool {
    doc.array_at("sessions"@) matches Some(docs) && exists|i: int|
        0 <= i < docs.len() && (#[trigger] docs[i]).text_at("session_id"@) == Some(id)
}

/// `list_managed_sessions` tells of exactly the sessions that the calling
/// orchestrator watches or has created.
pub proof fn managed_sessions_are_listed(
    s: Script,
    o: OrchestratorView,
    doc: JsonView,
    id: Seq<char>,
)
    requires
        orch_tools::require_caller_orchestrator_run(s).1 == Some(
            Ok::<OrchestratorView, Seq<char>>(o),
        ),
        orch_tools::list_managed_sessions_run(s).1 == Some(Ok::<JsonView, Seq<char>>(doc)),
    ensures
        tells_of(doc, id) <==> o.watches_session(id),
{
    let (s1, _) = orch_tools::require_caller_orchestrator_run(s);
    let (s2, ts) = orch_tools::now_run(s1);
    let (s3, r) = s2.call(HostFn::ListSessions, authorize::query(""@));
    let all = authorize::sessions_in((r->0)->Ok_0);
    let managed = engine::managed(o);
    let ids = orch_tools::deduped(managed);
    let docs = orch_tools::managed_docs_run(o, all, ids, ts->0, Seq::empty(), s3).1->0;
    managed_docs_tell_ids(o, all, ids, ts->0, Seq::empty(), s3);
    managed_names_differ();
    assert(doc == orch_tools::listing_doc(o, docs));
    assert(doc.array_at("sessions"@) == Some(docs));
    deduped_keeps_every_text(managed, id);
    let (a, b) = (o.watch.sessions, o.created_sessions);
    assert(managed.contains(id) <==> a.contains(id) || b.contains(id)) by {
        if a.contains(id) {
            let k = choose|k: int| 0 <= k < a.len() && a[k] == id;
            assert(managed[k] == id);
        }
        if b.contains(id) {
            let k = choose|k: int| 0 <= k < b.len() && b[k] == id;
            assert(managed[a.len() + k] == id);
        }
    }
    if ids.contains(id) {
        let k = choose|k: int| 0 <= k < ids.len() && ids[k] == id;
        assert(docs[k].text_at("session_id"@) == Some(id));
    }
    if tells_of(doc, id) {
        let i = choose|i: int|
            0 <= i < docs.len() && (#[trigger] docs[i]).text_at("session_id"@) == Some(id);
        assert(ids[i] == id);
    }
}

/// A session that a brain creates is watched from then on, unless the
/// orchestrator is set not to.
pub proof fn created_sessions_are_watched(
    o: OrchestratorView,
    id: Seq<char>,
    name: Seq<char>,
    hat: Option<Seq<char>>,
    responsibilities: Seq<char>,
    ts: Seq<char>,
)
    requires
        o.watch.auto_watch_created,
    ensures
        orch_tools::spawned(o, id, name, hat, responsibilities, ts).watches_session(id),
{
    pushed_text_is_there(o.created_sessions, id, id);
}

// ── Creating ──────────────────────────────────────────────────────────

/// A created session counts, and the count stays within the cap.
pub proof fn created_sessions_are_capped(
    o: OrchestratorView,
    id: Seq<char>,
    name: Seq<char>,
    hat: Option<Seq<char>>,
    responsibilities: Seq<char>,
    ts: Seq<char>,
)
    requires
        !orch_tools::sessions_capped(o),
    ensures
        orch_tools::spawned(o, id, name, hat, responsibilities, ts).stats.sessions_created
            == o.stats.sessions_created + 1,
        orch_tools::spawned(o, id, name, hat, responsibilities, ts).stats.sessions_created
            <= o.caps.max_sessions_created,
{
}

/// At the cap no session is created: the refusal comes before the host is
/// asked for one.
pub proof fn no_session_is_created_at_the_cap(
    name: Seq<char>,
    model: Option<Seq<char>>,
    hat: Option<Seq<char>>,
    responsibilities: Seq<char>,
    s: Script,
    o: OrchestratorView,
)
    requires
        orch_tools::caller_orchestrator_run(s).1 == Some(
            Ok::<Option<OrchestratorView>, Seq<char>>(Some(o)),
        ),
        orch_tools::sessions_capped(o),
    ensures
        orch_tools::create_leased_run(name, model, hat, responsibilities, s) == (
            orch_tools::caller_orchestrator_run(s).0,
            Some(Err::<JsonView, Seq<char>>(orch_tools::cap_text(o))),
        ),
{
}

// ── Hats ──────────────────────────────────────────────────────────────

/// The hat that a session was given last is the one it wears; other sessions
/// keep theirs.
pub proof fn last_hat_is_worn(
    o: OrchestratorView,
    id: Seq<char>,
    hat: Seq<char>,
    responsibilities: Seq<char>,
    ts: Seq<char>,
    other: Seq<char>,
)
    ensures
        orch_tools::hat_assigned(o, id, hat, responsibilities, ts).hats[id] == (HatView {
            hat,
            responsibilities,
            assigned_at: ts,
        }),
        other != id && o.hats.dom().contains(other) ==> orch_tools::hat_assigned(
            o,
            id,
            hat,
            responsibilities,
            ts,
        ).hats[other] == o.hats[other],
{
}

// ── Reporting ─────────────────────────────────────────────────────────

/// Three names are different.
proof fn states_differ()
    ensures
        "in_progress"@ != "done"@,
        "blocked"@ != "done"@,
{
    reveal_strlit("in_progress");
    reveal_strlit("blocked");
    reveal_strlit("done");
    assert("in_progress"@.len() != "done"@.len());
    assert("blocked"@.len() != "done"@.len());
}

/// A report names a state of the three, has a percentage up to a hundred, and
/// an estimate unless the goal is done.
pub proof fn reports_are_complete(args: JsonView)
    ensures
        orch_tools::report_of(args) matches Ok(r) ==> orch_tools::goal_state(r.state) && (
        r.percent matches Some(p) ==> p <= 100) && (args.u64_at("eta_minutes"@) is Some || (r.state
            == "done"@ && r.eta_minutes == 0)),
{
}

/// While the goal is not done, a report without an estimate is refused, and
/// nothing is asked of the host.
pub proof fn estimate_is_required_while_not_done(args: JsonView, s: Script)
    requires
        control::filled(args, "state"@) == Some("in_progress"@) || control::filled(
            args,
            "state"@,
        ) == Some("blocked"@),
        args.u64_at("eta_minutes"@) is None,
    ensures
        orch_tools::update_goal_status_run(args, s) == (
            s,
            Some(Err::<JsonView, Seq<char>>(orch_tools::NO_ETA@)),
        ),
{
    states_differ();
}

/// What was reported is what the record says.
pub proof fn report_is_recorded(
    o: OrchestratorView,
    r: ReportView,
    projected_at: Seq<char>,
    ts: Seq<char>,
)
    ensures
        ({
            let p = orch_tools::reported(o, r, projected_at, ts);
            &&& p.goal_status.state == r.state
            &&& p.goal_status.note == r.note
            &&& p.goal_status.percent == r.percent
            &&& p.goal_status.eta matches Some(e) && e.minutes_remaining == r.eta_minutes
            &&& p.eta_history.last() == engine::eta_sample(ts, r.eta_minutes, r.percent)
            &&& p.stats.actions == o.stats.actions.wrapping_add(1)
        }),
{
}

// ── Who may ───────────────────────────────────────────────────────────

/// The orchestrator of a brain is one whose brain it is; where none is found,
/// there is none.
pub proof fn brain_finds_its_orchestrator(orchs: Seq<OrchestratorView>, brain: Seq<char>)
    ensures
        match orch_tools::with_brain(orchs, brain) {
            Some(o) => orchs.contains(o) && o.session_id == Some(brain),
            None => forall|i: int|
                0 <= i < orchs.len() ==> (#[trigger] orchs[i]).session_id != Some(brain),
        },
    decreases orchs.len(),
{
    if orchs.len() > 0 && orchs[0].session_id != Some(brain) {
        let rest = orchs.skip(1);
        brain_finds_its_orchestrator(rest, brain);
        match orch_tools::with_brain(rest, brain) {
            Some(o) => {
                let k = choose|k: int| 0 <= k < rest.len() && rest[k] == o;
                assert(orchs[k + 1] == o);
            },
            None => {
                assert forall|i: int| 0 <= i < orchs.len() implies (
                #[trigger] orchs[i]).session_id != Some(brain) by {
                    if i > 0 {
                        assert(orchs[i] == rest[i - 1]);
                    }
                }
            },
        }
    } else if orchs.len() > 0 {
        assert(orchs[0].session_id == Some(brain));
        assert(orchs.contains(orchs[0]));
    }
}

/// A caller that is no brain is refused by the tools for brains, and no record
/// is stored.
pub proof fn others_are_refused(
    id: Seq<char>,
    watch: bool,
    report: ReportView,
    summary: Seq<char>,
    s: Script,
)
    requires
        orch_tools::caller_orchestrator_run(s).1 == Some(
            Ok::<Option<OrchestratorView>, Seq<char>>(None),
        ),
    ensures
        ({
            let refusal = (
                orch_tools::caller_orchestrator_run(s).0,
                Some(Err::<JsonView, Seq<char>>(orch_tools::NO_BRAIN@)),
            );
            &&& orch_tools::watch_leased_run(id, watch, s) == refusal
            &&& orch_tools::report_leased_run(report, s) == refusal
            &&& orch_tools::summary_leased_run(summary, s) == refusal
            &&& orch_tools::list_managed_sessions_run(s) == refusal
        }),
{
}

/// An argument that is missing or blank is refused by name before anything is
/// asked of the host.
pub proof fn blank_arguments_are_refused(args: JsonView, watch: bool, s: Script)
    ensures
        control::filled(args, "name"@) is None ==> orch_tools::create_session_run(args, s) == (
            s,
            Some(Err::<JsonView, Seq<char>>(control::missing("name"@))),
        ),
        control::filled(args, "session_id"@) is None ==> {
            let refusal = (
                s,
                Some(Err::<JsonView, Seq<char>>(control::missing("session_id"@))),
            );
            &&& orch_tools::watch_session_run(args, watch, s) == refusal
            &&& orch_tools::assign_hat_run(args, s) == refusal
            &&& control::send_message_run(args, s) == refusal
            &&& control::send_image_run(args, s) == refusal
        },
        control::filled(args, "summary"@) is None ==> orch_tools::orchestrator_report_run(args, s)
            == (s, Some(Err::<JsonView, Seq<char>>(control::missing("summary"@)))),
        control::filled(args, "state"@) is None ==> orch_tools::update_goal_status_run(args, s) == (
            s,
            Some(Err::<JsonView, Seq<char>>(control::missing("state"@))),
        ),
{
}

/// Where another instance holds the lease, the tools that change a record are
/// refused, and ask nothing more.
pub proof fn contended_lease_is_a_refusal(args: JsonView, watch: bool, s: Script)
    requires
        s.left.len() >= 1,
        s.left[0] == ReplyView::Lease(false),
    ensures
        ({
            let refusal = (
                Script { left: s.left.skip(1), asked: s.asked.push(RequestView::AcquireLease) },
                Some(Err::<JsonView, Seq<char>>(state::BUSY_MSG@)),
            );
            &&& control::filled(args, "name"@) is Some ==> orch_tools::create_session_run(args, s)
                == refusal
            &&& control::filled(args, "session_id"@) is Some ==> orch_tools::watch_session_run(
                args,
                watch,
                s,
            ) == refusal
            &&& control::filled(args, "summary"@) is Some ==> orch_tools::orchestrator_report_run(
                args,
                s,
            ) == refusal
            &&& orch_tools::report_of(args) is Ok ==> orch_tools::update_goal_status_run(args, s)
                == refusal
        }),
{
}

} // verus!

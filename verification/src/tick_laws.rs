//! When orchestrators fire: on a tick, at the end of a turn, and by hand.

use vstd::prelude::*;

use crate::control_laws;
use crate::engine::{self, TriggerView};
use crate::host::{HostFn, ReplyView, RequestView, Script};
use crate::json::{self, JsonView};
use crate::records::{OrchestratorView, PendingView, StatsView};
use crate::state;
use crate::store_laws;
use crate::time;

verus! {

// ── What is due ───────────────────────────────────────────────────────

/// A schedule is due where it has never been, where its slot has come, and
/// where its slot cannot be read; without a schedule nothing is due.
pub proof fn schedules_are_due_from_their_slot_on(o: OrchestratorView, now: Seq<char>)
    ensures
        o.schedule.every_minutes is None ==> !engine::slot_due(o, now),
        o.schedule.every_minutes is Some && o.stats.next_due_at is None ==> engine::slot_due(o, now),
        o.schedule.every_minutes is Some ==> (o.stats.next_due_at matches Some(due) ==> (
        match time::seconds(due, now) {
            Some(late) => engine::slot_due(o, now) <==> late >= 0,
            None => engine::slot_due(o, now),
        })),
{
}

/// The request for a busy mark.
pub open spec fn mark_of(id: Seq<char>) -> RequestView {
    store_laws::call_of(
        HostFn::StoreGet,
        map!["collection"@ => JsonView::Text("busy"@), "key"@ => JsonView::Text(id)],
    )
}

/// A brain is idle where there is none, and where its mark is not fresh.
pub proof fn brains_are_idle_unless_marked(
    o: OrchestratorView,
    now: Seq<char>,
    s: Script,
    brain: Seq<char>,
    out: JsonView,
    e: Seq<char>,
)
    ensures
        o.session_id is None ==> engine::brain_is_idle_run(o, now, s) == (s, Some(true)),
        o.session_id == Some(brain) ==> {
            let run = engine::brain_is_idle_run(o, now, s);
            &&& run.0.asked == s.asked.push(mark_of(brain))
            &&& store_laws::next_is(s, Ok(out)) ==> run == (
                store_laws::after(s, mark_of(brain)),
                Some(!store_laws::marks_busy(out, now)),
            )
            &&& store_laws::next_is(s, Err(e)) ==> run == (store_laws::after(s, mark_of(brain)), Some(true))
        },
{
}

/// The watchdog of an open goal is due exactly where the last fire lies its
/// minutes back, or more, and the brain is idle; before that it is not looked
/// at. A time that cannot be read is never due.
pub proof fn watchdogs_bite_after_their_minutes(
    o: OrchestratorView,
    now: Seq<char>,
    s: Script,
    last: Seq<char>,
)
    requires
        o.goal_status.state != "done"@,
        0 < o.watchdog_minutes,
        o.watchdog_minutes * 60 <= i64::MAX,
        o.stats.last_fired_at == Some(last),
    ensures
        match time::seconds(last, now) {
            Some(age) => if age >= o.watchdog_minutes * 60 {
                engine::watchdog_due_run(o, now, s) == engine::brain_is_idle_run(o, now, s)
            } else {
                engine::watchdog_due_run(o, now, s) == (s, Some(false))
            },
            None => engine::watchdog_due_run(o, now, s) == (s, Some(false)),
        },
{
}

// ── Ticks ─────────────────────────────────────────────────────────────

/// What is delivered of a queue: everything that waits, as one trigger, and the
/// queue is empty while it is.
pub proof fn queues_are_delivered_whole(o: OrchestratorView, now: Seq<char>, s: Script)
    ensures
        engine::flush_run(o, now, s) == engine::fire_and_save_run(
            OrchestratorView { pending_triggers: Seq::<PendingView>::empty(), ..o },
            TriggerView {
                kind: "coalesced"@,
                session_id: None,
                session_name: None,
                outcome: None,
                pending: o.pending_triggers,
            },
            now,
            s,
        ),
{
}

/// A fire by the schedule sets the next slot its minutes ahead of now, before
/// the guards are asked.
pub proof fn schedules_set_their_next_slot(
    o: OrchestratorView,
    now: Seq<char>,
    s: Script,
    minutes: u64,
)
    requires
        o.schedule.every_minutes == Some(minutes),
        minutes <= i64::MAX,
    ensures
        time::minutes_fit(now, minutes as int) ==> engine::scheduled_run(o, now, s)
            == engine::fire_and_save_run(
            OrchestratorView {
                stats: StatsView {
                    next_due_at: Some(time::later_text(now, minutes as int)),
                    ..o.stats
                },
                ..o
            },
            TriggerView {
                kind: "schedule"@,
                session_id: None,
                session_name: None,
                outcome: None,
                pending: Seq::empty(),
            },
            now,
            s,
        ),
        !time::minutes_fit(now, minutes as int) ==> engine::scheduled_run(o, now, s).1 is None
            && engine::scheduled_run(o, now, s).0.asked.last() is Abort,
{
}

/// On a tick an orchestrator that is switched on does one thing: what waits is
/// delivered where the brain is idle, else the schedule fires where it is due,
/// else the watchdog where it bites.
pub proof fn ticks_do_one_thing(
    o: OrchestratorView,
    now: Seq<char>,
    s: Script,
    t: Script,
    u: Script,
    free: bool,
    bites: bool,
)
    requires
        o.enabled,
        !o.paused,
    ensures
        o.pending_triggers.len() > 0 && engine::brain_is_idle_run(o, now, s) == (t, Some(true))
            ==> engine::tick_one_run(o, now, s) == engine::flush_run(o, now, t),
        (o.pending_triggers.len() == 0 && t == s || o.pending_triggers.len() > 0
            && engine::brain_is_idle_run(o, now, s) == (t, Some(false))) ==> {
            &&& engine::slot_due(o, now) ==> engine::tick_one_run(o, now, s)
                == engine::scheduled_run(o, now, t)
            &&& !engine::slot_due(o, now) && engine::watchdog_due_run(o, now, t) == (u, Some(true))
                ==> engine::tick_one_run(o, now, s) == engine::fire_and_save_run(
                o,
                TriggerView {
                    kind: "watchdog"@,
                    session_id: None,
                    session_name: None,
                    outcome: None,
                    pending: Seq::empty(),
                },
                now,
                u,
            )
            &&& !engine::slot_due(o, now) && engine::watchdog_due_run(o, now, t) == (
                u,
                Some(false),
            ) ==> engine::tick_one_run(o, now, s) == (u, Some(Ok::<bool, Seq<char>>(false)))
        },
{
    reveal(engine::tick_one_run);
}

/// A walk over orchestrators is the walk over the first of them, and then over
/// the others with what that left; an error ends it. It counts the prompts that
/// were sent.
pub proof fn walks_look_at_every_orchestrator(
    o: OrchestratorView,
    rest: Seq<OrchestratorView>,
    now: Seq<char>,
    fired: u32,
    s: Script,
)
    requires
        fired < u32::MAX,
    ensures
        engine::tick_walk_run(Seq::empty(), now, fired, s) == (
            s,
            Some(Ok::<u32, Seq<char>>(fired)),
        ),
        ({
            let run = engine::tick_walk_run(seq![o] + rest, now, fired, s);
            let (t, r) = engine::tick_one_run(o, now, s);
            match r {
                None => run == (t, None::<Result<u32, Seq<char>>>),
                Some(Err(e)) => run == (t, Some(Err::<u32, Seq<char>>(e))),
                Some(Ok(true)) => run == engine::tick_walk_run(rest, now, (fired + 1) as u32, t),
                Some(Ok(false)) => run == engine::tick_walk_run(rest, now, fired, t),
            }
        }),
{
    assert((seq![o] + rest).skip(1) =~= rest);
}

/// The question for the kill switch.
pub open spec fn switch_read() -> RequestView {
    store_laws::call_of(
        HostFn::StoreGet,
        map![
            "collection"@ => JsonView::Text("engine"@),
            "key"@ => JsonView::Text("pause_all"@)
        ],
    )
}

/// Whether the kill switch is read as on.
pub open spec fn switched_on(r: Result<JsonView, Seq<char>>) -> bool {
    r matches Ok(out) && out.get("value"@) matches Some(doc) && doc.get("paused"@) == Some(
        JsonView::Bool(true),
    )
}

/// A tick stores its time, looks at the kill switch and takes the lease, in this
/// order, and then walks over every orchestrator; it tells how many prompts
/// were sent, or what held it back. The lease is given back.
pub proof fn ticks_walk_under_the_lease(
    payload: JsonView,
    now: Seq<char>,
    s: Script,
    r: Result<JsonView, Seq<char>>,
)
    requires
        payload.get("now"@) == Some(JsonView::Text(now)),
        s.left.len() >= 3,
        s.left[0] is Host,
        s.left[1] == ReplyView::Host(r),
        s.left[2] is Lease,
    ensures
        ({
            let run = engine::on_timer_tick_run(payload, s);
            let clock = store_laws::call_of(
                HostFn::StorePut,
                map![
                    "collection"@ => JsonView::Text("engine"@),
                    "key"@ => JsonView::Text("clock"@),
                    "data"@ => JsonView::Object(map!["now"@ => JsonView::Text(now)])
                ],
            );
            let looked = Script {
                left: s.left.skip(2),
                asked: s.asked.push(clock).push(switch_read()),
            };
            let leased = Script {
                left: s.left.skip(3),
                asked: looked.asked.push(RequestView::AcquireLease),
            };
            let ok = JsonView::Bool(true);
            if switched_on(r) {
                run == (
                    looked,
                    Some(
                        Ok::<JsonView, Seq<char>>(
                            JsonView::Object(map!["ok"@ => ok, "paused"@ => ok]),
                        ),
                    ),
                )
            } else if s.left[2] == ReplyView::Lease(false) {
                run == (
                    leased,
                    Some(
                        Ok::<JsonView, Seq<char>>(
                            JsonView::Object(
                                map!["ok"@ => ok, "skipped"@ => JsonView::Text("busy"@)],
                            ),
                        ),
                    ),
                )
            } else {
                let (t, listed) = state::list_orchestrators_run(leased);
                &&& listed matches Some(Ok(orchs)) ==> {
                    let (u, walked) = engine::tick_walk_run(orchs, now, 0, t);
                    &&& walked matches Some(Ok(fired)) ==> run.0.asked == u.asked.push(
                        RequestView::ReleaseLease,
                    ) && (run.1 matches Some(answer) ==> answer == Ok::<JsonView, Seq<char>>(
                        JsonView::Object(
                            map!["ok"@ => ok, "fired"@ => json::uint_view(fired as u64)],
                        ),
                    ))
                    &&& walked matches Some(Err(e)) ==> run.0.asked == u.asked.push(
                        RequestView::ReleaseLease,
                    ) && (run.1 matches Some(answer) ==> answer == Err::<JsonView, Seq<char>>(e))
                    &&& u.left.len() > 0 && u.left[0] == ReplyView::Released && walked is Some
                        ==> run.1 is Some
                }
                &&& listed matches Some(Err(e)) ==> run.0.asked == t.asked.push(
                    RequestView::ReleaseLease,
                ) && (run.1 matches Some(answer) ==> answer == Err::<JsonView, Seq<char>>(e))
            }
        }),
{
    control_laws::chained(s.left);
}

/// A tick without a time is refused, and asks nothing.
pub proof fn ticks_need_a_time(payload: JsonView, s: Script)
    requires
        !(payload.get("now"@) matches Some(JsonView::Text(_))),
    ensures
        engine::on_timer_tick_run(payload, s) == (
            s,
            Some(Err::<JsonView, Seq<char>>("timer.tick payload missing 'now'"@)),
        ),
{
}

// ── The end of a turn ─────────────────────────────────────────────────

/// At the end of its own turn a brain is given what waits for it, and is left
/// alone where nothing does.
pub proof fn brains_get_what_waited(
    o: OrchestratorView,
    session_id: Seq<char>,
    t: TriggerView,
    now: Seq<char>,
    folder: Option<Option<Seq<char>>>,
    s: Script,
)
    requires
        o.enabled,
        !o.paused,
        o.session_id == Some(session_id),
    ensures
        o.pending_triggers.len() == 0 ==> engine::ended_one_run(
            o,
            session_id,
            t,
            now,
            folder,
            s,
        ) == (s, Some((folder, Ok::<bool, Seq<char>>(false)))),
        o.pending_triggers.len() > 0 ==> {
            let run = engine::ended_one_run(o, session_id, t, now, folder, s);
            let (u, r) = engine::flush_run(o, now, s);
            &&& run.0 == u
            &&& r matches Some(r) ==> run.1 == Some((folder, r))
            &&& r is None ==> run.1 is None
        },
{
    reveal(engine::ended_one_run);
}

/// The end of a turn fires an orchestrator that watches the session, whether
/// the session stands in its watch list or is one that it created, and whatever
/// the folders are: it fires, and is saved.
pub proof fn watched_sessions_fire(
    o: OrchestratorView,
    session_id: Seq<char>,
    t: TriggerView,
    now: Seq<char>,
    folder: Option<Option<Seq<char>>>,
    s: Script,
)
    requires
        o.enabled,
        !o.paused,
        o.session_id != Some(session_id),
        (exists|i: int|
            0 <= i < o.watch.sessions.len() && #[trigger] o.watch.sessions[i] == session_id) || (
        exists|i: int|
            0 <= i < o.created_sessions.len() && #[trigger] o.created_sessions[i] == session_id),
    ensures
        ({
            let run = engine::ended_one_run(o, session_id, t, now, folder, s);
            let (u, r) = engine::fire_and_save_run(o, t, now, s);
            &&& run.0 == u
            &&& r matches Some(r) ==> run.1 == Some((folder, r))
            &&& r is None ==> run.1 is None
        }),
{
    reveal(engine::ended_one_run);
}

/// The question for the folder of a session.
pub open spec fn folder_read(session_id: Seq<char>) -> RequestView {
    store_laws::call_of(HostFn::OrchestrateSessionState, map!["session_id"@ => JsonView::Text(session_id)])
}

/// The folder in what the host says of a session.
pub open spec fn folder_said(r: Result<JsonView, Seq<char>>) -> Option<Seq<char>> {
    match r {
        Ok(st) => match st.get("session"@) {
            Some(session) => match session.get("folder_id"@) {
                Some(JsonView::Text(folder)) => Some(folder),
                _ => None,
            },
            None => None,
        },
        Err(_) => None,
    }
}

/// A session that is not watched by itself fires an orchestrator that watches
/// its folder, and no other. The folder is asked for where it is not known
/// yet, and known to the orchestrators behind.
pub proof fn watched_folders_fire(
    o: OrchestratorView,
    session_id: Seq<char>,
    t: TriggerView,
    now: Seq<char>,
    known: Option<Seq<char>>,
    r: Result<JsonView, Seq<char>>,
    s: Script,
)
    requires
        o.enabled,
        !o.paused,
        o.session_id != Some(session_id),
        forall|i: int|
            0 <= i < o.watch.sessions.len() ==> #[trigger] o.watch.sessions[i] != session_id,
        forall|i: int|
            0 <= i < o.created_sessions.len() ==> #[trigger] o.created_sessions[i] != session_id,
    ensures
        ({
            let fires = |folder: Option<Seq<char>>, u: Script, run: (
                Script,
                Option<(Option<Option<Seq<char>>>, Result<bool, Seq<char>>)>,
            )|
                {
                    let watched = folder is Some && exists|i: int|
                        0 <= i < o.watch.folders.len() && #[trigger] o.watch.folders[i]
                            == folder->0;
                    let (v, fired) = engine::fire_and_save_run(o, t, now, u);
                    &&& !watched ==> run == (u, Some((Some(folder), Ok::<bool, Seq<char>>(false))))
                    &&& watched ==> run.0 == v
                    &&& watched && fired is Some ==> run.1 == Some((Some(folder), fired->0))
                    &&& watched && fired is None ==> run.1 is None
                };
            &&& o.watch.folders.len() == 0 ==> forall|folder: Option<Option<Seq<char>>>| #[trigger]
                engine::ended_one_run(o, session_id, t, now, folder, s) == (
                    s,
                    Some((folder, Ok::<bool, Seq<char>>(false))),
                )
            &&& o.watch.folders.len() > 0 ==> fires(
                known,
                s,
                engine::ended_one_run(o, session_id, t, now, Some(known), s),
            )
            &&& o.watch.folders.len() > 0 && store_laws::next_is(s, r) ==> fires(
                folder_said(r),
                store_laws::after(s, folder_read(session_id)),
                engine::ended_one_run(o, session_id, t, now, None, s),
            )
        }),
{
    reveal(engine::ended_one_run);
}

/// The walk at the end of a turn looks at every orchestrator in order, with
/// what has become known of the folder; an error ends it.
pub proof fn every_orchestrator_hears_of_the_end(
    o: OrchestratorView,
    rest: Seq<OrchestratorView>,
    session_id: Seq<char>,
    t: TriggerView,
    now: Seq<char>,
    folder: Option<Option<Seq<char>>>,
    s: Script,
)
    ensures
        engine::ended_walk_run(Seq::empty(), session_id, t, now, folder, s) == (
            s,
            Some(Ok::<(), Seq<char>>(())),
        ),
        ({
            let run = engine::ended_walk_run(seq![o] + rest, session_id, t, now, folder, s);
            let (u, r) = engine::ended_one_run(o, session_id, t, now, folder, s);
            match r {
                None => run == (u, None::<Result<(), Seq<char>>>),
                Some((_, Err(e))) => run == (u, Some(Err::<(), Seq<char>>(e))),
                Some((known, Ok(_))) => run == engine::ended_walk_run(
                    rest,
                    session_id,
                    t,
                    now,
                    known,
                    u,
                ),
            }
        }),
{
    assert((seq![o] + rest).skip(1) =~= rest);
}

/// The text under `key`, or `default` where there is none.
pub open spec fn text_or(doc: JsonView, key: Seq<char>, default: Seq<char>) -> Seq<char> {
    match doc.get(key) {
        Some(JsonView::Text(v)) => v,
        _ => default,
    }
}

/// At the end of a turn the busy mark of the session goes first. Then, where
/// the clock runs and nothing is paused, every orchestrator hears of it under
/// the lease: the session, its name, which is its id where there is none, and
/// how the turn ended, which is `completed` where that is not said.
pub proof fn ended_turns_are_told(
    payload: JsonView,
    session_id: Seq<char>,
    now: Seq<char>,
    s: Script,
    out: JsonView,
    r: Result<JsonView, Seq<char>>,
)
    requires
        payload.get("session_id"@) == Some(JsonView::Text(session_id)),
        session_id.len() > 0,
        s.left.len() >= 4,
        s.left[0] is Host,
        s.left[1] == ReplyView::Host(Ok(out)),
        out.get("value"@) matches Some(doc) && doc.get("now"@) == Some(JsonView::Text(now)),
        now.len() > 0,
        s.left[2] == ReplyView::Host(r),
        s.left[3] is Lease,
    ensures
        ({
            let run = engine::on_agent_ended_run(payload, s);
            let gone = store_laws::call_of(
                HostFn::StoreDelete,
                map!["collection"@ => JsonView::Text("busy"@), "key"@ => JsonView::Text(session_id)],
            );
            let clock = store_laws::call_of(
                HostFn::StoreGet,
                map![
                    "collection"@ => JsonView::Text("engine"@),
                    "key"@ => JsonView::Text("clock"@)
                ],
            );
            let looked = s.asked.push(gone).push(clock).push(switch_read());
            let leased = Script {
                left: s.left.skip(4),
                asked: looked.push(RequestView::AcquireLease),
            };
            let ok = JsonView::Bool(true);
            let t = TriggerView {
                kind: "session_idle"@,
                session_id: Some(session_id),
                session_name: Some(text_or(payload, "session_name"@, session_id)),
                outcome: Some(text_or(payload, "outcome"@, "completed"@)),
                pending: Seq::empty(),
            };
            if switched_on(r) {
                &&& run.0.asked == looked
                &&& run.1 == Some(
                    Ok::<JsonView, Seq<char>>(JsonView::Object(map!["ok"@ => ok])),
                )
            } else if s.left[3] == ReplyView::Lease(false) {
                &&& run.0 == leased
                &&& run.1 == Some(
                    Ok::<JsonView, Seq<char>>(
                        JsonView::Object(
                            map!["ok"@ => ok, "skipped"@ => JsonView::Text("busy"@)],
                        ),
                    ),
                )
            } else {
                let (u, listed) = state::list_orchestrators_run(leased);
                &&& listed matches Some(Ok(orchs)) ==> {
                    let (v, walked) = engine::ended_walk_run(orchs, session_id, t, now, None, u);
                    &&& walked is Some ==> run.0.asked == v.asked.push(RequestView::ReleaseLease)
                    &&& walked matches Some(Ok(_)) ==> (run.1 matches Some(answer) ==> answer
                        == Ok::<JsonView, Seq<char>>(
                        JsonView::Object(map!["ok"@ => ok, "skipped"@ => JsonView::Null]),
                    ))
                    &&& walked matches Some(Err(e)) ==> (run.1 matches Some(answer) ==> answer
                        == Err::<JsonView, Seq<char>>(e))
                    &&& v.left.len() > 0 && v.left[0] == ReplyView::Released && walked is Some
                        ==> run.1 is Some
                }
                &&& listed matches Some(Err(e)) ==> run.0.asked == u.asked.push(
                    RequestView::ReleaseLease,
                )
            }
        }),
{
    control_laws::chained(s.left);
}

/// The end of a turn of no session is passed over. Before the first tick only
/// the busy mark goes.
pub proof fn ends_without_session_or_clock(
    payload: JsonView,
    session_id: Seq<char>,
    s: Script,
    r: Result<JsonView, Seq<char>>,
)
    ensures
        text_or(payload, "session_id"@, Seq::empty()).len() == 0 ==> engine::on_agent_ended_run(
            payload,
            s,
        ) == (
            s,
            Some(
                Ok::<JsonView, Seq<char>>(JsonView::Object(map!["ok"@ => JsonView::Bool(true)])),
            ),
        ),
        payload.get("session_id"@) == Some(JsonView::Text(session_id)) && session_id.len() > 0
            && s.left.len() >= 2 && s.left[0] is Host && s.left[1] == ReplyView::Host(r) && !(
        r matches Ok(out) && out.get("value"@) matches Some(doc) && doc.get("now"@) matches Some(
            JsonView::Text(_),
        )) ==> engine::on_agent_ended_run(payload, s).0.asked.len() == s.asked.len() + 2
            && engine::on_agent_ended_run(payload, s).1 == Some(
            Ok::<JsonView, Seq<char>>(JsonView::Object(map!["ok"@ => JsonView::Bool(true)])),
        ),
{
    reveal_strlit("");
    assert(""@.len() == 0);
    assert(""@ =~= Seq::empty());
}

/// The start of a user's turn marks its session as busy, from the time of the
/// clock on; without a clock, or without a session, nothing is marked.
pub proof fn started_turns_are_marked(
    payload: JsonView,
    session_id: Seq<char>,
    now: Seq<char>,
    s: Script,
    out: JsonView,
)
    requires
        payload.get("session_id"@) == Some(JsonView::Text(session_id)),
        s.left.len() >= 2,
        s.left[0] == ReplyView::Host(Ok(out)),
        out.get("value"@) matches Some(doc) && doc.get("now"@) == Some(JsonView::Text(now)),
        now.len() > 0,
        s.left[1] is Host,
    ensures
        engine::on_message_before_run(payload, s).0.asked == s.asked.push(
            store_laws::call_of(
                HostFn::StoreGet,
                map![
                    "collection"@ => JsonView::Text("engine"@),
                    "key"@ => JsonView::Text("clock"@)
                ],
            ),
        ).push(
            store_laws::call_of(
                HostFn::StorePut,
                map![
                    "collection"@ => JsonView::Text("busy"@),
                    "key"@ => JsonView::Text(session_id),
                    "data"@ => JsonView::Object(
                        map!["busy"@ => JsonView::Bool(true), "since"@ => JsonView::Text(now)],
                    )
                ],
            ),
        ),
        engine::on_message_before_run(payload, s).1 == Some(Ok::<(), Seq<char>>(())),
{
    control_laws::chained(s.left);
}

/// Before the first tick a turn leaves no mark.
pub proof fn starts_without_clock_leave_no_mark(
    payload: JsonView,
    session_id: Seq<char>,
    s: Script,
    r: Result<JsonView, Seq<char>>,
)
    requires
        payload.get("session_id"@) == Some(JsonView::Text(session_id)),
        store_laws::next_is(s, r),
        !(r matches Ok(out) && out.get("value"@) matches Some(doc) && doc.get("now"@) matches Some(
            JsonView::Text(_),
        )),
    ensures
        engine::on_message_before_run(payload, s) == (
            store_laws::after(
                s,
                store_laws::call_of(
                    HostFn::StoreGet,
                    map![
                        "collection"@ => JsonView::Text("engine"@),
                        "key"@ => JsonView::Text("clock"@)
                    ],
                ),
            ),
            Some(Ok::<(), Seq<char>>(())),
        ),
{
    reveal_strlit("");
    assert(""@.len() == 0);
}

/// A turn of no session is passed over.
pub proof fn starts_without_session_are_passed_over(payload: JsonView, s: Script)
    requires
        !(payload.get("session_id"@) matches Some(JsonView::Text(_))),
    ensures
        engine::on_message_before_run(payload, s) == (s, Some(Ok::<(), Seq<char>>(()))),
{
}

// ── By hand ───────────────────────────────────────────────────────────

/// A manual run fires the record with the id, as set off by hand and at the time
/// of the clock, saves it, and tells whether a prompt was sent; one that is
/// switched off or paused is left alone, and a record that does not exist is
/// told by its id.
pub proof fn manual_runs_fire(
    id: Seq<char>,
    now: Seq<char>,
    s: Script,
    o: OrchestratorView,
    u: Script,
    e: Seq<char>,
)
    ensures
        state::load_orchestrator_run(id, s) == (
            u,
            Some(Ok::<Option<OrchestratorView>, Seq<char>>(None)),
        ) ==> engine::run_leased_run(id, now, s) == (
            u,
            Some(Err::<JsonView, Seq<char>>("orchestrator not found: "@ + id)),
        ),
        state::load_orchestrator_run(id, s) == (
            u,
            Some(Err::<Option<OrchestratorView>, Seq<char>>(e)),
        ) ==> engine::run_leased_run(id, now, s) == (u, Some(Err::<JsonView, Seq<char>>(e))),
        state::load_orchestrator_run(id, s) == (
            u,
            Some(Ok::<Option<OrchestratorView>, Seq<char>>(Some(o))),
        ) && (!o.enabled || o.paused) ==> engine::run_leased_run(id, now, s) == (
            u,
            Some(
                Ok::<JsonView, Seq<char>>(
                    JsonView::Object(
                        map!["ok"@ => JsonView::Bool(true), "sent"@ => JsonView::Bool(false)],
                    ),
                ),
            ),
        ),
        state::load_orchestrator_run(id, s) == (
            u,
            Some(Ok::<Option<OrchestratorView>, Seq<char>>(Some(o))),
        ) && o.enabled && !o.paused ==> {
            let run = engine::run_leased_run(id, now, s);
            let (v, r) = engine::fire_and_save_run(
                o,
                TriggerView {
                    kind: "manual"@,
                    session_id: None,
                    session_name: None,
                    outcome: None,
                    pending: Seq::empty(),
                },
                now,
                u,
            );
            &&& run.0 == v
            &&& r matches Some(Ok(sent)) ==> run.1 == Some(
                Ok::<JsonView, Seq<char>>(
                    JsonView::Object(
                        map!["ok"@ => JsonView::Bool(true), "sent"@ => JsonView::Bool(sent)],
                    ),
                ),
            )
            &&& r matches Some(Err(e)) ==> run.1 == Some(Err::<JsonView, Seq<char>>(e))
            &&& r is None ==> run.1 is None
        },
{
}

/// A manual run works at the time of the clock, under the lease, where the kill
/// switch is off; without a clock it is refused.
pub proof fn manual_runs_need_clock_and_lease(
    id: Seq<char>,
    s: Script,
    out: JsonView,
    now: Seq<char>,
    r: Result<JsonView, Seq<char>>,
)
    requires
        s.left.len() >= 3,
        s.left[0] == ReplyView::Host(Ok(out)),
        s.left[1] == ReplyView::Host(r),
        s.left[2] is Lease,
    ensures
        ({
            let clock = store_laws::call_of(
                HostFn::StoreGet,
                map![
                    "collection"@ => JsonView::Text("engine"@),
                    "key"@ => JsonView::Text("clock"@)
                ],
            );
            let run = engine::run_now_run(id, s);
            let leased = Script {
                left: s.left.skip(3),
                asked: s.asked.push(clock).push(switch_read()).push(RequestView::AcquireLease),
            };
            &&& out.get("value"@) is None ==> run == (
                store_laws::after(s, clock),
                Some(
                    Err::<JsonView, Seq<char>>(
                        "no engine clock yet — wait for the first timer tick"@,
                    ),
                ),
            )
            &&& (out.get("value"@) matches Some(doc) && doc.get("now"@) == Some(
                JsonView::Text(now),
            )) && switched_on(r) ==> {
                &&& run.0.asked == s.asked.push(clock).push(switch_read())
                &&& run.1 == Some(
                    Ok::<JsonView, Seq<char>>(
                        JsonView::Object(
                            map!["ok"@ => JsonView::Bool(true), "sent"@ => JsonView::Bool(false)],
                        ),
                    ),
                )
            }
            &&& (out.get("value"@) matches Some(doc) && doc.get("now"@) == Some(
                JsonView::Text(now),
            )) && !switched_on(r) ==> {
                &&& s.left[2] == ReplyView::Lease(false) ==> run == (
                    leased,
                    Some(Err::<JsonView, Seq<char>>("the orchestrator engine is busy — try again in a moment"@)),
                )
                &&& s.left[2] == ReplyView::Lease(true) ==> {
                    let (u, done) = engine::run_leased_run(id, now, leased);
                    &&& done is Some ==> run.0.asked == u.asked.push(RequestView::ReleaseLease)
                    &&& run.1 is Some ==> run.1 == done
                    &&& u.left.len() > 0 && u.left[0] == ReplyView::Released && done is Some
                        ==> run.1 == done
                }
            }
        }),
{
    control_laws::chained(s.left);
}

/// A test fire renders the prompt of the record as it is now, and its standing
/// prompt, each under its name.
pub proof fn dry_runs_show_both_prompts(
    id: Seq<char>,
    s: Script,
    out: JsonView,
    o: OrchestratorView,
    u: Script,
    v: Script,
    prompt: Seq<char>,
)
    requires
        store_laws::next_is(s, Ok(out)),
        state::load_orchestrator_run(
            id,
            store_laws::after(
                s,
                store_laws::call_of(
                    HostFn::StoreGet,
                    map![
                        "collection"@ => JsonView::Text("engine"@),
                        "key"@ => JsonView::Text("clock"@)
                    ],
                ),
            ),
        ) == (u, Some(Ok::<Option<OrchestratorView>, Seq<char>>(Some(o)))),
        engine::render_prompt_run(
            o,
            TriggerView {
                kind: "dry-run"@,
                session_id: None,
                session_name: None,
                outcome: None,
                pending: Seq::empty(),
            },
            match out.get("value"@) {
                Some(doc) => text_or(doc, "now"@, "1970-01-01T00:00:00Z"@),
                None => "1970-01-01T00:00:00Z"@,
            },
            u,
        ) == (v, Some(prompt)),
    ensures
        engine::dry_run_run(id, s) == (
            v,
            Some(
                Ok::<JsonView, Seq<char>>(
                    JsonView::Object(
                        map![
                            "rendered_prompt"@ => JsonView::Text(prompt),
                            "standing_prompt"@ => JsonView::Text(engine::standing(o))
                        ],
                    ),
                ),
            ),
        ),
{
}

/// A test fire of a record that does not exist is refused with its id.
pub proof fn dry_runs_need_a_record(
    id: Seq<char>,
    s: Script,
    r: Result<JsonView, Seq<char>>,
    u: Script,
    e: Seq<char>,
)
    requires
        store_laws::next_is(s, r),
    ensures
        ({
            let loaded = state::load_orchestrator_run(
                id,
                store_laws::after(
                    s,
                    store_laws::call_of(
                        HostFn::StoreGet,
                        map![
                            "collection"@ => JsonView::Text("engine"@),
                            "key"@ => JsonView::Text("clock"@)
                        ],
                    ),
                ),
            );
            &&& loaded == (u, Some(Ok::<Option<OrchestratorView>, Seq<char>>(None)))
                ==> engine::dry_run_run(id, s) == (
                u,
                Some(Err::<JsonView, Seq<char>>("orchestrator not found: "@ + id)),
            )
            &&& loaded == (u, Some(Err::<Option<OrchestratorView>, Seq<char>>(e)))
                ==> engine::dry_run_run(id, s) == (u, Some(Err::<JsonView, Seq<char>>(e)))
        }),
{
}

/// A session that ends its turn leaves an orchestrator alone that is switched
/// off or paused.
pub proof fn resting_orchestrators_hear_nothing(
    o: OrchestratorView,
    session_id: Seq<char>,
    t: TriggerView,
    now: Seq<char>,
    folder: Option<Option<Seq<char>>>,
    s: Script,
)
    requires
        !o.enabled || o.paused,
    ensures
        engine::ended_one_run(o, session_id, t, now, folder, s) == (
            s,
            Some((folder, Ok::<bool, Seq<char>>(false))),
        ),
        engine::tick_one_run(o, now, s) == (s, Some(Ok::<bool, Seq<char>>(false))),
{
    reveal(engine::ended_one_run);
    reveal(engine::tick_one_run);
}

} // verus!

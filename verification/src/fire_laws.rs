//! What a fire does: when it is held back, how its brain comes to be, what is
//! sent, and what is written down of it.

use vstd::prelude::*;

use crate::control_laws;
use crate::engine::{self, TriggerView};
use crate::host::{HostFn, ReplyView, RequestView, Script};
use crate::json::JsonView;
use crate::records::{self, ActivityEventView, OrchestratorView, PendingView, StatsView};
use crate::state;
use crate::store_laws;
use crate::text;
use crate::time;

verus! {

// ── The window of the last hour ───────────────────────────────────────

/// The fires of the last hour are those of its parts, in order; a fire counts
/// where less than an hour has passed since.
pub proof fn recent_fires_are_picked(
    a: Seq<Seq<char>>,
    b: Seq<Seq<char>>,
    fired: Seq<char>,
    now: Seq<char>,
)
    ensures
        engine::recent_fires(a + b, now) == engine::recent_fires(a, now) + engine::recent_fires(
            b,
            now,
        ),
        engine::recent_fires(seq![fired], now) == (match time::seconds(fired, now) {
            Some(age) => if age < 3600 {
                seq![fired]
            } else {
                Seq::empty()
            },
            None => Seq::empty(),
        }),
    decreases b.len(),
{
    assert(seq![fired].drop_last() =~= Seq::empty());
    assert(engine::recent_fires(seq![fired].drop_last(), now) =~= Seq::empty());
    assert(Seq::empty().push(fired) =~= seq![fired]);
    if b.len() > 0 {
        recent_fires_are_picked(a, b.drop_last(), fired, now);
        assert((a + b).drop_last() =~= a + b.drop_last());
        assert((a + b).last() == b.last());
        assert(engine::recent_fires(a + b, now) =~= engine::recent_fires(a, now)
            + engine::recent_fires(b, now));
    } else {
        assert(a + b =~= a);
        assert(engine::recent_fires(a, now) + engine::recent_fires(b, now)
            =~= engine::recent_fires(a, now));
    }
}

/// The record with the fires of the last hour in its window.
pub open spec fn looked_at(o: OrchestratorView, now: Seq<char>) -> OrchestratorView {
    OrchestratorView {
        stats: StatsView { fire_times: engine::recent_fires(o.stats.fire_times, now), ..o.stats },
        ..o
    }
}

/// The cap on fires is reached: as many fires in the last hour as are allowed.
pub open spec fn at_the_cap(o: OrchestratorView, now: Seq<char>) -> bool {
    engine::recent_fires(o.stats.fire_times, now).len() >= o.caps.max_fires_per_hour
}

/// The last fire lies fewer seconds back than the cooldown is long.
pub open spec fn in_the_cooldown(o: OrchestratorView, now: Seq<char>) -> bool {
    o.stats.last_fired_at matches Some(last) && time::seconds(last, now) matches Some(age) && age
        < o.cooldown_secs
}

/// The feed with one more line.
pub open spec fn with_line(
    log: Seq<ActivityEventView>,
    ts: Seq<char>,
    kind: Seq<char>,
    detail: Seq<char>,
) -> Seq<ActivityEventView> {
    records::newest(log.push(ActivityEventView { ts: ts, kind: kind, detail: detail }), 200)
}

/// At the cap an orchestrator is paused, and its feed says how many fires there
/// were of how many; nothing is asked and nothing sent.
pub proof fn the_cap_pauses(o: OrchestratorView, t: TriggerView, now: Seq<char>, s: Script)
    requires
        o.stats.fire_times.len() <= u32::MAX,
        at_the_cap(o, now),
    ensures
        engine::fire_run(o, t, now, s) == (
            s,
            Some(
                (
                    OrchestratorView {
                        paused: true,
                        log: with_line(
                            o.log,
                            now,
                            "cap_hit"@,
                            text::decimal(engine::recent_fires(o.stats.fire_times, now).len())
                                + " fires in the last hour reached max_fires_per_hour="@
                                + text::decimal(o.caps.max_fires_per_hour as nat)
                                + " — auto-paused"@,
                        ),
                        ..looked_at(o, now)
                    },
                    false,
                ),
            ),
        ),
{
    reveal(engine::fire_run);
    crate::engine_laws::recent_fires_are_fewer(o.stats.fire_times, now);
}

/// In the cooldown nothing is asked and nothing sent. What an idle session set
/// off waits, and so does what waited before; a trigger of the clock, or a
/// manual one, is dropped.
pub proof fn the_cooldown_holds_back(o: OrchestratorView, t: TriggerView, now: Seq<char>, s: Script)
    requires
        o.stats.fire_times.len() <= u32::MAX,
        o.cooldown_secs <= i64::MAX,
        !at_the_cap(o, now),
        in_the_cooldown(o, now),
    ensures
        t.kind == "session_idle"@ || t.kind == "coalesced"@ ==> engine::fire_run(o, t, now, s) == (
            s,
            Some((engine::queued(looked_at(o, now), t, now), false)),
        ),
        t.kind != "session_idle"@ && t.kind != "coalesced"@ ==> engine::fire_run(o, t, now, s) == (
            s,
            Some((looked_at(o, now), false)),
        ),
{
    reveal(engine::fire_run);
    crate::engine_laws::recent_fires_are_fewer(o.stats.fire_times, now);
}

// ── The queue ─────────────────────────────────────────────────────────

/// A trigger waits about the same session.
pub open spec fn session_waits(queue: Seq<PendingView>, session_id: Option<Seq<char>>) -> bool {
    session_id is Some && exists|i: int|
        0 <= i < queue.len() && (#[trigger] queue[i]).session_id == session_id
}

/// The triggers that join a queue are those of the parts, in order; one joins
/// unless a trigger about its session waits.
pub proof fn joining_triggers_are_picked(
    queue: Seq<PendingView>,
    a: Seq<PendingView>,
    b: Seq<PendingView>,
    p: PendingView,
)
    ensures
        engine::not_waiting(queue, a + b) == engine::not_waiting(queue, a) + engine::not_waiting(
            queue,
            b,
        ),
        engine::not_waiting(queue, seq![p]) == if session_waits(queue, p.session_id) {
            Seq::empty()
        } else {
            seq![p]
        },
    decreases b.len(),
{
    assert(seq![p].drop_last() =~= Seq::empty());
    assert(engine::not_waiting(queue, seq![p].drop_last()) =~= Seq::empty());
    assert(Seq::empty().push(p) =~= seq![p]);
    if b.len() > 0 {
        joining_triggers_are_picked(queue, a, b.drop_last(), p);
        assert((a + b).drop_last() =~= a + b.drop_last());
        assert((a + b).last() == b.last());
        assert(engine::not_waiting(queue, a + b) =~= engine::not_waiting(queue, a)
            + engine::not_waiting(queue, b));
    } else {
        assert(a + b =~= a);
        assert(engine::not_waiting(queue, a) + engine::not_waiting(queue, b)
            =~= engine::not_waiting(queue, a));
    }
}

/// A trigger joins the queue at its end, with the time, its kind, its session,
/// and how the turn ended; one that carries others is taken apart into them.
/// Of more than twenty the newest stay. Nothing else of the record changes.
pub proof fn triggers_join_the_queue(o: OrchestratorView, t: TriggerView, now: Seq<char>)
    ensures
        engine::queued(o, t, now) == (OrchestratorView {
            pending_triggers: records::newest(
                o.pending_triggers + engine::not_waiting(
                    o.pending_triggers,
                    if t.pending.len() == 0 {
                        seq![
                            PendingView {
                                ts: now,
                                kind: t.kind,
                                session_id: t.session_id,
                                session_name: t.session_name,
                                outcome: t.outcome,
                            },
                        ]
                    } else {
                        t.pending
                    },
                ),
                20,
            ),
            ..o
        }),
{
}

// ── Failures ──────────────────────────────────────────────────────────

/// A failure is counted, its message is kept and stands in the feed; the third
/// in a row, and every one behind it, disables.
pub proof fn failures_are_kept(o: OrchestratorView, now: Seq<char>, err: Seq<char>)
    requires
        o.consecutive_failures < u32::MAX,
    ensures
        o.consecutive_failures + 1 < 3 ==> engine::failed(o, now, err) == (OrchestratorView {
            consecutive_failures: (o.consecutive_failures + 1) as u32,
            error: Some(err),
            log: with_line(o.log, now, "error"@, err),
            ..o
        }),
        o.consecutive_failures + 1 >= 3 ==> engine::failed(o, now, err) == (OrchestratorView {
            consecutive_failures: (o.consecutive_failures + 1) as u32,
            error: Some(err),
            enabled: false,
            log: with_line(
                o.log,
                now,
                "backoff"@,
                text::decimal((o.consecutive_failures + 1) as nat)
                    + " consecutive failures — auto-disabled. Last error: "@ + err,
            ),
            ..o
        }),
{
}

// ── The brain ─────────────────────────────────────────────────────────

/// The question whether a session exists.
pub open spec fn state_of(id: Seq<char>) -> RequestView {
    store_laws::call_of(HostFn::OrchestrateSessionState, map!["session_id"@ => JsonView::Text(id)])
}

/// The request for a brain: in the folder of the orchestrator, under its name,
/// with its model, and with its standing prompt.
pub open spec fn brain_for(o: OrchestratorView) -> RequestView {
    store_laws::call_of(
        HostFn::OrchestrateCreateSession,
        map![
            "folder_id"@ => JsonView::Text(o.folder_id),
            "name"@ => JsonView::Text(o.name + " (orchestrator)"@),
            "model"@ => match o.model {
                Some(model) => JsonView::Text(model),
                None => JsonView::Null,
            },
            "system_prompt"@ => JsonView::Text(engine::standing(o))
        ],
    )
}

/// The id that the host gives a created session.
pub open spec fn created_id(created: JsonView) -> Option<Seq<char>> {
    match created.get("session"@) {
        Some(session) => match session.get("id"@) {
            Some(JsonView::Text(id)) => Some(id),
            _ => None,
        },
        None => None,
    }
}

/// A brain is created with what the record says, and from then on it is the
/// brain of the orchestrator; an answer without an id, or a refusal, is a
/// failure that leaves the record alone.
pub proof fn brains_are_created(
    o: OrchestratorView,
    now: Seq<char>,
    s: Script,
    created: JsonView,
    e: Seq<char>,
)
    ensures
        ({
            let run = engine::create_brain_run(o, now, s);
            let t = store_laws::after(s, brain_for(o));
            &&& run.0.asked == s.asked.push(brain_for(o))
            &&& store_laws::next_is(s, Err(e)) ==> run == (t, Some((o, Err::<(), Seq<char>>(e))))
            &&& store_laws::next_is(s, Ok(created)) ==> (match created_id(created) {
                Some(brain) => run == (
                    t,
                    Some(
                        (
                            OrchestratorView {
                                session_id: Some(brain),
                                log: with_line(
                                    o.log,
                                    now,
                                    "created_session"@,
                                    "brain session created: "@ + brain,
                                ),
                                ..o
                            },
                            Ok::<(), Seq<char>>(()),
                        ),
                    ),
                ),
                None => run == (
                    t,
                    Some(
                        (
                            o,
                            Err::<(), Seq<char>>("create_session returned no session id"@),
                        ),
                    ),
                ),
            })
        }),
{
}

/// A brain that exists is kept; one that does not is told of in the feed and
/// replaced by a new one; where there is none yet, one is created.
pub proof fn brains_are_kept_while_they_exist(
    o: OrchestratorView,
    now: Seq<char>,
    s: Script,
    brain: Seq<char>,
    st: JsonView,
    e: Seq<char>,
)
    ensures
        o.session_id is None ==> engine::ensure_brain_run(o, now, s) == engine::create_brain_run(
            o,
            now,
            s,
        ),
        o.session_id == Some(brain) ==> {
            let run = engine::ensure_brain_run(o, now, s);
            let t = store_laws::after(s, state_of(brain));
            &&& store_laws::next_is(s, Err(e)) ==> run == (t, Some((o, Err::<(), Seq<char>>(e))))
            &&& store_laws::next_is(s, Ok(st)) && st.get("exists"@) == Some(JsonView::Bool(true)) ==> run == (
                t,
                Some((o, Ok::<(), Seq<char>>(()))),
            )
            &&& store_laws::next_is(s, Ok(st)) && st.get("exists"@) != Some(JsonView::Bool(true)) ==> run
                == engine::create_brain_run(
                OrchestratorView {
                    session_id: None,
                    log: with_line(
                        o.log,
                        now,
                        "error"@,
                        "brain session "@ + brain + " is gone — recreating"@,
                    ),
                    ..o
                },
                now,
                t,
            )
        },
{
}

// ── Delivery ──────────────────────────────────────────────────────────

/// How many of the answers say that a session is busy.
pub open spec fn busy_among(replies: Seq<ReplyView>, now: Seq<char>) -> nat
    decreases replies.len(),
{
    if replies.len() == 0 {
        0
    } else {
        let rest = busy_among(replies.skip(1), now);
        match replies[0] {
            ReplyView::Host(Ok(out)) => if store_laws::marks_busy(out, now) {
                1 + rest
            } else {
                rest
            },
            _ => rest,
        }
    }
}

/// The request for a busy mark.
pub open spec fn mark_of(id: Seq<char>) -> RequestView {
    store_laws::call_of(
        HostFn::StoreGet,
        map!["collection"@ => JsonView::Text("busy"@), "key"@ => JsonView::Text(id)],
    )
}

/// Counting looks at the mark of each session once, in order, and counts those
/// that are busy.
pub proof fn busy_sessions_are_counted(
    ids: Seq<Seq<char>>,
    now: Seq<char>,
    n: nat,
    s: Script,
)
    requires
        s.left.len() >= ids.len(),
        forall|i: int| 0 <= i < ids.len() ==> #[trigger] s.left[i] is Host,
    ensures
        engine::count_busy_run(ids, now, n, s).1 == Some(
            n + busy_among(s.left.take(ids.len() as int), now),
        ),
        engine::count_busy_run(ids, now, n, s).0.left == s.left.skip(ids.len() as int),
        engine::count_busy_run(ids, now, n, s).0.asked == s.asked + Seq::new(
            ids.len(),
            |i: int| mark_of(ids[i]),
        ),
    decreases ids.len(),
{
    let k = ids.len() as int;
    if ids.len() == 0 {
        assert(s.left.take(0) =~= Seq::empty());
        assert(s.left.skip(0) =~= s.left);
        assert(s.asked + Seq::new(ids.len(), |i: int| mark_of(ids[i])) =~= s.asked);
    } else {
        let r = s.left[0]->Host_0;
        store_laws::busy_marks_are_kept(ids[0], now, s, r, r->Ok_0);
        let (t, busy) = state::is_busy_run(ids[0], now, s);
        let m: nat = if busy->0 {
            n + 1
        } else {
            n
        };
        assert forall|i: int| 0 <= i < ids.skip(1).len() implies #[trigger] t.left[i] is Host by {
            assert(t.left[i] == s.left[i + 1]);
        }
        busy_sessions_are_counted(ids.skip(1), now, m, t);
        assert(s.left.take(k).skip(1) =~= t.left.take(k - 1));
        assert(s.left.take(k)[0] == s.left[0]);
        assert(t.left.skip(k - 1) =~= s.left.skip(k));
        assert(t.asked + Seq::new(ids.skip(1).len(), |i: int| mark_of(ids.skip(1)[i])) =~= s.asked
            + Seq::new(ids.len(), |i: int| mark_of(ids[i])));
    }
}

/// A prompt is rendered with the number of busy sessions among those that are
/// watched and those that were created.
pub proof fn prompts_count_managed_sessions(
    o: OrchestratorView,
    t: TriggerView,
    now: Seq<char>,
    s: Script,
)
    ensures
        ({
            let (u, n) = engine::count_busy_run(o.watch.sessions + o.created_sessions, now, 0, s);
            &&& engine::render_prompt_run(o, t, now, s).0 == u
            &&& n matches Some(n) ==> engine::render_prompt_run(o, t, now, s).1 == Some(
                engine::rendered(o, t, n),
            )
            &&& n is None ==> engine::render_prompt_run(o, t, now, s).1 is None
        }),
{
}

/// A fire that no guard holds back sees to its brain first; a failure of that
/// is kept as one. A busy brain is not disturbed: the trigger waits, and the
/// feed says so.
pub proof fn busy_brains_are_not_disturbed(
    o: OrchestratorView,
    t: TriggerView,
    now: Seq<char>,
    s: Script,
    p: OrchestratorView,
    u: Script,
    e: Seq<char>,
    out: JsonView,
)
    requires
        o.stats.fire_times.len() <= u32::MAX,
        o.cooldown_secs <= i64::MAX,
        !at_the_cap(o, now),
        !in_the_cooldown(o, now),
    ensures
        engine::ensure_brain_run(looked_at(o, now), now, s) == (
            u,
            Some((p, Err::<(), Seq<char>>(e))),
        ) ==> engine::fire_run(o, t, now, s) == (u, Some((engine::failed(p, now, e), false))),
        engine::ensure_brain_run(looked_at(o, now), now, s) == (
            u,
            Some((p, Ok::<(), Seq<char>>(()))),
        ) && store_laws::next_is(u, Ok(out)) && store_laws::marks_busy(out, now) ==> p.session_id is Some
            && engine::fire_run(o, t, now, s) == (
            store_laws::after(u, mark_of(p.session_id->0)),
            Some(
                (
                    OrchestratorView {
                        log: with_line(
                            p.log,
                            now,
                            "skipped_busy"@,
                            "brain busy — trigger coalesced"@,
                        ),
                        ..engine::queued(p, t, now)
                    },
                    false,
                ),
            ),
        ),
{
    reveal(engine::fire_run);
    crate::engine_laws::recent_fires_are_fewer(o.stats.fire_times, now);
}

/// A free brain is sent the rendered prompt. Where that goes well the brain is
/// marked busy and the record says all of it: no failures, one fire and one
/// action more, the time of the fire twice, the prompt, and a line in the feed.
/// Where it goes wrong that is kept as a failure.
pub proof fn free_brains_are_sent_the_prompt(
    o: OrchestratorView,
    t: TriggerView,
    now: Seq<char>,
    s: Script,
    p: OrchestratorView,
    u: Script,
    r: Result<JsonView, Seq<char>>,
    v: Script,
    prompt: Seq<char>,
)
    requires
        o.stats.fire_times.len() <= u32::MAX,
        o.cooldown_secs <= i64::MAX,
        !at_the_cap(o, now),
        !in_the_cooldown(o, now),
        engine::ensure_brain_run(looked_at(o, now), now, s) == (
            u,
            Some((p, Ok::<(), Seq<char>>(()))),
        ),
        store_laws::next_is(u, r),
        r matches Ok(out) ==> !store_laws::marks_busy(out, now),
        engine::render_prompt_run(p, t, now, store_laws::after(u, mark_of(p.session_id->0))) == (
            v,
            Some(prompt),
        ),
        v.left.len() >= 2,
        v.left[0] is Host,
        v.left[1] is Host,
    ensures
        ({
            let brain = p.session_id->0;
            let send = store_laws::call_of(
                HostFn::OrchestrateSend,
                map!["session_id"@ => JsonView::Text(brain), "text"@ => JsonView::Text(prompt)],
            );
            let mark = store_laws::call_of(
                HostFn::StorePut,
                map![
                    "collection"@ => JsonView::Text("busy"@),
                    "key"@ => JsonView::Text(brain),
                    "data"@ => JsonView::Object(
                        map!["busy"@ => JsonView::Bool(true), "since"@ => JsonView::Text(now)],
                    )
                ],
            );
            match v.left[0]->Host_0 {
                Err(e) => engine::fire_run(o, t, now, s) == (
                    store_laws::after(v, send),
                    Some((engine::failed(p, now, e), false)),
                ),
                Ok(_) => {
                    let (end, result) = engine::fire_run(o, t, now, s);
                    &&& end.asked == v.asked.push(send).push(mark)
                    &&& end.left == v.left.skip(2)
                    &&& result matches Some((q, sent)) && sent && q == (OrchestratorView {
                        consecutive_failures: 0,
                        error: None,
                        stats: StatsView {
                            fires: p.stats.fires.wrapping_add(1),
                            actions: p.stats.actions.wrapping_add(1),
                            last_fired_at: Some(now),
                            fire_times: p.stats.fire_times.push(now),
                            ..p.stats
                        },
                        last_rendered_prompt: prompt,
                        log: with_line(p.log, now, "fired"@, engine::fired_text(t)),
                        ..p
                    })
                },
            }
        }),
{
    reveal(engine::fire_run);
    crate::engine_laws::recent_fires_are_fewer(o.stats.fire_times, now);
    control_laws::chained(v.left);
}

/// A fire is followed by a save of the record that it leaves; what a save says
/// goes to the caller, else whether a prompt was sent.
pub proof fn fires_are_saved(
    o: OrchestratorView,
    t: TriggerView,
    now: Seq<char>,
    s: Script,
    p: OrchestratorView,
    sent: bool,
    u: Script,
    e: Seq<char>,
    v: JsonView,
)
    requires
        engine::fire_run(o, t, now, s) == (u, Some((p, sent))),
    ensures
        ({
            let save = store_laws::call_of(
                HostFn::StorePut,
                map![
                    "collection"@ => JsonView::Text("orchestrators"@),
                    "key"@ => JsonView::Text(p.id),
                    "data"@ => p.to_json()
                ],
            );
            let run = engine::fire_and_save_run(o, t, now, s);
            &&& run.0.asked == u.asked.push(save)
            &&& store_laws::next_is(u, Ok(v)) ==> run == (store_laws::after(u, save), Some(Ok::<bool, Seq<char>>(sent)))
            &&& store_laws::next_is(u, Err(e)) ==> run == (store_laws::after(u, save), Some(Err::<bool, Seq<char>>(e)))
        }),
{
}

/// What the feed says of a fire: the session and how its turn ended, how many
/// triggers were delivered at once, or what set the fire off.
pub proof fn fires_are_worded(t: TriggerView, name: Seq<char>, outcome: Seq<char>)
    ensures
        t.kind == "session_idle"@ && t.session_name == Some(name) && t.outcome == Some(outcome)
            ==> engine::fired_text(t) == "watched session \""@ + name + "\" went idle ("@ + outcome
            + ")"@,
        t.kind == "session_idle"@ && t.session_name is None && t.outcome is None
            ==> engine::fired_text(t) == "watched session \""@ + "?"@ + "\" went idle ("@ + "?"@
            + ")"@,
        t.kind == "coalesced"@ && t.pending.len() > 0 ==> engine::fired_text(t) == "delivered "@
            + text::decimal(t.pending.len()) + " coalesced trigger(s)"@,
        t.kind == "coalesced"@ && t.pending.len() == 0 ==> engine::fired_text(t) == "delivered "@
            + text::decimal(1) + " coalesced trigger(s)"@,
        t.kind != "session_idle"@ && t.kind != "coalesced"@ ==> engine::fired_text(t)
            == "trigger: "@ + t.kind,
{
    reveal_strlit("session_idle");
    reveal_strlit("coalesced");
    assert("session_idle"@.len() == 12 && "coalesced"@.len() == 9);
}

} // verus!

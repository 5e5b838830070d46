//! Laws of the trigger engine: guards, backoff, cooldown, caps, and what a
//! fire may do.

use vstd::prelude::*;

use crate::engine::{self, TriggerView};
use crate::host::{HostFn, ReplyView, RequestView, Script};
use crate::host_laws::{self, Kind};
use crate::json::JsonView;
use crate::orch_tools::{self, ReportView};
use crate::records::{OrchestratorView, PendingView, StandardsView};
use crate::state;
use crate::text;
use crate::time;

verus! {

// ── Standards ─────────────────────────────────────────────────────────

/// Joining texts of which the first is not empty gives no empty text.
proof fn joined_is_not_empty(parts: Seq<Seq<char>>, sep: Seq<char>)
    requires
        parts.len() > 0,
        parts[0].len() > 0,
    ensures
        text::joined(parts, sep).len() > 0,
    decreases parts.len(),
{
    if parts.len() > 1 {
        joined_is_not_empty(parts.drop_last(), sep);
    }
}

/// The standards block is empty exactly when every standard is off and the
/// custom one blank.
pub proof fn standards_are_empty_when_all_off(s: StandardsView)
    ensures
        engine::standards(s).len() == 0 <==> !s.dev && !s.testing && !s.ux && text::blank(s.custom),
{
    reveal_strlit("\n## Standards you must enforce before accepting any work as done");
    let lines = engine::standards_lines(s);
    assert(lines[0] == engine::STANDARDS_HEAD@);
    joined_is_not_empty(lines, "\n"@);
}

// ── Failures ──────────────────────────────────────────────────────────

/// A failure is counted and kept; it disables from the third in a row on.
pub proof fn failures_back_off(o: OrchestratorView, now: Seq<char>, err: Seq<char>)
    requires
        o.consecutive_failures < u32::MAX,
    ensures
        engine::failed(o, now, err).consecutive_failures == o.consecutive_failures + 1,
        engine::failed(o, now, err).error == Some(err),
        engine::failed(o, now, err).enabled == (o.enabled && o.consecutive_failures < 2),
        engine::failed(o, now, err).log.last().kind == (if o.consecutive_failures < 2 {
            "error"@
        } else {
            "backoff"@
        }),
{
}

/// Three failures in a row disable an orchestrator that had none; two do not.
pub proof fn three_failures_disable(
    o: OrchestratorView,
    now: Seq<char>,
    first: Seq<char>,
    second: Seq<char>,
    third: Seq<char>,
)
    requires
        o.consecutive_failures == 0,
        o.enabled,
    ensures
        engine::failed(engine::failed(o, now, first), now, second).enabled,
        !engine::failed(
            engine::failed(engine::failed(o, now, first), now, second),
            now,
            third,
        ).enabled,
{
}

/// A delivery forgets the failures.
pub proof fn delivery_forgets_failures(
    o: OrchestratorView,
    t: TriggerView,
    prompt: Seq<char>,
    now: Seq<char>,
)
    ensures
        engine::delivered(o, t, prompt, now).consecutive_failures == 0,
        engine::delivered(o, t, prompt, now).error is None,
        engine::delivered(o, t, prompt, now).enabled == o.enabled,
{
}

// ── Watchdog ──────────────────────────────────────────────────────────

/// A goal that is done, and a watchdog of zero minutes, are never due; nothing
/// is asked to find out.
pub proof fn watchdog_rests(o: OrchestratorView, now: Seq<char>, s: Script)
    requires
        o.goal_status.state == "done"@ || o.watchdog_minutes == 0,
    ensures
        engine::watchdog_due_run(o, now, s) == (s, Some(false)),
{
}

/// Reporting the goal as done stops the watchdog.
pub proof fn done_stops_the_watchdog(
    o: OrchestratorView,
    report: ReportView,
    projected_at: Seq<char>,
    ts: Seq<char>,
    now: Seq<char>,
    s: Script,
)
    requires
        report.state == "done"@,
    ensures
        engine::watchdog_due_run(orch_tools::reported(o, report, projected_at, ts), now, s) == (
            s,
            Some(false),
        ),
{
}

/// Before the first fire the watchdog of an open goal is due at once.
pub proof fn watchdog_starts_at_once(o: OrchestratorView, now: Seq<char>, s: Script)
    requires
        o.goal_status.state != "done"@,
        o.watchdog_minutes != 0,
        o.stats.last_fired_at is None,
    ensures
        engine::watchdog_due_run(o, now, s) == (s, Some(true)),
{
}

// ── Fires ─────────────────────────────────────────────────────────────

/// A fire that sent a prompt.
pub open spec fn sent(run: (Script, Option<(OrchestratorView, bool)>)) -> bool {
    run.1 matches Some((_, sent)) && sent
}

/// A fire that came to an end without a request and without sending.
pub open spec fn held_back(run: (Script, Option<(OrchestratorView, bool)>), s: Script) -> bool {
    &&& run.0 == s
    &&& run.1 matches Some((_, sent))
    &&& !sent
}

/// The guards in their order: at the hourly cap the orchestrator pauses, in
/// the cooldown it waits. Neither asks anything of the host or sends.
pub proof fn guards_come_first(o: OrchestratorView, t: TriggerView, now: Seq<char>, s: Script)
    ensures
        engine::capped(engine::pruned(o, now)) ==> engine::fire_run(o, t, now, s) == (
            s,
            Some((engine::cap_hit(engine::pruned(o, now), now), false)),
        ) && engine::cap_hit(engine::pruned(o, now), now).paused,
        engine::capped(engine::pruned(o, now)) || engine::cooling(o, now) ==> held_back(
            engine::fire_run(o, t, now, s),
            s,
        ),
{
    reveal(engine::fire_run);
}

/// What stays as it is through a fire: the configuration, the goal, and the
/// slot of the schedule.
pub open spec fn same_configuration(o: OrchestratorView, p: OrchestratorView) -> bool {
    &&& p.id == o.id && p.name == o.name && p.goal == o.goal && p.prompt == o.prompt
    &&& p.folder_id == o.folder_id && p.model == o.model
    &&& p.schedule == o.schedule && p.stats.next_due_at == o.stats.next_due_at
    &&& p.watchdog_minutes == o.watchdog_minutes && p.cooldown_secs == o.cooldown_secs
    &&& p.watch == o.watch && p.caps == o.caps && p.standards == o.standards
    &&& p.goal_status == o.goal_status && p.eta_history == o.eta_history
    &&& p.hats == o.hats && p.created_sessions == o.created_sessions
    &&& p.stats.sessions_created == o.stats.sessions_created && p.created_at == o.created_at
}

/// A fire changes bookkeeping only.
pub proof fn fire_keeps_the_configuration(
    o: OrchestratorView,
    t: TriggerView,
    now: Seq<char>,
    s: Script,
)
    requires
        engine::fire_run(o, t, now, s).1 is Some,
    ensures
        same_configuration(o, (engine::fire_run(o, t, now, s).1->0).0),
{
    reveal(engine::fire_run);
}

/// A fire that sent is counted and dated, and forgets the failures; one that
/// did not is not counted.
pub proof fn fires_are_counted_when_sent(
    o: OrchestratorView,
    t: TriggerView,
    now: Seq<char>,
    s: Script,
)
    requires
        engine::fire_run(o, t, now, s).1 is Some,
    ensures
        ({
            let (p, sent) = engine::fire_run(o, t, now, s).1->0;
            let kept = engine::recent_fires(o.stats.fire_times, now);
            if sent {
                &&& p.stats.fires == o.stats.fires.wrapping_add(1)
                &&& p.stats.actions == o.stats.actions.wrapping_add(1)
                &&& p.stats.last_fired_at == Some(now)
                &&& p.stats.fire_times == kept.push(now)
                &&& p.consecutive_failures == 0
                &&& p.error is None
                &&& p.session_id is Some
                &&& p.log.last().kind == "fired"@
            } else {
                &&& p.stats.fires == o.stats.fires
                &&& p.stats.actions == o.stats.actions
                &&& p.stats.last_fired_at == o.stats.last_fired_at
                &&& p.stats.fire_times == kept
                &&& p.last_rendered_prompt == o.last_rendered_prompt
            }
        }),
{
    reveal(engine::fire_run);
}

/// The window of the last hour never grows beyond the cap.
pub proof fn window_stays_within_the_cap(
    o: OrchestratorView,
    t: TriggerView,
    now: Seq<char>,
    s: Script,
)
    requires
        sent(engine::fire_run(o, t, now, s)),
        o.stats.fire_times.len() <= u32::MAX,
    ensures
        (engine::fire_run(o, t, now, s).1->0).0.stats.fire_times.len()
            <= o.caps.max_fires_per_hour,
{
    reveal(engine::fire_run);
    recent_fires_are_fewer(o.stats.fire_times, now);
}

/// Pruning adds nothing, and leaves only fires of the last hour.
pub proof fn recent_fires_are_fewer(times: Seq<Seq<char>>, now: Seq<char>)
    ensures
        engine::recent_fires(times, now).len() <= times.len(),
        forall|i: int|
            0 <= i < engine::recent_fires(times, now).len() ==> engine::recent(
                #[trigger] engine::recent_fires(times, now)[i],
                now,
            ),
    decreases times.len(),
{
    if times.len() > 0 {
        recent_fires_are_fewer(times.drop_last(), now);
        let front = engine::recent_fires(times.drop_last(), now);
        let all = engine::recent_fires(times, now);
        assert forall|i: int| 0 <= i < all.len() implies engine::recent(#[trigger] all[i], now) by {
            if i < front.len() {
                assert(all[i] == front[i]);
            }
        }
    }
}

/// After a delivery nothing is sent until the cooldown is over.
pub proof fn cooldown_holds_after_a_delivery(
    o: OrchestratorView,
    t: TriggerView,
    prompt: Seq<char>,
    fired: Seq<char>,
    next: TriggerView,
    now: Seq<char>,
    s: Script,
)
    requires
        time::seconds(fired, now) matches Some(age) && age < o.cooldown_secs as i64,
    ensures
        held_back(engine::fire_run(engine::delivered(o, t, prompt, fired), next, now, s), s),
{
    reveal(engine::fire_run);
}

/// What a fire may ask of the outside.
pub open spec fn fire_kinds() -> Set<Kind> {
    set![
        Kind::Call(HostFn::OrchestrateSessionState),
        Kind::Call(HostFn::OrchestrateCreateSession),
        Kind::Call(HostFn::OrchestrateSend),
        Kind::Call(HostFn::StoreGet),
        Kind::Call(HostFn::StorePut),
    ]
}

/// Looking for busy sessions asks for documents alone.
proof fn counting_asks(
    ids: Seq<Seq<char>>,
    now: Seq<char>,
    n: nat,
    s: Script,
    kinds: Set<Kind>,
)
    requires
        kinds.contains(Kind::Call(HostFn::StoreGet)),
    ensures
        host_laws::only(s, engine::count_busy_run(ids, now, n, s).0, kinds),
    decreases ids.len(),
{
    if ids.len() > 0 {
        host_laws::only_call(
            s,
            HostFn::StoreGet,
            state::place(state::BUSY_COLLECTION@, ids[0]),
            kinds,
        );
        let (t, busy) = state::is_busy_run(ids[0], now, s);
        if let Some(busy) = busy {
            let m: nat = if busy {
                n + 1
            } else {
                n
            };
            counting_asks(ids.skip(1), now, m, t, kinds);
            host_laws::only_both(s, t, engine::count_busy_run(ids.skip(1), now, m, t).0, kinds);
        }
    }
}

/// A test fire delivers nothing: documents are read, and that is all.
pub proof fn dry_run_only_reads(id: Seq<char>, s: Script)
    ensures
        host_laws::only(s, engine::dry_run_run(id, s).0, host_laws::reading()),
{
    let kinds = host_laws::reading();
    host_laws::only_call(
        s,
        HostFn::StoreGet,
        state::place(state::ENGINE_COLLECTION@, "clock"@),
        kinds,
    );
    let (t, clock) = state::clock_run(s);
    if let Some(clock) = clock {
        let now = text::or_else(clock, engine::EPOCH@);
        host_laws::loading_reads(id, t);
        let (u, r) = state::load_orchestrator_run(id, t);
        host_laws::only_both(s, t, u, kinds);
        if let Some(Ok(Some(o))) = r {
            counting_asks(engine::managed(o), now, 0, u, kinds);
            let v = engine::count_busy_run(engine::managed(o), now, 0, u).0;
            host_laws::only_both(s, u, v, kinds);
        }
    }
}

/// The prompts that were sent.
pub open spec fn prompts(asked: Seq<RequestView>) -> nat
    decreases asked.len(),
{
    if asked.len() == 0 {
        0
    } else {
        prompts(asked.drop_last()) + (if asked.last().kind() == Kind::Call(
            HostFn::OrchestrateSend,
        ) {
            1nat
        } else {
            0
        })
    }
}

/// Requests of other kinds are no prompts.
proof fn other_requests_are_no_prompts(s: Script, t: Script, kinds: Set<Kind>)
    requires
        host_laws::only(s, t, kinds),
        !kinds.contains(Kind::Call(HostFn::OrchestrateSend)),
    ensures
        prompts(t.asked) == prompts(s.asked),
    decreases t.asked.len(),
{
    if t.asked.len() > s.asked.len() {
        let u = Script { asked: t.asked.drop_last(), ..t };
        assert(host_laws::only(s, u, kinds)) by {
            assert forall|i: int| s.asked.len() <= i < u.asked.len() implies kinds.contains(
                (#[trigger] u.asked[i]).kind(),
            ) by {
                assert(u.asked[i] == t.asked[i]);
            }
        }
        other_requests_are_no_prompts(s, u, kinds);
        assert(kinds.contains(t.asked[t.asked.len() - 1].kind()));
    } else {
        assert(t.asked =~= s.asked);
    }
}

/// A fire asks for its brain, for busy marks and for the delivery, and nothing
/// else; it sends at most one prompt, and exactly one where it says so.
pub proof fn fire_sends_at_most_once(o: OrchestratorView, t: TriggerView, now: Seq<char>, s: Script)
    ensures
        host_laws::only(s, engine::fire_run(o, t, now, s).0, fire_kinds()),
        prompts(engine::fire_run(o, t, now, s).0.asked) <= prompts(s.asked) + 1,
        sent(engine::fire_run(o, t, now, s)) ==> prompts(engine::fire_run(o, t, now, s).0.asked)
            == prompts(s.asked) + 1,
{
    reveal(engine::fire_run);
    let kinds = fire_kinds();
    let quiet = fire_kinds().remove(Kind::Call(HostFn::OrchestrateSend));
    let end = engine::fire_run(o, t, now, s);
    let o1 = engine::pruned(o, now);
    if !engine::capped(o1) && !engine::cooling(o1, now) {
        let (s1, r) = engine::ensure_brain_run(o1, now, s);
        assert(host_laws::only(s, s1, quiet));
        other_requests_are_no_prompts(s, s1, quiet);
        host_laws::only_more(s, s1, quiet, kinds);
        if let Some((o2, Ok(_))) = r {
            let brain = o2.session_id->0;
            host_laws::only_call(
                s1,
                HostFn::StoreGet,
                state::place(state::BUSY_COLLECTION@, brain),
                quiet,
            );
            let (s2, busy) = state::is_busy_run(brain, now, s1);
            other_requests_are_no_prompts(s1, s2, quiet);
            host_laws::only_more(s1, s2, quiet, kinds);
            host_laws::only_both(s, s1, s2, kinds);
            if let Some(false) = busy {
                let (s3, prompt) = engine::render_prompt_run(o2, t, now, s2);
                counting_asks(engine::managed(o2), now, 0, s2, quiet);
                other_requests_are_no_prompts(s2, s3, quiet);
                host_laws::only_more(s2, s3, quiet, kinds);
                host_laws::only_both(s, s2, s3, kinds);
                if let Some(prompt) = prompt {
                    let input = engine::prompt_request(brain, prompt);
                    host_laws::only_call(s3, HostFn::OrchestrateSend, input, kinds);
                    let (s4, r) = s3.call(HostFn::OrchestrateSend, input);
                    assert(s4.asked.drop_last() == s3.asked);
                    assert(prompts(s4.asked) == prompts(s3.asked) + 1);
                    host_laws::only_both(s, s3, s4, kinds);
                    if let Some(Ok(_)) = r {
                        host_laws::only_call(
                            s4,
                            HostFn::StorePut,
                            state::placed(state::BUSY_COLLECTION@, brain, state::busy_doc(now)),
                            quiet,
                        );
                        let s5 = state::mark_busy_run(brain, now, s4).0;
                        other_requests_are_no_prompts(s4, s5, quiet);
                        host_laws::only_more(s4, s5, quiet, kinds);
                        host_laws::only_both(s, s4, s5, kinds);
                    }
                }
            }
        }
    }
}

// ── Ticks ─────────────────────────────────────────────────────────────

/// The request that stores the clock.
pub open spec fn clock_request(now: Seq<char>) -> RequestView {
    RequestView::Call(
        HostFn::StorePut,
        state::placed(
            state::ENGINE_COLLECTION@,
            "clock"@,
            JsonView::Object(map!["now"@ => JsonView::Text(now)]),
        ),
    )
}

/// The request that reads the kill switch.
pub open spec fn pause_request() -> RequestView {
    RequestView::Call(HostFn::StoreGet, state::place(state::ENGINE_COLLECTION@, "pause_all"@))
}

/// While everything is paused a tick stores the clock and looks at the kill
/// switch; no orchestrator is looked at.
pub proof fn paused_tick_does_nothing(now: Seq<char>, s: Script, out: JsonView)
    requires
        s.left.len() >= 2,
        s.left[0] is Host,
        s.left[1] == ReplyView::Host(Ok(out)),
        state::paused_of(Ok(state::stored_value(out))),
    ensures
        engine::tick_run(now, s) == (
            Script {
                left: s.left.skip(2),
                asked: s.asked.push(clock_request(now)).push(pause_request()),
            },
            Some(Ok::<JsonView, Seq<char>>(engine::tick_paused_doc())),
        ),
{
    assert(s.left.skip(1).skip(1) =~= s.left.skip(2));
}

/// What a manual run may ask for while it is held back: documents, and the
/// lease.
pub open spec fn holding_back() -> Set<Kind> {
    host_laws::reading().insert(Kind::AcquireLease).insert(Kind::ReleaseLease)
}

/// Whether a manual run is held back: the kill switch is on, or the record is
/// disabled or paused.
pub open spec fn run_held_back(id: Seq<char>, s: Script) -> bool {
    let (s, clock) = state::clock_run(s);
    let (s, paused) = state::global_paused_run(s);
    let (s, taken) = s.acquire();
    &&& clock matches Some(Some(_))
    &&& paused == Some(true) || {
        &&& paused == Some(false)
        &&& taken == Some(true)
        &&& state::load_orchestrator_run(id, s).1 matches Some(Ok(Some(o))) && (!o.enabled
            || o.paused)
    }
}

/// A manual run sends no prompt and stores nothing while the kill switch is on,
/// or while the record is disabled or paused; its answer is that nothing was
/// sent.
pub proof fn held_back_manual_run_sends_nothing(id: Seq<char>, s: Script)
    requires
        run_held_back(id, s),
    ensures
        prompts(engine::run_now_run(id, s).0.asked) == prompts(s.asked),
        host_laws::only(s, engine::run_now_run(id, s).0, holding_back()),
        engine::run_now_run(id, s).1 matches Some(r) ==> r == Ok::<JsonView, Seq<char>>(
            engine::sent_doc(false),
        ),
{
    let kinds = holding_back();
    let engine_doc = |key: Seq<char>| state::place(state::ENGINE_COLLECTION@, key);
    host_laws::only_call(s, HostFn::StoreGet, engine_doc("clock"@), kinds);
    let (t, _) = state::clock_run(s);
    host_laws::only_call(t, HostFn::StoreGet, engine_doc("pause_all"@), kinds);
    let (u, paused) = state::global_paused_run(t);
    host_laws::only_both(s, t, u, kinds);
    if paused == Some(false) {
        host_laws::only_ask(u, RequestView::AcquireLease, kinds);
        let (v, _) = u.acquire();
        host_laws::only_both(s, u, v, kinds);
        host_laws::loading_reads(id, v);
        let (w, r) = state::load_orchestrator_run(id, v);
        host_laws::only_more(v, w, host_laws::reading(), kinds);
        host_laws::only_both(s, v, w, kinds);
        let now = (state::clock_run(s).1->0)->0;
        host_laws::only_released(s, engine::run_leased_run(id, now, v), kinds);
    }
    other_requests_are_no_prompts(s, engine::run_now_run(id, s).0, kinds);
}

/// While everything is paused a manual run looks at the clock and at the kill
/// switch; the record is not looked at.
pub proof fn paused_manual_run_does_nothing(
    id: Seq<char>,
    s: Script,
    clock: JsonView,
    out: JsonView,
)
    requires
        s.left.len() >= 2,
        s.left[0] == ReplyView::Host(Ok(clock)),
        state::clock_of(Ok(state::stored_value(clock))) is Some,
        s.left[1] == ReplyView::Host(Ok(out)),
        state::paused_of(Ok(state::stored_value(out))),
    ensures
        engine::run_now_run(id, s) == (
            Script {
                left: s.left.skip(2),
                asked: s.asked.push(
                    RequestView::Call(
                        HostFn::StoreGet,
                        state::place(state::ENGINE_COLLECTION@, "clock"@),
                    ),
                ).push(pause_request()),
            },
            Some(Ok::<JsonView, Seq<char>>(engine::sent_doc(false))),
        ),
{
    assert(s.left.skip(1).skip(1) =~= s.left.skip(2));
}

/// Where another instance holds the lease, a tick stops there; the next one
/// tries again.
pub proof fn contended_tick_does_nothing(now: Seq<char>, s: Script, out: JsonView)
    requires
        s.left.len() >= 3,
        s.left[0] is Host,
        s.left[1] == ReplyView::Host(Ok(out)),
        !state::paused_of(Ok(state::stored_value(out))),
        s.left[2] == ReplyView::Lease(false),
    ensures
        engine::tick_run(now, s) == (
            Script {
                left: s.left.skip(3),
                asked: s.asked.push(clock_request(now)).push(pause_request()).push(
                    RequestView::AcquireLease,
                ),
            },
            Some(Ok::<JsonView, Seq<char>>(engine::tick_busy_doc())),
        ),
{
    assert(s.left.skip(1).skip(1) =~= s.left.skip(2));
    assert(s.left.skip(2).skip(1) =~= s.left.skip(3));
}

/// A disabled or paused orchestrator is passed over, on a tick and at the end
/// of a turn, without any request.
pub proof fn resting_orchestrators_are_passed_over(
    o: OrchestratorView,
    session_id: Seq<char>,
    t: TriggerView,
    now: Seq<char>,
    folder: Option<Option<Seq<char>>>,
    s: Script,
)
    requires
        !o.enabled || o.paused,
    ensures
        engine::tick_one_run(o, now, s) == (s, Some(Ok::<bool, Seq<char>>(false))),
        engine::ended_one_run(o, session_id, t, now, folder, s) == (
            s,
            Some((folder, Ok::<bool, Seq<char>>(false))),
        ),
{
    reveal(engine::tick_one_run);
    reveal(engine::ended_one_run);
}

/// The slot of the schedule advances with its fire, whether that was sent or
/// skipped by a guard: the record that is stored has the next slot.
pub proof fn slot_advances_even_when_skipped(o: OrchestratorView, now: Seq<char>, s: Script)
    requires
        o.schedule.every_minutes is Some,
        engine::scheduled_run(o, now, s).1 is Some,
    ensures
        exists|p: OrchestratorView, t: Script|
            p.id == o.id && p.stats.next_due_at == Some(
                time::later_text(now, (o.schedule.every_minutes->0 as i64) as int),
            ) && engine::scheduled_run(o, now, s).0 == (#[trigger] state::save_orchestrator_run(
                p,
                t,
            )).0,
{
    let minutes = o.schedule.every_minutes->0 as i64;
    let o1 = OrchestratorView {
        stats: crate::records::StatsView {
            next_due_at: Some(time::later_text(now, minutes as int)),
            ..o.stats
        },
        ..o
    };
    let t = TriggerView::simple("schedule"@);
    fire_keeps_the_configuration(o1, t, now, s);
    let (s1, r) = engine::fire_run(o1, t, now, s);
    let p = (r->0).0;
    assert(engine::scheduled_run(o, now, s).0 == state::save_orchestrator_run(p, s1).0);
}

/// A slot that has advanced is not due before its time.
pub proof fn advanced_slot_waits(o: OrchestratorView, due: Seq<char>, now: Seq<char>)
    requires
        o.stats.next_due_at == Some(due),
        time::seconds(due, now) matches Some(late) && late < 0,
    ensures
        !engine::slot_due(o, now),
{
}

/// What waits is not lost: a delivery that the cooldown holds back leaves the
/// queue as it was.
pub proof fn held_back_queue_is_kept(o: OrchestratorView, now: Seq<char>, s: Script)
    requires
        0 < o.pending_triggers.len() <= engine::PENDING_CAP,
        !engine::capped(engine::pruned(o, now)),
        engine::cooling(o, now),
    ensures
        engine::fire_run(
            OrchestratorView { pending_triggers: Seq::empty(), ..o },
            TriggerView::coalesced(o.pending_triggers),
            now,
            s,
        ) == (s, Some((engine::pruned(o, now), false))),
{
    reveal(engine::fire_run);
    nothing_waits_in_an_empty_queue(o.pending_triggers);
    assert(Seq::<PendingView>::empty() + o.pending_triggers =~= o.pending_triggers);
}

/// In an empty queue nothing waits already.
proof fn nothing_waits_in_an_empty_queue(parts: Seq<PendingView>)
    ensures
        engine::not_waiting(Seq::empty(), parts) == parts,
    decreases parts.len(),
{
    if parts.len() > 0 {
        nothing_waits_in_an_empty_queue(parts.drop_last());
        assert(parts.drop_last().push(parts.last()) =~= parts);
    }
}

/// The folder of an ended session is asked for at most once, and only for an
/// orchestrator that watches folders.
pub proof fn folder_is_asked_for_once(
    o: OrchestratorView,
    session_id: Seq<char>,
    folder: Option<Option<Seq<char>>>,
    s: Script,
)
    ensures
        folder is Some || o.watch.folders.len() == 0 || o.watches_session(session_id)
            ==> engine::watched_run(o, session_id, folder, s).0 == s,
        folder is Some && engine::watched_run(o, session_id, folder, s).1 is Some ==> (
        engine::watched_run(o, session_id, folder, s).1->0).0 == folder,
{
}

// ── What the engine may ask ───────────────────────────────────────────

/// What the engine's hooks may ask of the outside. Acting on sessions other
/// than the brains is not among it.
pub open spec fn engine_kinds() -> Set<Kind> {
    set![
        Kind::Call(HostFn::OrchestrateSessionState),
        Kind::Call(HostFn::OrchestrateCreateSession),
        Kind::Call(HostFn::OrchestrateSend),
        Kind::Call(HostFn::StoreGet),
        Kind::Call(HostFn::StorePut),
        Kind::Call(HostFn::StoreList),
        Kind::Call(HostFn::StoreDelete),
        Kind::Decode,
        Kind::AcquireLease,
        Kind::ReleaseLease,
        Kind::Abort,
    ]
}

/// Firing and storing ask what a fire asks.
proof fn fire_and_save_asks(o: OrchestratorView, t: TriggerView, now: Seq<char>, s: Script)
    ensures
        host_laws::only(s, engine::fire_and_save_run(o, t, now, s).0, engine_kinds()),
{
    let kinds = engine_kinds();
    fire_sends_at_most_once(o, t, now, s);
    let (u, r) = engine::fire_run(o, t, now, s);
    host_laws::only_more(s, u, fire_kinds(), kinds);
    if let Some((p, _)) = r {
        let input = state::placed(state::ORCH_COLLECTION@, p.id, p.to_json());
        host_laws::only_call(u, HostFn::StorePut, input, kinds);
        host_laws::only_both(s, u, state::save_orchestrator_run(p, u).0, kinds);
    }
}

/// Asking whether the brain is free asks for its mark.
proof fn idleness_asks(o: OrchestratorView, now: Seq<char>, s: Script)
    ensures
        host_laws::only(s, engine::brain_is_idle_run(o, now, s).0, engine_kinds()),
{
}

/// One orchestrator on a tick.
proof fn tick_one_asks(o: OrchestratorView, now: Seq<char>, s: Script)
    ensures
        host_laws::only(s, engine::tick_one_run(o, now, s).0, engine_kinds()),
{
    reveal(engine::tick_one_run);
    let kinds = engine_kinds();
    if o.enabled && !o.paused {
        let (u, free) = if o.pending_triggers.len() > 0 {
            engine::brain_is_idle_run(o, now, s)
        } else {
            (s, Some(false))
        };
        idleness_asks(o, now, s);
        match free {
            None => {},
            Some(true) => {
                let o1 = OrchestratorView { pending_triggers: Seq::empty(), ..o };
                let t = TriggerView::coalesced(o.pending_triggers);
                fire_and_save_asks(o1, t, now, u);
                host_laws::only_both(s, u, engine::fire_and_save_run(o1, t, now, u).0, kinds);
            },
            Some(false) => {
                if engine::slot_due(o, now) {
                    scheduled_asks(o, now, u);
                    host_laws::only_both(s, u, engine::scheduled_run(o, now, u).0, kinds);
                } else {
                    idleness_asks(o, now, u);
                    let (v, due) = engine::watchdog_due_run(o, now, u);
                    host_laws::only_both(s, u, v, kinds);
                    if let Some(true) = due {
                        let t = TriggerView::simple("watchdog"@);
                        fire_and_save_asks(o, t, now, v);
                        host_laws::only_both(
                            s,
                            v,
                            engine::fire_and_save_run(o, t, now, v).0,
                            kinds,
                        );
                    }
                }
            },
        }
    }
}

/// A scheduled fire.
proof fn scheduled_asks(o: OrchestratorView, now: Seq<char>, s: Script)
    ensures
        host_laws::only(s, engine::scheduled_run(o, now, s).0, engine_kinds()),
{
    let minutes = o.schedule.every_minutes->0 as i64;
    if time::minutes_fit(now, minutes as int) {
        let o1 = OrchestratorView {
            stats: crate::records::StatsView {
                next_due_at: Some(time::later_text(now, minutes as int)),
                ..o.stats
            },
            ..o
        };
        fire_and_save_asks(o1, TriggerView::simple("schedule"@), now, s);
    }
}

/// Every orchestrator on a tick.
proof fn tick_walk_asks(orchs: Seq<OrchestratorView>, now: Seq<char>, fired: u32, s: Script)
    ensures
        host_laws::only(s, engine::tick_walk_run(orchs, now, fired, s).0, engine_kinds()),
    decreases orchs.len(),
{
    if orchs.len() > 0 {
        tick_one_asks(orchs[0], now, s);
        let (u, r) = engine::tick_one_run(orchs[0], now, s);
        if let Some(Ok(sent)) = r {
            let n = if sent {
                fired.wrapping_add(1)
            } else {
                fired
            };
            tick_walk_asks(orchs.skip(1), now, n, u);
            host_laws::only_both(
                s,
                u,
                engine::tick_walk_run(orchs.skip(1), now, n, u).0,
                engine_kinds(),
            );
        }
    }
}

/// A tick acts through the brains alone.
pub proof fn tick_acts_through_brains(payload: JsonView, s: Script)
    ensures
        host_laws::only(s, engine::on_timer_tick_run(payload, s).0, engine_kinds()),
{
    let kinds = engine_kinds();
    if let Some(now) = payload.text_at("now"@) {
        let s1 = state::set_clock_run(now, s).0;
        host_laws::only_ask(s, clock_request(now), kinds);
        assert(host_laws::only(s, s1, kinds));
        if state::set_clock_run(now, s).1 is Some {
            let (s2, paused) = state::global_paused_run(s1);
            host_laws::only_ask(s1, pause_request(), kinds);
            host_laws::only_both(s, s1, s2, kinds);
            if let Some(false) = paused {
                let (s3, taken) = s2.acquire();
                host_laws::only_ask(s2, RequestView::AcquireLease, kinds);
                host_laws::only_both(s, s2, s3, kinds);
                if let Some(true) = taken {
                    host_laws::listing_reads(s3);
                    let (s4, r) = state::list_orchestrators_run(s3);
                    host_laws::only_more(s3, s4, host_laws::reading(), kinds);
                    host_laws::only_both(s, s3, s4, kinds);
                    if let Some(Ok(orchs)) = r {
                        tick_walk_asks(orchs, now, 0, s4);
                        host_laws::only_both(
                            s,
                            s4,
                            engine::tick_walk_run(orchs, now, 0, s4).0,
                            kinds,
                        );
                    }
                    host_laws::only_released(s, engine::tick_leased_run(now, s3), kinds);
                }
            }
        }
    }
}

/// One orchestrator at the end of a turn.
proof fn ended_one_asks(
    o: OrchestratorView,
    session_id: Seq<char>,
    t: TriggerView,
    now: Seq<char>,
    folder: Option<Option<Seq<char>>>,
    s: Script,
)
    ensures
        host_laws::only(
            s,
            engine::ended_one_run(o, session_id, t, now, folder, s).0,
            engine_kinds(),
        ),
{
    reveal(engine::ended_one_run);
    let kinds = engine_kinds();
    if o.enabled && !o.paused {
        if o.session_id == Some(session_id) {
            let o1 = OrchestratorView { pending_triggers: Seq::empty(), ..o };
            fire_and_save_asks(o1, TriggerView::coalesced(o.pending_triggers), now, s);
        } else {
            let (u, r) = engine::watched_run(o, session_id, folder, s);
            host_laws::only_call(
                s,
                HostFn::OrchestrateSessionState,
                engine::about_session(session_id),
                kinds,
            );
            assert(host_laws::only(s, u, kinds));
            if let Some((_, true)) = r {
                fire_and_save_asks(o, t, now, u);
                host_laws::only_both(s, u, engine::fire_and_save_run(o, t, now, u).0, kinds);
            }
        }
    }
}

/// Every orchestrator at the end of a turn.
proof fn ended_walk_asks(
    orchs: Seq<OrchestratorView>,
    session_id: Seq<char>,
    t: TriggerView,
    now: Seq<char>,
    folder: Option<Option<Seq<char>>>,
    s: Script,
)
    ensures
        host_laws::only(
            s,
            engine::ended_walk_run(orchs, session_id, t, now, folder, s).0,
            engine_kinds(),
        ),
    decreases orchs.len(),
{
    if orchs.len() > 0 {
        ended_one_asks(orchs[0], session_id, t, now, folder, s);
        let (u, r) = engine::ended_one_run(orchs[0], session_id, t, now, folder, s);
        if let Some((folder, Ok(_))) = r {
            ended_walk_asks(orchs.skip(1), session_id, t, now, folder, u);
            host_laws::only_both(
                s,
                u,
                engine::ended_walk_run(orchs.skip(1), session_id, t, now, folder, u).0,
                engine_kinds(),
            );
        }
    }
}

/// The end of a turn acts through the brains alone.
pub proof fn end_of_turn_acts_through_brains(payload: JsonView, s: Script)
    ensures
        host_laws::only(s, engine::on_agent_ended_run(payload, s).0, engine_kinds()),
{
    let kinds = engine_kinds();
    let session_id = text::or_else(payload.text_at("session_id"@), ""@);
    if session_id.len() > 0 {
        let (s1, idle) = state::mark_idle_run(session_id, s);
        host_laws::only_call(
            s,
            HostFn::StoreDelete,
            state::place(state::BUSY_COLLECTION@, session_id),
            kinds,
        );
        if idle is Some {
            let (s2, clock) = state::clock_run(s1);
            host_laws::only_call(
                s1,
                HostFn::StoreGet,
                state::place(state::ENGINE_COLLECTION@, "clock"@),
                kinds,
            );
            host_laws::only_both(s, s1, s2, kinds);
            if let Some(clock) = clock {
                let now = text::or_else(clock, ""@);
                if now.len() > 0 {
                    let (s3, paused) = state::global_paused_run(s2);
                    host_laws::only_ask(s2, pause_request(), kinds);
                    host_laws::only_both(s, s2, s3, kinds);
                    if let Some(false) = paused {
                        let t = TriggerView::session_idle(
                            session_id,
                            text::or_else(payload.text_at("session_name"@), session_id),
                            text::or_else(payload.text_at("outcome"@), "completed"@),
                        );
                        ended_asks(session_id, t, now, s3);
                        host_laws::only_both(
                            s,
                            s3,
                            engine::ended_run(session_id, t, now, s3).0,
                            kinds,
                        );
                    }
                }
            }
        }
    }
}

/// The end of a turn, once the session is known.
proof fn ended_asks(session_id: Seq<char>, t: TriggerView, now: Seq<char>, s: Script)
    ensures
        host_laws::only(s, engine::ended_run(session_id, t, now, s).0, engine_kinds()),
{
    let kinds = engine_kinds();
    let (s1, taken) = s.acquire();
    host_laws::only_ask(s, RequestView::AcquireLease, kinds);
    if let Some(true) = taken {
        host_laws::listing_reads(s1);
        let (s2, r) = state::list_orchestrators_run(s1);
        host_laws::only_more(s1, s2, host_laws::reading(), kinds);
        host_laws::only_both(s, s1, s2, kinds);
        if let Some(Ok(orchs)) = r {
            ended_walk_asks(orchs, session_id, t, now, None, s2);
            host_laws::only_both(
                s,
                s2,
                engine::ended_walk_run(orchs, session_id, t, now, None, s2).0,
                kinds,
            );
        }
        host_laws::only_released(s, engine::ended_leased_run(session_id, t, now, s1), kinds);
    }
}

} // verus!

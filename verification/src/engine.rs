//! The orchestrator trigger engine.
//!
//! Three ways in:
//! - `timer.tick` (about every 30 s): due schedules, autonomy watchdogs,
//!   waiting triggers, and the stored clock that everything else reads.
//! - `session.agent.ended`: a watched session went idle, so its watchers fire
//!   (or coalesce); the end of a brain's own turn delivers what waited.
//! - the management page: manual run and dry run.
//!
//! A fire delivers the orchestrator's rendered prompt to its brain session.
//! The guards of every fire, in order: global pause, enabled and not paused,
//! hourly cap (which pauses), cooldown, busy brain (which coalesces), and
//! consecutive failures (which disable).

use vstd::prelude::*;
use vstd::string::*;

use crate::host::{self, Host, HostFn, Script};
use crate::json::{self, Fields, Json, JsonView};
use crate::records::{
    self, ETA_HISTORY_CAP, MAX_CONSECUTIVE_FAILURES, Orchestrator, OrchestratorView,
    PendingTrigger, PendingView, StandardsView, StatsView,
};
use crate::state;
use crate::text::{self, same};
use crate::time;

verus! {

/// What set a fire off, for `{{trigger}}` and the activity feed.
#[derive(Debug, Clone)]
pub struct Trigger {
    /// schedule | watchdog | session_idle | manual | coalesced
    pub kind: String,
    pub session_id: Option<String>,
    pub session_name: Option<String>,
    pub outcome: Option<String>,
    /// Coalesced triggers folded into this fire.
    pub pending: Vec<PendingTrigger>,
}

/// What a [`Trigger`] holds.
#[verifier::ext_equal]
pub struct TriggerView {
    pub kind: Seq<char>,
    pub session_id: Option<Seq<char>>,
    pub session_name: Option<Seq<char>>,
    pub outcome: Option<Seq<char>>,
    pub pending: Seq<PendingView>,
}

impl View for Trigger {
    type V = TriggerView;

    open spec fn view(&self) -> TriggerView {
        TriggerView {
            kind: self.kind@,
            session_id: self.session_id.deep_view(),
            session_name: self.session_name.deep_view(),
            outcome: self.outcome.deep_view(),
            pending: self.pending.deep_view(),
        }
    }
}

impl TriggerView {
    /// A trigger that is about no session.
    pub open spec fn simple(kind: Seq<char>) -> Self {
        TriggerView {
            kind,
            session_id: None,
            session_name: None,
            outcome: None,
            pending: Seq::empty(),
        }
    }

    /// A trigger that delivers the waiting ones.
    pub open spec fn coalesced(pending: Seq<PendingView>) -> Self {
        TriggerView { pending, ..TriggerView::simple("coalesced"@) }
    }

    /// A watched session went idle.
    pub open spec fn session_idle(
        session_id: Seq<char>,
        session_name: Seq<char>,
        outcome: Seq<char>,
    ) -> Self {
        TriggerView {
            kind: "session_idle"@,
            session_id: Some(session_id),
            session_name: Some(session_name),
            outcome: Some(outcome),
            pending: Seq::empty(),
        }
    }
}

impl Trigger {
    /// A trigger that is about no session.
    pub fn simple(kind: &str) -> (r: Self)
        ensures
            r@ == TriggerView::simple(kind@),
    {
        Trigger {
            kind: kind.to_owned(),
            session_id: None,
            session_name: None,
            outcome: None,
            pending: Vec::new(),
        }
    }

    /// A watched session went idle.
    pub fn session_idle(session_id: &str, session_name: &str, outcome: &str) -> (r: Self)
        ensures
            r@ == TriggerView::session_idle(session_id@, session_name@, outcome@),
    {
        Trigger {
            kind: "session_idle".to_owned(),
            session_id: Some(session_id.to_owned()),
            session_name: Some(session_name.to_owned()),
            outcome: Some(outcome.to_owned()),
            pending: Vec::new(),
        }
    }
}

// ── Standing prompt ───────────────────────────────────────────────────

/// The standing prompt, before the name.
pub const STANDING_NAME: &'static str = "You are the brain of the Peckboard orchestrator \"";

/// The standing prompt, between the name and the goal.
pub const STANDING_GOAL: &'static str = "\". You work fully \
autonomously: no user is watching, and you are re-engaged automatically whenever a \
watched session goes idle, on schedule, and by a watchdog while the goal below is \
not done.\n\n\
## Goal (drive these requirements to completion)\n";

/// The standing prompt, between the goal and the standards.
pub const STANDING_RULES: &'static str = "\n\n\
## Your powers (MCP tools)\n\
- create_session: spawn a new session when more work is required (it is auto-watched).\n\
- assign_hat: give a session a hat — a named scope of responsibility written into its \
system prompt.\n\
- send_message / interrupt_session / terminate_agent: direct, unblock, or stop sessions.\n\
- watch_session / unwatch_session: adjust which sessions re-engage you when they go idle.\n\
- list_managed_sessions: your sessions, their hats, and busy state.\n\
- update_goal_status: report state (in_progress|blocked|done), percent, note, AND \
eta_minutes — your current estimate of minutes until the ENTIRE goal is implemented.\n\
- orchestrator_report: log a one-line summary of what you just did (shown to the user).\n\n\
## Operating rules\n\
1. FIRST ACTION on your first engagement: break the goal into remaining work and call \
update_goal_status with an initial eta_minutes estimate before doing anything else.\n\
2. Re-estimate eta_minutes on every update_goal_status call; keep it honest.\n\
3. After every burst of work, call orchestrator_report with what happened.\n\
4. Delegate real work to sessions you create; give each a hat. Review results when \
they go idle.\n\
5. Call update_goal_status with state=done ONLY when every requirement is implemented \
and verified.\n";

/// The first line of the standards.
pub const STANDARDS_HEAD: &'static str =
    "\n## Standards you must enforce before accepting any work as done";

/// The development standard.
pub const STANDARDS_DEV: &'static str =
    "- Development: code builds cleanly, passes the project's linters/formatters, and \
follows the repo's existing conventions.";

/// The testing standard.
pub const STANDARDS_TESTING: &'static str =
    "- Testing: unit/integration tests for new behaviour and an end-to-end test per \
user-visible flow, all passing (run the project's verification script when it has one).";

/// The UX standard.
pub const STANDARDS_UX: &'static str =
    "- UX: UI changes are verified in a real browser, and when the ui-gauge plugin is \
installed, scored against the user's design baselines (ui_gauge_rubric → score the \
screenshots → ui_gauge_score) and at or above the bar; subpar scores create follow-up \
work you must drive.";

/// The last line of the standards.
pub const STANDARDS_TAIL: &'static str =
    "Work that misses a standard is NOT done: create follow-up sessions/cards and keep \
driving until it passes.";

/// The line, where it is switched on.
pub open spec fn line_if(on: bool, line: Seq<char>) -> Seq<Seq<char>> {
    if on {
        seq![line]
    } else {
        Seq::empty()
    }
}

/// Whether no standard is asked for.
pub open spec fn no_standards(s: StandardsView) -> bool {
    !s.dev && !s.testing && !s.ux && text::blank(s.custom)
}

/// The lines of the standards: those that are switched on, then the custom
/// one, between the first line and the last.
pub open spec fn standards_lines(s: StandardsView) -> Seq<Seq<char>> {
    (seq![STANDARDS_HEAD@] + line_if(s.dev, STANDARDS_DEV@) + line_if(s.testing, STANDARDS_TESTING@)
        + line_if(s.ux, STANDARDS_UX@) + line_if(
        !text::blank(s.custom),
        "- Custom: "@ + text::trim(s.custom),
    )).push(STANDARDS_TAIL@)
}

/// The standards block; empty where no standard is asked for.
pub open spec fn standards(s: StandardsView) -> Seq<char> {
    if no_standards(s) {
        Seq::empty()
    } else {
        text::joined(standards_lines(s), "\n"@)
    }
}

/// Appends a line, where it is switched on.
fn add_line(lines: &mut Vec<String>, on: bool, line: &str)
    ensures
        final(lines).deep_view() == old(lines).deep_view() + line_if(on, line@),
{
    let ghost before = lines.deep_view();
    if on {
        lines.push(line.to_owned());
    }
    assert(lines.deep_view() =~= before + line_if(on, line@));
}

/// The standards block for the standing prompt and `{{standards}}`.
pub fn standards_text(o: &Orchestrator) -> (r: String)
    ensures
        r@ == standards(o@.standards),
{
    let s = &o.standards;
    let custom = !text::is_blank(s.custom.as_str());
    if !s.dev && !s.testing && !s.ux && !custom {
        return String::new();
    }
    let mut lines: Vec<String> = Vec::new();
    lines.push(STANDARDS_HEAD.to_owned());
    assert(lines.deep_view() =~= seq![STANDARDS_HEAD@]);
    add_line(&mut lines, s.dev, STANDARDS_DEV);
    add_line(&mut lines, s.testing, STANDARDS_TESTING);
    add_line(&mut lines, s.ux, STANDARDS_UX);
    let line = "- Custom: ".to_owned().concat(text::trim_text(s.custom.as_str()).as_str());
    add_line(&mut lines, custom, line.as_str());
    let ghost before = lines.deep_view();
    lines.push(STANDARDS_TAIL.to_owned());
    assert(lines.deep_view() =~= before.push(STANDARDS_TAIL@));
    text::join(&lines, "\n")
}

/// The goal as the standing prompt names it.
pub open spec fn goal_text(goal: Seq<char>) -> Seq<char> {
    if text::blank(goal) {
        "(no goal set)"@
    } else {
        text::trim(goal)
    }
}

/// The standing prompt of a brain.
pub open spec fn standing(o: OrchestratorView) -> Seq<char> {
    STANDING_NAME@ + o.name + STANDING_GOAL@ + goal_text(o.goal) + STANDING_RULES@ + standards(
        o.standards,
    )
}

/// The brain's standing system prompt: goal, powers, operating rules,
/// standards. Written at creation; refreshed when the record is edited.
pub fn standing_prompt(o: &Orchestrator) -> (r: String)
    ensures
        r@ == standing(o@),
{
    let goal = if text::is_blank(o.goal.as_str()) {
        "(no goal set)".to_owned()
    } else {
        text::trim_text(o.goal.as_str())
    };
    STANDING_NAME.to_owned().concat(o.name.as_str()).concat(STANDING_GOAL).concat(
        goal.as_str(),
    ).concat(STANDING_RULES).concat(standards_text(o).as_str())
}

// ── Guards ────────────────────────────────────────────────────────────

/// Whether the schedule has come round: there is one, and its slot has never
/// been set, has passed, or cannot be read.
pub open spec fn slot_due(o: OrchestratorView, now: Seq<char>) -> bool {
    &&& o.schedule.every_minutes is Some
    &&& match o.stats.next_due_at {
        None => true,
        Some(due) => match time::seconds(due, now) {
            Some(late) => late >= 0,
            None => true,
        },
    }
}

/// Whether the schedule has come round.
pub fn schedule_due(o: &Orchestrator, now: &str) -> (r: bool)
    ensures
        r == slot_due(o@, now@),
{
    if o.schedule.every_minutes.is_none() {
        return false;
    }
    match &o.stats.next_due_at {
        // Never scheduled yet: due immediately.
        None => true,
        Some(due) => match time::seconds_between(due.as_str(), now) {
            Some(late) => late >= 0,
            None => true,
        },
    }
}

/// Whether the brain is free: it does not exist yet, or is not marked busy.
pub open spec fn brain_is_idle_run(o: OrchestratorView, now: Seq<char>, s: Script) -> (
    Script,
    Option<bool>,
) {
    match o.session_id {
        None => (s, Some(true)),
        Some(brain) => {
            let (s, busy) = state::is_busy_run(brain, now, s);
            (
                s,
                match busy {
                    Some(busy) => Some(!busy),
                    None => None,
                },
            )
        },
    }
}

/// Whether the brain is free.
pub fn brain_is_idle(o: &Orchestrator, now: &str, host: &mut Host) -> (r: Option<bool>)
    ensures
        final(host)@ == brain_is_idle_run(o@, now@, old(host)@).0,
        r == brain_is_idle_run(o@, now@, old(host)@).1,
{
    match &o.session_id {
        None => Some(true),
        Some(brain) => Some(!state::is_busy(brain.as_str(), now, host)?),
    }
}

/// The watchdog's window in seconds; it wraps like the machine's integers.
pub open spec fn watchdog_window(o: OrchestratorView) -> i64 {
    (o.watchdog_minutes as i64).wrapping_mul(60)
}

/// Whether the last fire lies a whole watchdog window back.
pub open spec fn silent(o: OrchestratorView, now: Seq<char>) -> bool {
    o.stats.last_fired_at matches Some(last) && time::seconds(last, now) matches Some(age)
        && age >= watchdog_window(o)
}

/// Whether the goal is done or the watchdog switched off.
pub open spec fn watchdog_off(o: OrchestratorView) -> bool {
    o.goal_status.state == "done"@ || o.watchdog_minutes == 0
}

/// Whether the watchdog bites.
pub open spec fn watchdog_due_run(o: OrchestratorView, now: Seq<char>, s: Script) -> (
    Script,
    Option<bool>,
) {
    if watchdog_off(o) {
        (s, Some(false))
    } else if o.stats.last_fired_at is None {
        (s, Some(true))
    } else if !silent(o, now) {
        (s, Some(false))
    } else {
        brain_is_idle_run(o, now, s)
    }
}

/// The autonomy loop: while the goal isn't done, re-engage an idle brain
/// after `watchdog_minutes` of silence, no user input required.
pub fn watchdog_due(o: &Orchestrator, now: &str, host: &mut Host) -> (r: Option<bool>)
    ensures
        final(host)@ == watchdog_due_run(o@, now@, old(host)@).0,
        r == watchdog_due_run(o@, now@, old(host)@).1,
{
    if same(o.goal_status.state.as_str(), "done") || o.watchdog_minutes == 0 {
        return Some(false);
    }
    let since = match &o.stats.last_fired_at {
        // Never fired: produce the first estimate and plan.
        None => {
            return Some(true);
        },
        Some(t) => t,
    };
    let window: i64 = (o.watchdog_minutes as i64).wrapping_mul(60);
    match time::seconds_between(since.as_str(), now) {
        Some(age) => if age >= window {
            brain_is_idle(o, now, host)
        } else {
            Some(false)
        },
        None => Some(false),
    }
}

/// Whether the last fire is too recent for another.
pub open spec fn cooling(o: OrchestratorView, now: Seq<char>) -> bool {
    o.stats.last_fired_at matches Some(last) && time::seconds(last, now) matches Some(age) && age
        < o.cooldown_secs as i64
}

/// Whether the last fire is too recent for another.
pub fn in_cooldown(o: &Orchestrator, now: &str) -> (r: bool)
    ensures
        r == cooling(o@, now@),
{
    match &o.stats.last_fired_at {
        Some(last) => match time::seconds_between(last.as_str(), now) {
            Some(age) => age < o.cooldown_secs as i64,
            None => false,
        },
        None => false,
    }
}

/// Whether a fire falls within the last hour.
pub open spec fn recent(fired: Seq<char>, now: Seq<char>) -> bool {
    time::seconds(fired, now) matches Some(age) && age < 3600
}

/// The fires of the last hour, in order.
pub open spec fn recent_fires(times: Seq<Seq<char>>, now: Seq<char>) -> Seq<Seq<char>>
    decreases times.len(),
{
    if times.len() == 0 {
        times
    } else if recent(times.last(), now) {
        recent_fires(times.drop_last(), now).push(times.last())
    } else {
        recent_fires(times.drop_last(), now)
    }
}

/// The record with only the fires of the last hour in its window.
pub open spec fn pruned(o: OrchestratorView, now: Seq<char>) -> OrchestratorView {
    OrchestratorView {
        stats: StatsView { fire_times: recent_fires(o.stats.fire_times, now), ..o.stats },
        ..o
    }
}

/// Whether the window is full.
pub open spec fn capped(o: OrchestratorView) -> bool {
    o.stats.fire_times.len() as u32 >= o.caps.max_fires_per_hour
}

/// Prune the rolling window and check the hourly cap.
pub fn over_fire_cap(o: &mut Orchestrator, now: &str) -> (r: bool)
    ensures
        final(o)@ == pruned(old(o)@, now@),
        r == capped(pruned(old(o)@, now@)),
{
    let mut kept: Vec<String> = Vec::new();
    let ghost all = o.stats.fire_times.deep_view();
    let mut i: usize = 0;
    assert(kept.deep_view() =~= recent_fires(all.take(0), now@));
    while i < o.stats.fire_times.len()
        invariant
            *o == *old(o),
            all == o.stats.fire_times.deep_view(),
            0 <= i <= all.len(),
            kept.deep_view() == recent_fires(all.take(i as int), now@),
        decreases all.len() - i,
    {
        assert(all.take(i + 1).drop_last() == all.take(i as int));
        assert(all.take(i + 1).last() == all[i as int]);
        let ghost before = kept.deep_view();
        if let Some(age) = time::seconds_between(o.stats.fire_times[i].as_str(), now) {
            if age < 3600 {
                kept.push(o.stats.fire_times[i].clone());
                assert(kept.deep_view() =~= before.push(all[i as int]));
            }
        }
        i = i + 1;
    }
    assert(all.take(i as int) == all);
    o.stats.fire_times = kept;
    o.stats.fire_times.len() as u32 >= o.caps.max_fires_per_hour
}

// ── Bookkeeping ───────────────────────────────────────────────────────

/// The number of triggers that can wait.
pub const PENDING_CAP: usize = 20;

/// Whether a trigger about the same session waits already.
pub open spec fn waiting(queue: Seq<PendingView>, p: PendingView) -> bool {
    p.session_id is Some && exists|i: int|
        0 <= i < queue.len() && (#[trigger] queue[i]).session_id == p.session_id
}

/// The triggers whose session has none waiting, in order.
pub open spec fn not_waiting(queue: Seq<PendingView>, parts: Seq<PendingView>) -> Seq<PendingView>
    decreases parts.len(),
{
    if parts.len() == 0 {
        parts
    } else if waiting(queue, parts.last()) {
        not_waiting(queue, parts.drop_last())
    } else {
        not_waiting(queue, parts.drop_last()).push(parts.last())
    }
}

/// What a trigger leaves in the queue: the triggers folded into it, or itself.
pub open spec fn parts_of(t: TriggerView, now: Seq<char>) -> Seq<PendingView> {
    if t.pending.len() == 0 {
        seq![
            PendingView {
                ts: now,
                kind: t.kind,
                session_id: t.session_id,
                session_name: t.session_name,
                outcome: t.outcome,
            },
        ]
    } else {
        t.pending
    }
}

/// The record with the trigger waiting. Of the triggers about one session the
/// first stays, and of all of them the newest stay.
pub open spec fn queued(o: OrchestratorView, t: TriggerView, now: Seq<char>) -> OrchestratorView {
    OrchestratorView {
        pending_triggers: records::newest(
            o.pending_triggers + not_waiting(o.pending_triggers, parts_of(t, now)),
            PENDING_CAP as nat,
        ),
        ..o
    }
}

/// Whether two optional texts are the same.
fn same_opt(a: &Option<String>, b: &Option<String>) -> (r: bool)
    ensures
        r == (a.deep_view() == b.deep_view()),
{
    match (a, b) {
        (Some(a), Some(b)) => same(a.as_str(), b.as_str()),
        (None, None) => true,
        _ => false,
    }
}

/// Whether a trigger about the same session waits already.
fn is_waiting(queue: &Vec<PendingTrigger>, p: &PendingTrigger) -> (r: bool)
    ensures
        r == waiting(queue.deep_view(), p.deep_view()),
{
    if p.session_id.is_none() {
        return false;
    }
    let mut i: usize = 0;
    while i < queue.len()
        invariant
            0 <= i <= queue@.len(),
            p.session_id is Some,
            forall|k: int|
                0 <= k < i ==> (#[trigger] queue.deep_view()[k]).session_id
                    != p.deep_view().session_id,
        decreases queue@.len() - i,
    {
        assert(queue.deep_view()[i as int] == queue@[i as int].deep_view());
        if same_opt(&queue[i].session_id, &p.session_id) {
            return true;
        }
        i = i + 1;
    }
    false
}

/// Leaves a trigger in the queue. One that is already coalesced is taken apart
/// again, and what repeats a waiting session is dropped.
pub fn queue_pending(o: &mut Orchestrator, trigger: Trigger, now: &str)
    ensures
        final(o)@ == queued(old(o)@, trigger@, now@),
{
    let parts = if trigger.pending.len() == 0 {
        let mut one: Vec<PendingTrigger> = Vec::new();
        one.push(
            PendingTrigger {
                ts: now.to_owned(),
                kind: trigger.kind,
                session_id: trigger.session_id,
                session_name: trigger.session_name,
                outcome: trigger.outcome,
            },
        );
        one
    } else {
        trigger.pending
    };
    assert(parts.deep_view() =~= parts_of(trigger@, now@));
    let ghost queue = o.pending_triggers.deep_view();
    let ghost all = parts@;
    let ghost views = parts.deep_view();
    let mut kept: Vec<PendingTrigger> = Vec::new();
    assert(kept.deep_view() =~= not_waiting(queue, views.take(0)));
    for p in it: parts
        invariant
            *o == *old(o),
            queue == o.pending_triggers.deep_view(),
            it.seq() == all,
            views.len() == all.len(),
            forall|k: int| 0 <= k < all.len() ==> views[k] == (#[trigger] all[k]).deep_view(),
            kept.deep_view() == not_waiting(queue, views.take(it.index() as int)),
    {
        let ghost k = it.index() as int;
        let ghost before = kept.deep_view();
        assert(views.take(k + 1).drop_last() == views.take(k));
        assert(views.take(k + 1).last() == p.deep_view());
        if !is_waiting(&o.pending_triggers, &p) {
            kept.push(p);
            assert(kept.deep_view() =~= before.push(p.deep_view()));
        }
    }
    assert(views.take(views.len() as int) == views);
    let ghost added = kept.deep_view();
    o.pending_triggers.append(&mut kept);
    assert(o.pending_triggers.deep_view() =~= queue + added);
    let ghost whole = o.pending_triggers.deep_view();
    records::keep_newest(&mut o.pending_triggers, PENDING_CAP);
    assert(o.pending_triggers.deep_view() =~= records::newest(whole, PENDING_CAP as nat));
}

/// The record after a delivery failed; from the third failure in a row on, it
/// is disabled.
pub open spec fn failed(o: OrchestratorView, now: Seq<char>, err: Seq<char>) -> OrchestratorView {
    let n = o.consecutive_failures.wrapping_add(1);
    let o = OrchestratorView { consecutive_failures: n, error: Some(err), ..o };
    if n >= MAX_CONSECUTIVE_FAILURES {
        OrchestratorView { enabled: false, ..o }.logged(
            now,
            "backoff"@,
            text::decimal(n as nat) + " consecutive failures — auto-disabled. Last error: "@ + err,
        )
    } else {
        o.logged(now, "error"@, err)
    }
}

/// Failure bookkeeping; disables after [`MAX_CONSECUTIVE_FAILURES`]. The answer
/// is always that nothing was sent.
pub fn record_failure(o: &mut Orchestrator, now: &str, err: &str) -> (r: bool)
    ensures
        final(o)@ == failed(old(o)@, now@, err@),
        !r,
{
    o.consecutive_failures = o.consecutive_failures.wrapping_add(1);
    o.error = Some(err.to_owned());
    if o.consecutive_failures >= MAX_CONSECUTIVE_FAILURES {
        o.enabled = false;
        let detail = text::decimal_text(o.consecutive_failures as u64).concat(
            " consecutive failures — auto-disabled. Last error: ",
        ).concat(err);
        o.push_log(now, "backoff", detail);
    } else {
        o.push_log(now, "error", err.to_owned());
    }
    false
}

/// The sample of an estimate.
pub open spec fn eta_sample(now: Seq<char>, minutes: u64, percent: Option<u8>) -> JsonView {
    JsonView::Object(
        map![
            "ts"@ => JsonView::Text(now),
            "minutes_remaining"@ => json::uint_view(minutes),
            "percent"@ => records::percent_view(percent)
        ],
    )
}

/// The record with one more sample in the history of estimates.
pub open spec fn sampled(o: OrchestratorView, now: Seq<char>, minutes: u64) -> OrchestratorView {
    OrchestratorView {
        eta_history: records::newest(
            o.eta_history.push(eta_sample(now, minutes, o.goal_status.percent)),
            ETA_HISTORY_CAP as nat,
        ),
        ..o
    }
}

/// Append an ETA sample, capped.
pub fn push_eta_history(o: &mut Orchestrator, now: &str, minutes_remaining: u64)
    ensures
        final(o)@ == sampled(old(o)@, now@, minutes_remaining),
{
    let ghost before = o.eta_history.deep_view();
    let sample = Fields::new().with("ts", Json::text(now)).with(
        "minutes_remaining",
        Json::uint(minutes_remaining),
    ).with("percent", records::percent_json(o.goal_status.percent)).done();
    let ghost view = sample@;
    o.eta_history.push(sample);
    assert(o.eta_history.deep_view() =~= before.push(view));
    let ghost whole = o.eta_history.deep_view();
    records::keep_newest(&mut o.eta_history, ETA_HISTORY_CAP);
    assert(o.eta_history.deep_view() =~= records::newest(whole, ETA_HISTORY_CAP as nat));
}

// ── Prompt rendering ──────────────────────────────────────────────────

/// The trigger prompt of a record that has none of its own.
pub const DEFAULT_PROMPT: &'static str =
    "Trigger: {{trigger}}. Review the state of your goal and managed sessions, act on \
anything that needs you, and report via orchestrator_report + update_goal_status.";

/// A waiting trigger in words.
pub open spec fn pending_words(p: PendingView) -> Seq<char> {
    p.kind + " \""@ + text::or_else(p.session_name, "?"@) + "\" ("@ + text::or_else(
        p.outcome,
        "-"@,
    ) + ")"@
}

/// The waiting triggers in words.
pub open spec fn pending_text(pending: Seq<PendingView>) -> Seq<char> {
    if pending.len() == 0 {
        "none"@
    } else {
        text::joined(Seq::new(pending.len(), |i: int| pending_words(pending[i])), "; "@)
    }
}

/// The waiting triggers in words.
fn pending_string(pending: &Vec<PendingTrigger>) -> (r: String)
    ensures
        r@ == pending_text(pending.deep_view()),
{
    if pending.len() == 0 {
        return "none".to_owned();
    }
    let mut words: Vec<String> = Vec::new();
    let mut i: usize = 0;
    while i < pending.len()
        invariant
            0 <= i <= pending@.len(),
            words@.len() == i,
            forall|k: int|
                0 <= k < i ==> (#[trigger] words@[k])@ == pending_words(pending@[k].deep_view()),
        decreases pending@.len() - i,
    {
        let p = &pending[i];
        words.push(
            p.kind.clone().concat(" \"").concat(
                text::str_or(records::opt_str(&p.session_name), "?"),
            ).concat("\" (").concat(text::str_or(records::opt_str(&p.outcome), "-")).concat(")"),
        );
        i = i + 1;
    }
    let ghost views = pending.deep_view();
    assert(words.deep_view() =~= Seq::new(views.len(), |i: int| pending_words(views[i])));
    text::join(&words, "; ")
}

/// The estimate in words.
pub open spec fn eta_text(o: OrchestratorView) -> Seq<char> {
    match o.goal_status.eta {
        Some(e) => text::decimal(e.minutes_remaining as nat) + " min remaining (projected "@
            + e.projected_at + ", estimated at "@ + e.updated_at + ")"@,
        None => "no estimate yet — produce one via update_goal_status"@,
    }
}

/// The estimate in words.
fn eta_string(o: &Orchestrator) -> (r: String)
    ensures
        r@ == eta_text(o@),
{
    match &o.goal_status.eta {
        Some(e) => text::decimal_text(e.minutes_remaining).concat(
            " min remaining (projected ",
        ).concat(e.projected_at.as_str()).concat(", estimated at ").concat(
            e.updated_at.as_str(),
        ).concat(")"),
        None => "no estimate yet — produce one via update_goal_status".to_owned(),
    }
}

/// The trigger in words.
pub open spec fn trigger_text(t: TriggerView) -> Seq<char> {
    if t.kind == "session_idle"@ {
        "watched session \""@ + text::or_else(t.session_name, "?"@) + "\" finished its turn ("@
            + text::or_else(t.outcome, "?"@) + ")"@
    } else if t.kind == "coalesced"@ {
        text::decimal(t.pending.len()) + " events while you were busy: "@ + pending_text(t.pending)
    } else {
        t.kind
    }
}

/// The trigger in words.
fn trigger_string(t: &Trigger) -> (r: String)
    ensures
        r@ == trigger_text(t@),
{
    if same(t.kind.as_str(), "session_idle") {
        "watched session \"".to_owned().concat(
            text::str_or(records::opt_str(&t.session_name), "?"),
        ).concat("\" finished its turn (").concat(
            text::str_or(records::opt_str(&t.outcome), "?"),
        ).concat(")")
    } else if same(t.kind.as_str(), "coalesced") {
        text::decimal_text(t.pending.len() as u64).concat(" events while you were busy: ").concat(
            pending_string(&t.pending).as_str(),
        )
    } else {
        t.kind.clone()
    }
}

/// The prompt of a fire, given the number of busy sessions: the template, with
/// its variables replaced one after the other.
pub open spec fn rendered(o: OrchestratorView, t: TriggerView, busy: nat) -> Seq<char> {
    let p = if text::blank(o.prompt) {
        DEFAULT_PROMPT@
    } else {
        o.prompt
    };
    let p = text::replace_all(p, "{{trigger}}"@, trigger_text(t));
    let p = text::replace_all(p, "{{session_name}}"@, text::or_else(t.session_name, ""@));
    let p = text::replace_all(p, "{{outcome}}"@, text::or_else(t.outcome, ""@));
    let p = text::replace_all(p, "{{goal}}"@, text::trim(o.goal));
    let p = text::replace_all(p, "{{watched_busy_count}}"@, text::decimal(busy));
    let p = text::replace_all(p, "{{pending}}"@, pending_text(t.pending));
    let p = text::replace_all(p, "{{eta}}"@, eta_text(o));
    text::replace_all(p, "{{standards}}"@, standards(o.standards))
}

/// The prompt of a fire, given the number of busy sessions.
pub fn render(o: &Orchestrator, t: &Trigger, busy: u64) -> (r: String)
    ensures
        r@ == rendered(o@, t@, busy as nat),
{
    proof {
        reveal_strlit("{{trigger}}");
        reveal_strlit("{{session_name}}");
        reveal_strlit("{{outcome}}");
        reveal_strlit("{{goal}}");
        reveal_strlit("{{watched_busy_count}}");
        reveal_strlit("{{pending}}");
        reveal_strlit("{{eta}}");
        reveal_strlit("{{standards}}");
    }
    let p = if text::is_blank(o.prompt.as_str()) {
        DEFAULT_PROMPT.to_owned()
    } else {
        o.prompt.clone()
    };
    let p = text::replace_text(p.as_str(), "{{trigger}}", trigger_string(t).as_str());
    let p = text::replace_text(
        p.as_str(),
        "{{session_name}}",
        text::str_or(records::opt_str(&t.session_name), ""),
    );
    let p = text::replace_text(
        p.as_str(),
        "{{outcome}}",
        text::str_or(records::opt_str(&t.outcome), ""),
    );
    let p = text::replace_text(p.as_str(), "{{goal}}", text::trim_text(o.goal.as_str()).as_str());
    let p = text::replace_text(
        p.as_str(),
        "{{watched_busy_count}}",
        text::decimal_text(busy).as_str(),
    );
    let p = text::replace_text(p.as_str(), "{{pending}}", pending_string(&t.pending).as_str());
    let p = text::replace_text(p.as_str(), "{{eta}}", eta_string(o).as_str());
    text::replace_text(p.as_str(), "{{standards}}", standards_text(o).as_str())
}

/// The sessions that an orchestrator manages: the watched ones, then the
/// created ones.
pub open spec fn managed(o: OrchestratorView) -> Seq<Seq<char>> {
    o.watch.sessions + o.created_sessions
}

/// The sessions that an orchestrator manages.
pub fn managed_ids(o: &Orchestrator) -> (r: Vec<String>)
    ensures
        r.deep_view() == managed(o@),
{
    let mut ids = records::copy_texts(&o.watch.sessions);
    let mut created = records::copy_texts(&o.created_sessions);
    let ghost a = ids.deep_view();
    let ghost b = created.deep_view();
    ids.append(&mut created);
    assert(ids.deep_view() =~= a + b);
    ids
}

/// Counts the busy sessions, on top of `n`.
pub open spec fn count_busy_run(ids: Seq<Seq<char>>, now: Seq<char>, n: nat, s: Script) -> (
    Script,
    Option<nat>,
)
    decreases ids.len(),
{
    if ids.len() == 0 {
        (s, Some(n))
    } else {
        let (s, busy) = state::is_busy_run(ids[0], now, s);
        match busy {
            None => (s, None),
            Some(busy) => count_busy_run(
                ids.skip(1),
                now,
                if busy {
                    n + 1
                } else {
                    n
                },
                s,
            ),
        }
    }
}

/// Counts the busy sessions.
fn count_busy(ids: &Vec<String>, now: &str, host: &mut Host) -> (r: Option<u64>)
    ensures
        final(host)@ == count_busy_run(ids.deep_view(), now@, 0, old(host)@).0,
        (match r {
            Some(n) => Some(n as nat),
            None => None,
        }) == count_busy_run(ids.deep_view(), now@, 0, old(host)@).1,
{
    let ghost all = ids.deep_view();
    let mut n: u64 = 0;
    let mut i: usize = 0;
    assert(all.skip(0) == all);
    while i < ids.len()
        invariant
            all == ids.deep_view(),
            0 <= i <= ids@.len(),
            n <= i,
            count_busy_run(all, now@, 0, old(host)@) == count_busy_run(
                all.skip(i as int),
                now@,
                n as nat,
                host@,
            ),
        decreases ids@.len() - i,
    {
        assert(all.skip(i as int).skip(1) == all.skip(i + 1));
        assert(all.skip(i as int)[0] == ids@[i as int]@);
        if state::is_busy(ids[i].as_str(), now, host)? {
            n = n + 1;
        }
        i = i + 1;
    }
    Some(n)
}

/// Renders the prompt of a fire.
pub open spec fn render_prompt_run(
    o: OrchestratorView,
    t: TriggerView,
    now: Seq<char>,
    s: Script,
) -> (Script, Option<Seq<char>>) {
    let (s, busy) = count_busy_run(managed(o), now, 0, s);
    (
        s,
        match busy {
            Some(busy) => Some(rendered(o, t, busy)),
            None => None,
        },
    )
}

/// The prompt of a fire, with the present number of busy sessions.
pub fn render_prompt(o: &Orchestrator, t: &Trigger, now: &str, host: &mut Host) -> (r: Option<
    String,
>)
    ensures
        final(host)@ == render_prompt_run(o@, t@, now@, old(host)@).0,
        r.deep_view() == render_prompt_run(o@, t@, now@, old(host)@).1,
{
    let ids = managed_ids(o);
    let busy: u64 = count_busy(&ids, now, host)?;
    Some(render(o, t, busy))
}

// ── Brain session ─────────────────────────────────────────────────────

/// The request that is about one session.
pub open spec fn about_session(session_id: Seq<char>) -> JsonView {
    JsonView::Object(map!["session_id"@ => JsonView::Text(session_id)])
}

/// The request that is about one session.
pub fn about_session_json(session_id: &str) -> (r: Json)
    ensures
        r@ == about_session(session_id@),
{
    Fields::new().with("session_id", Json::text(session_id)).done()
}

/// The id of the session in an answer.
pub open spec fn session_id_in(created: JsonView) -> Option<Seq<char>> {
    match created.get("session"@) {
        Some(session) => session.text_at("id"@),
        None => None,
    }
}

/// The id of the session in an answer.
pub fn created_session_id(created: &Json) -> (r: Option<String>)
    ensures
        r.deep_view() == session_id_in(created@),
{
    match created.get("session") {
        Some(session) => match session.text_at("id") {
            Some(id) => Some(id.to_owned()),
            None => None,
        },
        None => None,
    }
}

/// What is asked of the host to create the brain.
pub open spec fn brain_request(o: OrchestratorView) -> JsonView {
    JsonView::Object(
        map![
            "folder_id"@ => JsonView::Text(o.folder_id),
            "name"@ => JsonView::Text(o.name + " (orchestrator)"@),
            "model"@ => json::opt_text_view(o.model),
            "system_prompt"@ => JsonView::Text(standing(o))
        ],
    )
}

/// The record once its brain exists.
pub open spec fn embodied(o: OrchestratorView, now: Seq<char>, brain: Seq<char>) -> OrchestratorView {
    OrchestratorView { session_id: Some(brain), ..o }.logged(
        now,
        "created_session"@,
        "brain session created: "@ + brain,
    )
}

/// The record once its brain is known to be gone.
pub open spec fn bereft(o: OrchestratorView, now: Seq<char>, brain: Seq<char>) -> OrchestratorView {
    OrchestratorView { session_id: None, ..o }.logged(
        now,
        "error"@,
        "brain session "@ + brain + " is gone — recreating"@,
    )
}

/// Creates the brain.
pub open spec fn create_brain_run(o: OrchestratorView, now: Seq<char>, s: Script) -> (
    Script,
    Option<(OrchestratorView, Result<(), Seq<char>>)>,
) {
    let (s, r) = s.call(HostFn::OrchestrateCreateSession, brain_request(o));
    (
        s,
        match r {
            None => None,
            Some(Err(e)) => Some((o, Err(e))),
            Some(Ok(created)) => match session_id_in(created) {
                None => Some((o, Err("create_session returned no session id"@))),
                Some(brain) => Some((embodied(o, now, brain), Ok(()))),
            },
        },
    )
}

/// Creates the brain.
fn create_brain(o: &mut Orchestrator, now: &str, host: &mut Host) -> (r: Option<
    Result<(), String>,
>)
    ensures
        final(host)@ == create_brain_run(old(o)@, now@, old(host)@).0,
        (match r {
            None => None,
            Some(r) => Some((final(o)@, json::result_view(r))),
        }) == create_brain_run(old(o)@, now@, old(host)@).1,
{
    let input = Fields::new().with("folder_id", Json::text(o.folder_id.as_str())).with(
        "name",
        Json::Text(o.name.clone().concat(" (orchestrator)")),
    ).with("model", Json::opt_text(records::opt_str(&o.model))).with(
        "system_prompt",
        Json::Text(standing_prompt(o)),
    ).done();
    match host.call(HostFn::OrchestrateCreateSession, input)? {
        Err(e) => Some(Err(e)),
        Ok(created) => match created_session_id(&created) {
            None => Some(Err("create_session returned no session id".to_owned())),
            Some(brain) => {
                o.push_log(
                    now,
                    "created_session",
                    "brain session created: ".to_owned().concat(brain.as_str()),
                );
                o.session_id = Some(brain);
                Some(Ok(()))
            },
        },
    }
}

/// Makes sure that the brain exists.
pub open spec fn ensure_brain_run(o: OrchestratorView, now: Seq<char>, s: Script) -> (
    Script,
    Option<(OrchestratorView, Result<(), Seq<char>>)>,
) {
    match o.session_id {
        None => create_brain_run(o, now, s),
        Some(brain) => {
            let (s, r) = s.call(HostFn::OrchestrateSessionState, about_session(brain));
            match r {
                None => (s, None),
                Some(Err(e)) => (s, Some((o, Err(e)))),
                Some(Ok(st)) => if st.bool_at("exists"@) == Some(true) {
                    (s, Some((o, Ok(()))))
                } else {
                    create_brain_run(bereft(o, now, brain), now, s)
                },
            }
        },
    }
}

/// Make sure the brain session exists; (re)create it when missing or deleted.
pub fn ensure_brain(o: &mut Orchestrator, now: &str, host: &mut Host) -> (r: Option<
    Result<(), String>,
>)
    ensures
        final(host)@ == ensure_brain_run(old(o)@, now@, old(host)@).0,
        (match r {
            None => None,
            Some(r) => Some((final(o)@, json::result_view(r))),
        }) == ensure_brain_run(old(o)@, now@, old(host)@).1,
{
    if let Some(brain) = records::copy_opt(&o.session_id) {
        let st = match host.call(
            HostFn::OrchestrateSessionState,
            about_session_json(brain.as_str()),
        )? {
            Ok(st) => st,
            Err(e) => {
                return Some(Err(e));
            },
        };
        if let Some(true) = st.bool_at("exists") {
            return Some(Ok(()));
        }
        o.push_log(
            now,
            "error",
            "brain session ".to_owned().concat(brain.as_str()).concat(" is gone — recreating"),
        );
        o.session_id = None;
    }
    create_brain(o, now, host)
}

/// The folder of the session in an answer.
pub open spec fn folder_in(st: JsonView) -> Option<Seq<char>> {
    match st.get("session"@) {
        Some(session) => session.text_at("folder_id"@),
        None => None,
    }
}

/// Asks for the folder of a session.
pub open spec fn session_folder_run(session_id: Seq<char>, s: Script) -> (
    Script,
    Option<Option<Seq<char>>>,
) {
    let (s, r) = s.call(HostFn::OrchestrateSessionState, about_session(session_id));
    (
        s,
        match r {
            None => None,
            Some(Err(_)) => Some(None),
            Some(Ok(st)) => Some(folder_in(st)),
        },
    )
}

/// The folder of a session, where the host knows it.
pub fn session_folder(session_id: &str, host: &mut Host) -> (r: Option<Option<String>>)
    ensures
        final(host)@ == session_folder_run(session_id@, old(host)@).0,
        r.deep_view() == session_folder_run(session_id@, old(host)@).1,
{
    match host.call(HostFn::OrchestrateSessionState, about_session_json(session_id))? {
        Err(_) => Some(None),
        Ok(st) => match st.get("session") {
            Some(session) => match session.text_at("folder_id") {
                Some(folder) => Some(Some(folder.to_owned())),
                None => Some(None),
            },
            None => Some(None),
        },
    }
}

// ── Fire ──────────────────────────────────────────────────────────────

/// What the activity feed says of a fire.
pub open spec fn fired_text(t: TriggerView) -> Seq<char> {
    if t.kind == "session_idle"@ {
        "watched session \""@ + text::or_else(t.session_name, "?"@) + "\" went idle ("@
            + text::or_else(t.outcome, "?"@) + ")"@
    } else if t.kind == "coalesced"@ {
        "delivered "@ + text::decimal(
            if t.pending.len() == 0 {
                1
            } else {
                t.pending.len()
            },
        ) + " coalesced trigger(s)"@
    } else {
        "trigger: "@ + t.kind
    }
}

/// What the activity feed says of a fire.
pub fn fire_detail(t: &Trigger) -> (r: String)
    ensures
        r@ == fired_text(t@),
{
    if same(t.kind.as_str(), "session_idle") {
        "watched session \"".to_owned().concat(
            text::str_or(records::opt_str(&t.session_name), "?"),
        ).concat("\" went idle (").concat(
            text::str_or(records::opt_str(&t.outcome), "?"),
        ).concat(")")
    } else if same(t.kind.as_str(), "coalesced") {
        let n: u64 = if t.pending.len() == 0 {
            1
        } else {
            t.pending.len() as u64
        };
        "delivered ".to_owned().concat(text::decimal_text(n).as_str()).concat(
            " coalesced trigger(s)",
        )
    } else {
        "trigger: ".to_owned().concat(t.kind.as_str())
    }
}

/// The record once the hourly cap was reached: it is paused.
pub open spec fn cap_hit(o: OrchestratorView, now: Seq<char>) -> OrchestratorView {
    OrchestratorView { paused: true, ..o }.logged(
        now,
        "cap_hit"@,
        text::decimal(o.stats.fire_times.len())
            + " fires in the last hour reached max_fires_per_hour="@ + text::decimal(
            o.caps.max_fires_per_hour as nat,
        ) + " — auto-paused"@,
    )
}

/// The record once a prompt was delivered.
pub open spec fn delivered(
    o: OrchestratorView,
    t: TriggerView,
    prompt: Seq<char>,
    now: Seq<char>,
) -> OrchestratorView {
    OrchestratorView {
        consecutive_failures: 0,
        error: None,
        stats: StatsView {
            fires: o.stats.fires.wrapping_add(1),
            actions: o.stats.actions.wrapping_add(1),
            last_fired_at: Some(now),
            fire_times: o.stats.fire_times.push(now),
            ..o.stats
        },
        last_rendered_prompt: prompt,
        ..o
    }.logged(now, "fired"@, fired_text(t))
}

/// Whether a trigger waits out a cooldown; the others come again by themselves.
pub open spec fn keeps(t: TriggerView) -> bool {
    t.kind == "session_idle"@ || t.kind == "coalesced"@
}

/// The message that carries a prompt to the brain.
pub open spec fn prompt_request(brain: Seq<char>, prompt: Seq<char>) -> JsonView {
    JsonView::Object(
        map!["session_id"@ => JsonView::Text(brain), "text"@ => JsonView::Text(prompt)],
    )
}

/// Sends a prompt to the brain.
pub open spec fn send_run(
    o: OrchestratorView,
    t: TriggerView,
    prompt: Seq<char>,
    now: Seq<char>,
    s: Script,
) -> (Script, Option<(OrchestratorView, bool)>)
    recommends
        o.session_id is Some,
{
    let brain = o.session_id->0;
    let (s, r) = s.call(HostFn::OrchestrateSend, prompt_request(brain, prompt));
    match r {
        None => (s, None),
        Some(Err(e)) => (s, Some((failed(o, now, e), false))),
        Some(Ok(_)) => {
            let (s, marked) = state::mark_busy_run(brain, now, s);
            (
                s,
                match marked {
                    Some(_) => Some((delivered(o, t, prompt, now), true)),
                    None => None,
                },
            )
        },
    }
}

/// Engages a brain that exists, unless it is busy.
pub open spec fn engage_run(o: OrchestratorView, t: TriggerView, now: Seq<char>, s: Script) -> (
    Script,
    Option<(OrchestratorView, bool)>,
)
    recommends
        o.session_id is Some,
{
    let (s, busy) = state::is_busy_run(o.session_id->0, now, s);
    match busy {
        None => (s, None),
        Some(true) => (
            s,
            Some(
                (
                    queued(o, t, now).logged(
                        now,
                        "skipped_busy"@,
                        "brain busy — trigger coalesced"@,
                    ),
                    false,
                ),
            ),
        ),
        Some(false) => {
            let (s, prompt) = render_prompt_run(o, t, now, s);
            match prompt {
                None => (s, None),
                Some(prompt) => send_run(o, t, prompt, now, s),
            }
        },
    }
}

/// Delivers one fire: the record after it, and whether a prompt was sent.
#[verifier::opaque]
pub open spec fn fire_run(o: OrchestratorView, t: TriggerView, now: Seq<char>, s: Script) -> (
    Script,
    Option<(OrchestratorView, bool)>,
) {
    let o = pruned(o, now);
    if capped(o) {
        (s, Some((cap_hit(o, now), false)))
    } else if cooling(o, now) {
        (
            s,
            Some(
                (
                    if keeps(t) {
                        queued(o, t, now)
                    } else {
                        o
                    },
                    false,
                ),
            ),
        )
    } else {
        let (s, r) = ensure_brain_run(o, now, s);
        match r {
            None => (s, None),
            Some((o, Err(e))) => (s, Some((failed(o, now, e), false))),
            Some((o, Ok(_))) => engage_run(o, t, now, s),
        }
    }
}

/// Sends a prompt to the brain.
fn send(o: &mut Orchestrator, trigger: &Trigger, prompt: String, now: &str, host: &mut Host) -> (r:
    Option<bool>)
    requires
        old(o)@.session_id is Some,
    ensures
        final(host)@ == send_run(old(o)@, trigger@, prompt@, now@, old(host)@).0,
        (match r {
            None => None,
            Some(sent) => Some((final(o)@, sent)),
        }) == send_run(old(o)@, trigger@, prompt@, now@, old(host)@).1,
{
    let brain = match records::copy_opt(&o.session_id) {
        Some(brain) => brain,
        None => String::new(),
    };
    let input = Fields::new().with("session_id", Json::text(brain.as_str())).with(
        "text",
        Json::text(prompt.as_str()),
    ).done();
    match host.call(HostFn::OrchestrateSend, input)? {
        Err(e) => Some(record_failure(o, now, e.as_str())),
        Ok(_) => {
            o.consecutive_failures = 0;
            o.error = None;
            o.stats.fires = o.stats.fires.wrapping_add(1);
            o.stats.actions = o.stats.actions.wrapping_add(1);
            o.stats.last_fired_at = Some(now.to_owned());
            let ghost times = o.stats.fire_times.deep_view();
            o.stats.fire_times.push(now.to_owned());
            assert(o.stats.fire_times.deep_view() =~= times.push(now@));
            o.last_rendered_prompt = prompt;
            state::mark_busy(brain.as_str(), now, host)?;
            o.push_log(now, "fired", fire_detail(trigger));
            Some(true)
        },
    }
}

/// Deliver one fire. Returns true when a prompt was actually sent. The caller
/// stores the record.
pub fn fire(o: &mut Orchestrator, trigger: Trigger, now: &str, host: &mut Host) -> (r: Option<bool>)
    ensures
        final(host)@ == fire_run(old(o)@, trigger@, now@, old(host)@).0,
        (match r {
            None => None,
            Some(sent) => Some((final(o)@, sent)),
        }) == fire_run(old(o)@, trigger@, now@, old(host)@).1,
{
    proof {
        reveal(fire_run);
    }
    if over_fire_cap(o, now) {
        let detail = text::decimal_text(o.stats.fire_times.len() as u64).concat(
            " fires in the last hour reached max_fires_per_hour=",
        ).concat(text::decimal_text(o.caps.max_fires_per_hour as u64).as_str()).concat(
            " — auto-paused",
        );
        o.paused = true;
        o.push_log(now, "cap_hit", detail);
        return Some(false);
    }
    if in_cooldown(o, now) {
        // Event triggers wait; timer triggers come again with the next tick.
        if same(trigger.kind.as_str(), "session_idle") || same(trigger.kind.as_str(), "coalesced") {
            queue_pending(o, trigger, now);
        }
        return Some(false);
    }
    // Ensure the brain exists (created on first use, with its standing prompt).
    if let Err(e) = ensure_brain(o, now, host)? {
        return Some(record_failure(o, now, e.as_str()));
    }
    let brain = match records::copy_opt(&o.session_id) {
        Some(brain) => brain,
        None => String::new(),
    };
    if state::is_busy(brain.as_str(), now, host)? {
        queue_pending(o, trigger, now);
        o.push_log(now, "skipped_busy", "brain busy — trigger coalesced".to_owned());
        return Some(false);
    }
    let prompt = render_prompt(o, &trigger, now, host)?;
    send(o, &trigger, prompt, now, host)
}

/// Fires, and stores the record.
pub open spec fn fire_and_save_run(
    o: OrchestratorView,
    t: TriggerView,
    now: Seq<char>,
    s: Script,
) -> (Script, Option<Result<bool, Seq<char>>>) {
    let (s, r) = fire_run(o, t, now, s);
    match r {
        None => (s, None),
        Some((o, sent)) => {
            let (s, saved) = state::save_orchestrator_run(o, s);
            (
                s,
                match saved {
                    None => None,
                    Some(Err(e)) => Some(Err(e)),
                    Some(Ok(_)) => Some(Ok(sent)),
                },
            )
        },
    }
}

/// Fires, and stores the record: whether a prompt was sent.
fn fire_and_save(o: Orchestrator, trigger: Trigger, now: &str, host: &mut Host) -> (r: Option<
    Result<bool, String>,
>)
    ensures
        final(host)@ == fire_and_save_run(o@, trigger@, now@, old(host)@).0,
        host::outcome(r) == fire_and_save_run(o@, trigger@, now@, old(host)@).1,
{
    let mut o = o;
    let sent = fire(&mut o, trigger, now, host)?;
    match state::save_orchestrator(&o, host)? {
        Err(e) => Some(Err(e)),
        Ok(_) => Some(Ok(sent)),
    }
}

/// Delivers the waiting triggers, and stores the record.
pub open spec fn flush_run(o: OrchestratorView, now: Seq<char>, s: Script) -> (
    Script,
    Option<Result<bool, Seq<char>>>,
) {
    fire_and_save_run(
        OrchestratorView { pending_triggers: Seq::empty(), ..o },
        TriggerView::coalesced(o.pending_triggers),
        now,
        s,
    )
}

/// Delivers the waiting triggers, and stores the record.
fn flush(o: Orchestrator, now: &str, host: &mut Host) -> (r: Option<Result<bool, String>>)
    ensures
        final(host)@ == flush_run(o@, now@, old(host)@).0,
        host::outcome(r) == flush_run(o@, now@, old(host)@).1,
{
    let mut o = o;
    let mut t = Trigger::simple("coalesced");
    t.pending = o.pending_triggers;
    o.pending_triggers = Vec::new();
    assert(o@.pending_triggers =~= Seq::empty());
    fire_and_save(o, t, now, host)
}

// ── Timer tick ────────────────────────────────────────────────────────

/// The complaint about a time that cannot be represented.
pub const TIME_OVERFLOW: &'static str = "`DateTime + TimeDelta` overflowed";

/// Fires by the schedule. The slot advances even where a guard skips the fire,
/// so that a blocked slot does not burst later.
pub open spec fn scheduled_run(o: OrchestratorView, now: Seq<char>, s: Script) -> (
    Script,
    Option<Result<bool, Seq<char>>>,
)
    recommends
        o.schedule.every_minutes is Some,
{
    let minutes = o.schedule.every_minutes->0 as i64;
    if time::minutes_fit(now, minutes as int) {
        fire_and_save_run(
            OrchestratorView {
                stats: StatsView {
                    next_due_at: Some(time::later_text(now, minutes as int)),
                    ..o.stats
                },
                ..o
            },
            TriggerView::simple("schedule"@),
            now,
            s,
        )
    } else {
        (s.abort(TIME_OVERFLOW@), None)
    }
}

/// Looks at one orchestrator on a tick: waiting triggers first, then the
/// schedule, then the watchdog. Whether a prompt was sent.
#[verifier::opaque]
pub open spec fn tick_one_run(o: OrchestratorView, now: Seq<char>, s: Script) -> (
    Script,
    Option<Result<bool, Seq<char>>>,
) {
    if !o.enabled || o.paused {
        (s, Some(Ok(false)))
    } else {
        let (s, free) = if o.pending_triggers.len() > 0 {
            brain_is_idle_run(o, now, s)
        } else {
            (s, Some(false))
        };
        match free {
            None => (s, None),
            Some(true) => flush_run(o, now, s),
            Some(false) => if slot_due(o, now) {
                scheduled_run(o, now, s)
            } else {
                let (s, due) = watchdog_due_run(o, now, s);
                match due {
                    None => (s, None),
                    Some(false) => (s, Some(Ok(false))),
                    Some(true) => fire_and_save_run(o, TriggerView::simple("watchdog"@), now, s),
                }
            },
        }
    }
}

/// Looks at every orchestrator on a tick: the number of prompts sent, on top
/// of `fired`.
pub open spec fn tick_walk_run(
    orchs: Seq<OrchestratorView>,
    now: Seq<char>,
    fired: u32,
    s: Script,
) -> (Script, Option<Result<u32, Seq<char>>>)
    decreases orchs.len(),
{
    if orchs.len() == 0 {
        (s, Some(Ok(fired)))
    } else {
        let (s, r) = tick_one_run(orchs[0], now, s);
        match r {
            None => (s, None),
            Some(Err(e)) => (s, Some(Err(e))),
            Some(Ok(sent)) => tick_walk_run(
                orchs.skip(1),
                now,
                if sent {
                    fired.wrapping_add(1)
                } else {
                    fired
                },
                s,
            ),
        }
    }
}

/// The walk of a tick, under the lease.
pub open spec fn tick_leased_run(now: Seq<char>, s: Script) -> (
    Script,
    Option<Result<u32, Seq<char>>>,
) {
    let (s, r) = state::list_orchestrators_run(s);
    match r {
        None => (s, None),
        Some(Err(e)) => (s, Some(Err(e))),
        Some(Ok(orchs)) => tick_walk_run(orchs, now, 0, s),
    }
}

/// The answer to a tick while everything is paused.
pub open spec fn tick_paused_doc() -> JsonView {
    JsonView::Object(map!["ok"@ => JsonView::Bool(true), "paused"@ => JsonView::Bool(true)])
}

/// The answer to a tick while another instance is at work.
pub open spec fn tick_busy_doc() -> JsonView {
    JsonView::Object(map!["ok"@ => JsonView::Bool(true), "skipped"@ => JsonView::Text("busy"@)])
}

/// The answer to a tick that was walked.
pub open spec fn tick_done_doc(fired: u32) -> JsonView {
    JsonView::Object(
        map!["ok"@ => JsonView::Bool(true), "fired"@ => json::uint_view(fired as u64)],
    )
}

/// A tick at `now`.
pub open spec fn tick_run(now: Seq<char>, s: Script) -> (
    Script,
    Option<Result<JsonView, Seq<char>>>,
) {
    let (s, stored) = state::set_clock_run(now, s);
    if stored is None {
        (s, None)
    } else {
        let (s, paused) = state::global_paused_run(s);
        match paused {
            None => (s, None),
            Some(true) => (s, Some(Ok(tick_paused_doc()))),
            Some(false) => {
                let (s, taken) = s.acquire();
                match taken {
                    None => (s, None),
                    Some(false) => (s, Some(Ok(tick_busy_doc()))),
                    Some(true) => {
                        let (s, r) = state::released(tick_leased_run(now, s));
                        (
                            s,
                            match r {
                                None => None,
                                Some(Err(e)) => Some(Err(e)),
                                Some(Ok(fired)) => Some(Ok(tick_done_doc(fired))),
                            },
                        )
                    },
                }
            },
        }
    }
}

/// `timer.tick`.
pub open spec fn on_timer_tick_run(payload: JsonView, s: Script) -> (
    Script,
    Option<Result<JsonView, Seq<char>>>,
) {
    match payload.text_at("now"@) {
        None => (s, Some(Err("timer.tick payload missing 'now'"@))),
        Some(now) => tick_run(now, s),
    }
}

/// Looks at one orchestrator on a tick: whether a prompt was sent.
fn tick_one(o: Orchestrator, now: &str, host: &mut Host) -> (r: Option<Result<bool, String>>)
    ensures
        final(host)@ == tick_one_run(o@, now@, old(host)@).0,
        host::outcome(r) == tick_one_run(o@, now@, old(host)@).1,
{
    proof {
        reveal(tick_one_run);
    }
    if !o.enabled || o.paused {
        return Some(Ok(false));
    }
    // What waited is delivered as soon as the brain is idle again, ahead of
    // schedule and watchdog.
    if o.pending_triggers.len() > 0 && brain_is_idle(&o, now, host)? {
        return flush(o, now, host);
    }
    if schedule_due(&o, now) {
        let minutes: i64 = match o.schedule.every_minutes {
            Some(m) => m as i64,
            None => 0,
        };
        return match time::checked_add_minutes(now, minutes) {
            None => {
                host.abort(TIME_OVERFLOW);
                None
            },
            Some(next) => {
                let mut o = o;
                o.stats.next_due_at = Some(next);
                fire_and_save(o, Trigger::simple("schedule"), now, host)
            },
        };
    }
    if watchdog_due(&o, now, host)? {
        return fire_and_save(o, Trigger::simple("watchdog"), now, host);
    }
    Some(Ok(false))
}

/// The walk of a tick, under the lease: the number of prompts sent.
fn tick_leased(now: &str, host: &mut Host) -> (r: Option<Result<u32, String>>)
    ensures
        final(host)@ == tick_leased_run(now@, old(host)@).0,
        host::outcome(r) == tick_leased_run(now@, old(host)@).1,
{
    let orchs = match state::list_orchestrators(host)? {
        Err(e) => {
            return Some(Err(e));
        },
        Ok(orchs) => orchs,
    };
    let ghost all = orchs@;
    let ghost views = orchs.deep_view();
    let mut fired: u32 = 0;
    assert(views.skip(0) == views);
    for o in it: orchs
        invariant
            it.seq() == all,
            views.len() == all.len(),
            forall|k: int| 0 <= k < all.len() ==> views[k] == (#[trigger] all[k])@,
            tick_leased_run(now@, old(host)@) == tick_walk_run(
                views.skip(it.index() as int),
                now@,
                fired,
                host@,
            ),
    {
        let ghost k = it.index() as int;
        assert(views.skip(k).skip(1) == views.skip(k + 1));
        assert(views.skip(k)[0] == o@);
        match tick_one(o, now, host)? {
            Err(e) => {
                return Some(Err(e));
            },
            Ok(sent) => {
                if sent {
                    fired = fired.wrapping_add(1);
                }
            },
        }
    }
    Some(Ok(fired))
}

/// `timer.tick`: store the clock, then walk every orchestrator once. The
/// walk runs under the engine lease, which all instances share; where another
/// holds it, the next tick tries again.
pub fn on_timer_tick(payload: &Json, host: &mut Host) -> (r: Option<Result<Json, String>>)
    ensures
        final(host)@ == on_timer_tick_run(payload@, old(host)@).0,
        host::outcome(r) == on_timer_tick_run(payload@, old(host)@).1,
{
    let now = match payload.text_at("now") {
        None => {
            return Some(Err("timer.tick payload missing 'now'".to_owned()));
        },
        Some(now) => now,
    };
    state::set_clock(now, host)?;
    if state::global_paused(host)? {
        return Some(
            Ok(Fields::new().with("ok", Json::Bool(true)).with("paused", Json::Bool(true)).done()),
        );
    }
    if !host.acquire()? {
        return Some(
            Ok(Fields::new().with("ok", Json::Bool(true)).with("skipped", Json::text("busy")).done()),
        );
    }
    let walked = tick_leased(now, host)?;
    host.release()?;
    match walked {
        Err(e) => Some(Err(e)),
        Ok(fired) => Some(
            Ok(
                Fields::new().with("ok", Json::Bool(true)).with(
                    "fired",
                    Json::uint(fired as u64),
                ).done(),
            ),
        ),
    }
}

// ── End of a turn ─────────────────────────────────────────────────────

/// Whether the orchestrator watches a session of which the folder was asked
/// for.
pub open spec fn watches_in(o: OrchestratorView, folder: Option<Seq<char>>) -> bool {
    folder matches Some(f) && o.watches_folder(f)
}

/// Whether the ended session is watched, and what is known of its folder
/// afterwards. The folder is asked for at most once, and only where an
/// orchestrator watches folders.
pub open spec fn watched_run(
    o: OrchestratorView,
    session_id: Seq<char>,
    folder: Option<Option<Seq<char>>>,
    s: Script,
) -> (Script, Option<(Option<Option<Seq<char>>>, bool)>) {
    if o.watches_session(session_id) {
        (s, Some((folder, true)))
    } else if o.watch.folders.len() == 0 {
        (s, Some((folder, false)))
    } else {
        match folder {
            Some(known) => (s, Some((folder, watches_in(o, known)))),
            None => {
                let (s, found) = session_folder_run(session_id, s);
                (
                    s,
                    match found {
                        None => None,
                        Some(known) => Some((Some(known), watches_in(o, known))),
                    },
                )
            },
        }
    }
}

/// Looks at one orchestrator when a turn has ended: a brain gets what waited,
/// a watcher fires.
#[verifier::opaque]
pub open spec fn ended_one_run(
    o: OrchestratorView,
    session_id: Seq<char>,
    t: TriggerView,
    now: Seq<char>,
    folder: Option<Option<Seq<char>>>,
    s: Script,
) -> (Script, Option<(Option<Option<Seq<char>>>, Result<bool, Seq<char>>)>) {
    if !o.enabled || o.paused {
        (s, Some((folder, Ok(false))))
    } else if o.session_id == Some(session_id) {
        if o.pending_triggers.len() == 0 {
            (s, Some((folder, Ok(false))))
        } else {
            let (s, r) = flush_run(o, now, s);
            (
                s,
                match r {
                    None => None,
                    Some(r) => Some((folder, r)),
                },
            )
        }
    } else {
        let (s, r) = watched_run(o, session_id, folder, s);
        match r {
            None => (s, None),
            Some((folder, false)) => (s, Some((folder, Ok(false)))),
            Some((folder, true)) => {
                let (s, r) = fire_and_save_run(o, t, now, s);
                (
                    s,
                    match r {
                        None => None,
                        Some(r) => Some((folder, r)),
                    },
                )
            },
        }
    }
}

/// Looks at every orchestrator when a turn has ended.
pub open spec fn ended_walk_run(
    orchs: Seq<OrchestratorView>,
    session_id: Seq<char>,
    t: TriggerView,
    now: Seq<char>,
    folder: Option<Option<Seq<char>>>,
    s: Script,
) -> (Script, Option<Result<(), Seq<char>>>)
    decreases orchs.len(),
{
    if orchs.len() == 0 {
        (s, Some(Ok(())))
    } else {
        let (s, r) = ended_one_run(orchs[0], session_id, t, now, folder, s);
        match r {
            None => (s, None),
            Some((_, Err(e))) => (s, Some(Err(e))),
            Some((folder, Ok(_))) => ended_walk_run(orchs.skip(1), session_id, t, now, folder, s),
        }
    }
}

/// The walk at the end of a turn, under the lease.
pub open spec fn ended_leased_run(
    session_id: Seq<char>,
    t: TriggerView,
    now: Seq<char>,
    s: Script,
) -> (Script, Option<Result<(), Seq<char>>>) {
    let (s, r) = state::list_orchestrators_run(s);
    match r {
        None => (s, None),
        Some(Err(e)) => (s, Some(Err(e))),
        Some(Ok(orchs)) => ended_walk_run(orchs, session_id, t, now, None, s),
    }
}

/// That all is well.
pub open spec fn ok_doc() -> JsonView {
    JsonView::Object(map!["ok"@ => JsonView::Bool(true)])
}

/// That all is well.
pub fn ok_doc_json() -> (r: Json)
    ensures
        r@ == ok_doc(),
{
    Fields::new().with("ok", Json::Bool(true)).done()
}

/// The answer to the end of a turn.
pub open spec fn ended_doc(skipped: JsonView) -> JsonView {
    JsonView::Object(map!["ok"@ => JsonView::Bool(true), "skipped"@ => skipped])
}

/// A turn of the session has ended at `now`.
pub open spec fn ended_run(
    session_id: Seq<char>,
    t: TriggerView,
    now: Seq<char>,
    s: Script,
) -> (Script, Option<Result<JsonView, Seq<char>>>) {
    let (s, taken) = s.acquire();
    match taken {
        None => (s, None),
        Some(false) => (s, Some(Ok(ended_doc(JsonView::Text("busy"@))))),
        Some(true) => {
            let (s, r) = state::released(ended_leased_run(session_id, t, now, s));
            (
                s,
                match r {
                    None => None,
                    Some(Err(e)) => Some(Err(e)),
                    Some(Ok(_)) => Some(Ok(ended_doc(JsonView::Null))),
                },
            )
        },
    }
}

/// `session.agent.ended`.
pub open spec fn on_agent_ended_run(payload: JsonView, s: Script) -> (
    Script,
    Option<Result<JsonView, Seq<char>>>,
) {
    let session_id = text::or_else(payload.text_at("session_id"@), ""@);
    if session_id.len() == 0 {
        (s, Some(Ok(ok_doc())))
    } else {
        let (s, idle) = state::mark_idle_run(session_id, s);
        if idle is None {
            (s, None)
        } else {
            let (s, clock) = state::clock_run(s);
            match clock {
                None => (s, None),
                Some(clock) => {
                    let now = text::or_else(clock, ""@);
                    if now.len() == 0 {
                        (s, Some(Ok(ok_doc())))
                    } else {
                        let (s, paused) = state::global_paused_run(s);
                        match paused {
                            None => (s, None),
                            Some(true) => (s, Some(Ok(ok_doc()))),
                            Some(false) => ended_run(
                                session_id,
                                TriggerView::session_idle(
                                    session_id,
                                    text::or_else(payload.text_at("session_name"@), session_id),
                                    text::or_else(payload.text_at("outcome"@), "completed"@),
                                ),
                                now,
                                s,
                            ),
                        }
                    }
                },
            }
        }
    }
}

/// Whether the ended session is watched; what is learnt of its folder stays in
/// `folder`.
fn is_watched(
    o: &Orchestrator,
    session_id: &str,
    folder: &mut Option<Option<String>>,
    host: &mut Host,
) -> (r: Option<bool>)
    ensures
        final(host)@ == watched_run(o@, session_id@, old(folder).deep_view(), old(host)@).0,
        (match r {
            None => None,
            Some(watched) => Some((final(folder).deep_view(), watched)),
        }) == watched_run(o@, session_id@, old(folder).deep_view(), old(host)@).1,
{
    if o.watches_session(session_id) {
        return Some(true);
    }
    if o.watch.folders.len() == 0 {
        return Some(false);
    }
    if folder.is_none() {
        let found = session_folder(session_id, host)?;
        *folder = Some(found);
    }
    match folder {
        Some(Some(known)) => Some(o.watches_folder(known.as_str())),
        _ => Some(false),
    }
}

/// Looks at one orchestrator when a turn has ended.
fn ended_one(
    o: Orchestrator,
    session_id: &str,
    t: &Trigger,
    now: &str,
    folder: &mut Option<Option<String>>,
    host: &mut Host,
) -> (r: Option<Result<bool, String>>)
    ensures
        final(host)@ == ended_one_run(
            o@,
            session_id@,
            t@,
            now@,
            old(folder).deep_view(),
            old(host)@,
        ).0,
        (match r {
            None => None,
            Some(r) => Some((final(folder).deep_view(), json::result_view(r))),
        }) == ended_one_run(o@, session_id@, t@, now@, old(folder).deep_view(), old(host)@).1,
{
    proof {
        reveal(ended_one_run);
    }
    if !o.enabled || o.paused {
        return Some(Ok(false));
    }
    let is_brain = match &o.session_id {
        Some(brain) => same(brain.as_str(), session_id),
        None => false,
    };
    if is_brain {
        if o.pending_triggers.len() == 0 {
            return Some(Ok(false));
        }
        return flush(o, now, host);
    }
    if is_watched(&o, session_id, folder, host)? {
        fire_and_save(o, copy_trigger(t), now, host)
    } else {
        Some(Ok(false))
    }
}

/// A copy of a trigger.
fn copy_trigger(t: &Trigger) -> (r: Trigger)
    ensures
        r@ == t@,
{
    let mut pending: Vec<PendingTrigger> = Vec::new();
    let mut i: usize = 0;
    while i < t.pending.len()
        invariant
            0 <= i <= t.pending@.len(),
            pending@.len() == i,
            forall|k: int|
                0 <= k < i ==> (#[trigger] pending@[k]).deep_view() == t.pending@[k].deep_view(),
        decreases t.pending@.len() - i,
    {
        let p = &t.pending[i];
        pending.push(
            PendingTrigger {
                ts: p.ts.clone(),
                kind: p.kind.clone(),
                session_id: records::copy_opt(&p.session_id),
                session_name: records::copy_opt(&p.session_name),
                outcome: records::copy_opt(&p.outcome),
            },
        );
        i = i + 1;
    }
    assert(pending.deep_view() =~= t.pending.deep_view());
    Trigger {
        kind: t.kind.clone(),
        session_id: records::copy_opt(&t.session_id),
        session_name: records::copy_opt(&t.session_name),
        outcome: records::copy_opt(&t.outcome),
        pending,
    }
}

/// The walk at the end of a turn, under the lease.
fn ended_leased(session_id: &str, t: &Trigger, now: &str, host: &mut Host) -> (r: Option<
    Result<(), String>,
>)
    ensures
        final(host)@ == ended_leased_run(session_id@, t@, now@, old(host)@).0,
        host::outcome(r) == ended_leased_run(session_id@, t@, now@, old(host)@).1,
{
    let orchs = match state::list_orchestrators(host)? {
        Err(e) => {
            return Some(Err(e));
        },
        Ok(orchs) => orchs,
    };
    let ghost all = orchs@;
    let ghost views = orchs.deep_view();
    let mut folder: Option<Option<String>> = None;
    assert(views.skip(0) == views);
    for o in it: orchs
        invariant
            it.seq() == all,
            views.len() == all.len(),
            forall|k: int| 0 <= k < all.len() ==> views[k] == (#[trigger] all[k])@,
            ended_leased_run(session_id@, t@, now@, old(host)@) == ended_walk_run(
                views.skip(it.index() as int),
                session_id@,
                t@,
                now@,
                folder.deep_view(),
                host@,
            ),
    {
        let ghost k = it.index() as int;
        assert(views.skip(k).skip(1) == views.skip(k + 1));
        assert(views.skip(k)[0] == o@);
        match ended_one(o, session_id, t, now, &mut folder, host)? {
            Err(e) => {
                return Some(Err(e));
            },
            Ok(_) => {},
        }
    }
    Some(Ok(()))
}

/// `session.agent.ended`: clear the busy mark, deliver what waits for the
/// brain, and fire the watchers of the ended session. Where another instance
/// holds the lease nothing is lost: what waits is delivered on the next tick,
/// and a missed fire is covered by the watchdog.
pub fn on_agent_ended(payload: &Json, host: &mut Host) -> (r: Option<Result<Json, String>>)
    ensures
        final(host)@ == on_agent_ended_run(payload@, old(host)@).0,
        host::outcome(r) == on_agent_ended_run(payload@, old(host)@).1,
{
    let session_id = text::str_or(payload.text_at("session_id"), "");
    if session_id.is_empty() {
        return Some(Ok(ok_doc_json()));
    }
    state::mark_idle(session_id, host)?;
    let clock = state::clock(host)?;
    let now = text::str_or(records::opt_str(&clock), "");
    // No tick yet, or paused: the next tick picks the work up.
    if now.is_empty() || state::global_paused(host)? {
        return Some(Ok(ok_doc_json()));
    }
    let t = Trigger::session_idle(
        session_id,
        text::str_or(payload.text_at("session_name"), session_id),
        text::str_or(payload.text_at("outcome"), "completed"),
    );
    if !host.acquire()? {
        return Some(
            Ok(Fields::new().with("ok", Json::Bool(true)).with("skipped", Json::text("busy")).done()),
        );
    }
    let walked = ended_leased(session_id, &t, now, host)?;
    host.release()?;
    match walked {
        Err(e) => Some(Err(e)),
        Ok(_) => Some(
            Ok(Fields::new().with("ok", Json::Bool(true)).with("skipped", Json::Null).done()),
        ),
    }
}

// ── Start of a turn ───────────────────────────────────────────────────

/// `session.message.before`.
pub open spec fn on_message_before_run(payload: JsonView, s: Script) -> (
    Script,
    Option<Result<(), Seq<char>>>,
) {
    match payload.text_at("session_id"@) {
        None => (s, Some(Ok(()))),
        Some(session_id) => {
            let (s, clock) = state::clock_run(s);
            match clock {
                None => (s, None),
                Some(clock) => {
                    let now = text::or_else(clock, ""@);
                    if now.len() == 0 {
                        (s, Some(Ok(())))
                    } else {
                        let (s, marked) = state::mark_busy_run(session_id, now, s);
                        (
                            s,
                            match marked {
                                Some(_) => Some(Ok(())),
                                None => None,
                            },
                        )
                    }
                },
            }
        },
    }
}

/// `session.message.before` (observed, never rewritten): a user turn is
/// starting, so the session is marked busy and the engine coalesces instead of
/// stacking prompts.
pub fn on_message_before(payload: &Json, host: &mut Host) -> (r: Option<Result<(), String>>)
    ensures
        final(host)@ == on_message_before_run(payload@, old(host)@).0,
        host::outcome(r) == on_message_before_run(payload@, old(host)@).1,
{
    if let Some(session_id) = payload.text_at("session_id") {
        let clock = state::clock(host)?;
        let now = text::str_or(records::opt_str(&clock), "");
        if !now.is_empty() {
            state::mark_busy(session_id, now, host)?;
        }
    }
    Some(Ok(()))
}

// ── Manual controls (management page) ─────────────────────────────────

/// The refusal where no record has the id.
pub open spec fn not_found(id: Seq<char>) -> Seq<char> {
    "orchestrator not found: "@ + id
}

/// The refusal where no record has the id.
pub fn not_found_text(id: &str) -> (r: String)
    ensures
        r@ == not_found(id@),
{
    "orchestrator not found: ".to_owned().concat(id)
}

/// The refusal of a manual run before the first tick.
pub const NO_CLOCK: &'static str = "no engine clock yet — wait for the first timer tick";

/// The answer to a manual run.
pub open spec fn sent_doc(sent: bool) -> JsonView {
    JsonView::Object(map!["ok"@ => JsonView::Bool(true), "sent"@ => JsonView::Bool(sent)])
}

/// The answer to a manual run.
fn sent_json(sent: bool) -> (r: Json)
    ensures
        r@ == sent_doc(sent),
{
    Fields::new().with("ok", Json::Bool(true)).with("sent", Json::Bool(sent)).done()
}

/// A manual run, under the lease.
pub open spec fn run_leased_run(id: Seq<char>, now: Seq<char>, s: Script) -> (
    Script,
    Option<Result<JsonView, Seq<char>>>,
) {
    let (s, r) = state::load_orchestrator_run(id, s);
    match r {
        None => (s, None),
        Some(Err(e)) => (s, Some(Err(e))),
        Some(Ok(None)) => (s, Some(Err(not_found(id)))),
        Some(Ok(Some(o))) => if !o.enabled || o.paused {
            (s, Some(Ok(sent_doc(false))))
        } else {
            let (s, r) = fire_and_save_run(o, TriggerView::simple("manual"@), now, s);
            (
                s,
                match r {
                    None => None,
                    Some(Err(e)) => Some(Err(e)),
                    Some(Ok(sent)) => Some(Ok(sent_doc(sent))),
                },
            )
        },
    }
}

/// A manual run.
pub open spec fn run_now_run(id: Seq<char>, s: Script) -> (
    Script,
    Option<Result<JsonView, Seq<char>>>,
) {
    let (s, clock) = state::clock_run(s);
    match clock {
        None => (s, None),
        Some(None) => (s, Some(Err(NO_CLOCK@))),
        Some(Some(now)) => {
            let (s, paused) = state::global_paused_run(s);
            match paused {
                None => (s, None),
                Some(true) => (s, Some(Ok(sent_doc(false)))),
                Some(false) => {
                    let (s, taken) = s.acquire();
                    match taken {
                        None => (s, None),
                        Some(false) => (s, Some(Err(state::BUSY_MSG@))),
                        Some(true) => state::released(run_leased_run(id, now, s)),
                    }
                },
            }
        },
    }
}

/// A manual run, under the lease.
fn run_leased(id: &str, now: &str, host: &mut Host) -> (r: Option<Result<Json, String>>)
    ensures
        final(host)@ == run_leased_run(id@, now@, old(host)@).0,
        host::outcome(r) == run_leased_run(id@, now@, old(host)@).1,
{
    let o = match state::load_orchestrator(id, host)? {
        Err(e) => {
            return Some(Err(e));
        },
        Ok(None) => {
            return Some(Err(not_found_text(id)));
        },
        Ok(Some(o)) => o,
    };
    if !o.enabled || o.paused {
        return Some(Ok(sent_json(false)));
    }
    match fire_and_save(o, Trigger::simple("manual"), now, host)? {
        Err(e) => Some(Err(e)),
        Ok(sent) => Some(Ok(sent_json(sent))),
    }
}

/// "Run now": fire regardless of schedule; every guard of a fire still applies.
/// While everything is paused, or the orchestrator is disabled or paused,
/// nothing is sent.
pub fn run_now(id: &str, host: &mut Host) -> (r: Option<Result<Json, String>>)
    ensures
        final(host)@ == run_now_run(id@, old(host)@).0,
        host::outcome(r) == run_now_run(id@, old(host)@).1,
{
    let now = match state::clock(host)? {
        None => {
            return Some(Err(NO_CLOCK.to_owned()));
        },
        Some(now) => now,
    };
    if state::global_paused(host)? {
        return Some(Ok(sent_json(false)));
    }
    if !host.acquire()? {
        return Some(Err(state::BUSY_MSG.to_owned()));
    }
    let r = run_leased(id, now.as_str(), host)?;
    host.release()?;
    Some(r)
}

/// The time that stands in for the clock before the first tick.
pub const EPOCH: &'static str = "1970-01-01T00:00:00Z";

/// The answer to a dry run.
pub open spec fn dry_run_doc(o: OrchestratorView, prompt: Seq<char>) -> JsonView {
    JsonView::Object(
        map![
            "rendered_prompt"@ => JsonView::Text(prompt),
            "standing_prompt"@ => JsonView::Text(standing(o))
        ],
    )
}

/// A dry run.
pub open spec fn dry_run_run(id: Seq<char>, s: Script) -> (
    Script,
    Option<Result<JsonView, Seq<char>>>,
) {
    let (s, clock) = state::clock_run(s);
    match clock {
        None => (s, None),
        Some(clock) => {
            let now = text::or_else(clock, EPOCH@);
            let (s, r) = state::load_orchestrator_run(id, s);
            match r {
                None => (s, None),
                Some(Err(e)) => (s, Some(Err(e))),
                Some(Ok(None)) => (s, Some(Err(not_found(id)))),
                Some(Ok(Some(o))) => {
                    let (s, prompt) = render_prompt_run(o, TriggerView::simple("dry-run"@), now, s);
                    (
                        s,
                        match prompt {
                            None => None,
                            Some(prompt) => Some(Ok(dry_run_doc(o, prompt))),
                        },
                    )
                },
            }
        },
    }
}

/// "Test fire": render the prompt with current context; deliver nothing.
pub fn dry_run(id: &str, host: &mut Host) -> (r: Option<Result<Json, String>>)
    ensures
        final(host)@ == dry_run_run(id@, old(host)@).0,
        host::outcome(r) == dry_run_run(id@, old(host)@).1,
{
    let clock = state::clock(host)?;
    let now = text::str_or(records::opt_str(&clock), EPOCH);
    let o = match state::load_orchestrator(id, host)? {
        Err(e) => {
            return Some(Err(e));
        },
        Ok(None) => {
            return Some(Err(not_found_text(id)));
        },
        Ok(Some(o)) => o,
    };
    let prompt = render_prompt(&o, &Trigger::simple("dry-run"), now, host)?;
    Some(
        Ok(
            Fields::new().with("rendered_prompt", Json::Text(prompt)).with(
                "standing_prompt",
                Json::Text(standing_prompt(&o)),
            ).done(),
        ),
    )
}

} // verus!

//! Orchestrator records: what is stored of an orchestrator, and the document
//! that it is stored as.

use vstd::prelude::*;

use crate::json::{self, Fields, Json, JsonView};
use crate::named::{self, Named};
use crate::text::same;

verus! {

/// The number of entries that the activity feed keeps.
pub const LOG_CAP: usize = 200;

/// The number of samples that the history of estimates keeps.
pub const ETA_HISTORY_CAP: usize = 50;

/// Consecutive delivery failures before an orchestrator disables itself.
pub const MAX_CONSECUTIVE_FAILURES: u32 = 3;

/// Switches are on unless a record says otherwise.
pub fn default_true() -> (r: bool)
    ensures
        r,
{
    true
}

/// Minutes of silence after which the watchdog fires.
pub fn default_watchdog() -> (r: u64)
    ensures
        r == 15,
{
    15
}

/// Seconds between two fires.
pub fn default_cooldown() -> (r: u64)
    ensures
        r == 60,
{
    60
}

/// The state of a goal nobody has reported on.
pub fn default_state() -> (r: String)
    ensures
        r@ == "in_progress"@,
{
    "in_progress".to_owned()
}

/// The last `cap` elements of a sequence, or all of it where it is shorter.
pub open spec fn newest<T>(s: Seq<T>, cap: nat) -> Seq<T> {
    if s.len() > cap {
        s.skip(s.len() - cap)
    } else {
        s
    }
}

/// Drops the oldest elements until `cap` are left.
pub fn keep_newest<T>(v: &mut Vec<T>, cap: usize)
    ensures
        final(v)@ == newest(old(v)@, cap as nat),
{
    if v.len() > cap {
        let tail = v.split_off(v.len() - cap);
        *v = tail;
        assert(v@ == newest(old(v)@, cap as nat));
    }
}

/// Whether `s` is one of the texts.
pub fn contains_text(v: &Vec<String>, s: &str) -> (r: bool)
    ensures
        r == v.deep_view().contains(s@),
{
    let mut i: usize = 0;
    while i < v.len()
        invariant
            0 <= i <= v@.len(),
            forall|k: int| 0 <= k < i ==> (#[trigger] v@[k])@ != s@,
        decreases v@.len() - i,
    {
        if same(v[i].as_str(), s) {
            assert(v.deep_view()[i as int] == s@);
            return true;
        }
        i = i + 1;
    }
    assert forall|k: int| 0 <= k < v.deep_view().len() implies v.deep_view()[k] != s@ by {
        assert(v@[k]@ != s@);
    }
    false
}

/// The texts other than `s`, in order.
pub open spec fn without(v: Seq<Seq<char>>, s: Seq<char>) -> Seq<Seq<char>>
    decreases v.len(),
{
    if v.len() == 0 {
        v
    } else if v.last() == s {
        without(v.drop_last(), s)
    } else {
        without(v.drop_last(), s).push(v.last())
    }
}

/// Removes every occurrence of `s`.
pub fn remove_text(v: &mut Vec<String>, s: &str)
    ensures
        final(v).deep_view() == without(old(v).deep_view(), s@),
{
    let mut out: Vec<String> = Vec::new();
    let mut i: usize = 0;
    let ghost all = v.deep_view();
    while i < v.len()
        invariant
            all == v.deep_view(),
            0 <= i <= v@.len(),
            out.deep_view() == without(all.take(i as int), s@),
        decreases v@.len() - i,
    {
        assert(all.take(i + 1).drop_last() == all.take(i as int));
        let ghost before = out.deep_view();
        if !same(v[i].as_str(), s) {
            out.push(v[i].clone());
            assert(out.deep_view() == before.push(all[i as int]));
        }
        i = i + 1;
    }
    assert(all.take(i as int) == all);
    *v = out;
}

/// A copy of the documents.
pub fn copy_items(items: &Vec<Json>) -> (r: Vec<Json>)
    ensures
        r.deep_view() == items.deep_view(),
{
    let mut out: Vec<Json> = Vec::new();
    let mut i: usize = 0;
    while i < items.len()
        invariant
            0 <= i <= items@.len(),
            out@.len() == i,
            forall|k: int| 0 <= k < i ==> json::json_view(#[trigger] out@[k]) == json::json_view(items@[k]),
        decreases items@.len() - i,
    {
        out.push(items[i].clone());
        i = i + 1;
    }
    assert(out.deep_view() =~= items.deep_view());
    out
}

/// A copy of the texts.
pub fn copy_texts(v: &Vec<String>) -> (r: Vec<String>)
    ensures
        r.deep_view() == v.deep_view(),
{
    let mut out: Vec<String> = Vec::new();
    let mut i: usize = 0;
    while i < v.len()
        invariant
            0 <= i <= v@.len(),
            out@.len() == i,
            forall|k: int| 0 <= k < i ==> (#[trigger] out@[k])@ == v@[k]@,
        decreases v@.len() - i,
    {
        out.push(v[i].clone());
        i = i + 1;
    }
    assert(out.deep_view() =~= v.deep_view());
    out
}

/// A copy of the text, if there is one.
pub fn copy_opt(s: &Option<String>) -> (r: Option<String>)
    ensures
        r.deep_view() == s.deep_view(),
{
    match s {
        Some(s) => Some(s.clone()),
        None => None,
    }
}

/// The text, if there is one, without taking it.
pub fn opt_str(s: &Option<String>) -> (r: Option<&str>)
    ensures
        r.deep_view() == s.deep_view(),
{
    match s {
        Some(s) => Some(s.as_str()),
        None => None,
    }
}

/// When the orchestrator fires by the clock.
#[derive(Debug, Clone)]
pub struct Schedule {
    pub every_minutes: Option<u64>,
}

impl Default for Schedule {
    fn default() -> (r: Self)
        ensures
            r == (Schedule { every_minutes: None }),
    {
        Schedule { every_minutes: None }
    }
}

/// Whose turns ending make the orchestrator fire.
#[derive(Debug, Clone)]
pub struct Watch {
    pub sessions: Vec<String>,
    pub folders: Vec<String>,
    pub auto_watch_created: bool,
}

/// What a [`Watch`] holds.
#[verifier::ext_equal]
pub struct WatchView {
    pub sessions: Seq<Seq<char>>,
    pub folders: Seq<Seq<char>>,
    pub auto_watch_created: bool,
}

impl View for Watch {
    type V = WatchView;

    open spec fn view(&self) -> WatchView {
        WatchView {
            sessions: self.sessions.deep_view(),
            folders: self.folders.deep_view(),
            auto_watch_created: self.auto_watch_created,
        }
    }
}

impl Default for Watch {
    fn default() -> (r: Self)
        ensures
            r@ == (WatchView {
                sessions: Seq::empty(),
                folders: Seq::empty(),
                auto_watch_created: true,
            }),
    {
        Watch {
            sessions: Vec::new(),
            folders: Vec::new(),
            auto_watch_created: default_true(),
        }
    }
}

/// The standards that finished work has to meet.
#[derive(Debug, Clone)]
pub struct Standards {
    pub dev: bool,
    pub testing: bool,
    pub ux: bool,
    pub custom: String,
}

/// What [`Standards`] hold.
#[verifier::ext_equal]
pub struct StandardsView {
    pub dev: bool,
    pub testing: bool,
    pub ux: bool,
    pub custom: Seq<char>,
}

impl View for Standards {
    type V = StandardsView;

    open spec fn view(&self) -> StandardsView {
        StandardsView {
            dev: self.dev,
            testing: self.testing,
            ux: self.ux,
            custom: self.custom@,
        }
    }
}

impl Default for Standards {
    fn default() -> (r: Self)
        ensures
            r@ == (StandardsView { dev: true, testing: true, ux: true, custom: Seq::empty() }),
    {
        Standards {
            dev: default_true(),
            testing: default_true(),
            ux: default_true(),
            custom: String::new(),
        }
    }
}

/// How much an orchestrator may do.
#[derive(Debug, Clone)]
pub struct Caps {
    pub max_fires_per_hour: u32,
    pub max_sessions_created: u32,
}

impl Caps {
    /// Fires per hour.
    pub fn default_fires() -> (r: u32)
        ensures
            r == 12,
    {
        12
    }

    /// Sessions created in all.
    pub fn default_sessions() -> (r: u32)
        ensures
            r == 10,
    {
        10
    }
}

impl Default for Caps {
    fn default() -> (r: Self)
        ensures
            r == (Caps { max_fires_per_hour: 12, max_sessions_created: 10 }),
    {
        Caps {
            max_fires_per_hour: Caps::default_fires(),
            max_sessions_created: Caps::default_sessions(),
        }
    }
}

/// An estimate of when the whole goal is done.
#[derive(Debug, Clone)]
pub struct Eta {
    pub minutes_remaining: u64,
    pub projected_at: String,
    pub updated_at: String,
}

/// What an [`Eta`] holds.
#[verifier::ext_equal]
pub struct EtaView {
    pub minutes_remaining: u64,
    pub projected_at: Seq<char>,
    pub updated_at: Seq<char>,
}

impl View for Eta {
    type V = EtaView;

    open spec fn view(&self) -> EtaView {
        EtaView {
            minutes_remaining: self.minutes_remaining,
            projected_at: self.projected_at@,
            updated_at: self.updated_at@,
        }
    }
}

impl DeepView for Eta {
    type V = EtaView;

    open spec fn deep_view(&self) -> EtaView {
        self@
    }
}

impl Default for Eta {
    fn default() -> (r: Self)
        ensures
            r@ == (EtaView {
                minutes_remaining: 0,
                projected_at: Seq::empty(),
                updated_at: Seq::empty(),
            }),
    {
        Eta { minutes_remaining: 0, projected_at: String::new(), updated_at: String::new() }
    }
}

impl EtaView {
    /// The stored document.
    pub open spec fn to_json(self) -> JsonView {
        JsonView::Object(
            map![
                "minutes_remaining"@ => json::uint_view(self.minutes_remaining),
                "projected_at"@ => JsonView::Text(self.projected_at),
                "updated_at"@ => JsonView::Text(self.updated_at)
            ],
        )
    }
}

impl Eta {
    /// The stored document.
    pub fn to_json(&self) -> (r: Json)
        ensures
            r@ == self@.to_json(),
    {
        Fields::new().with("minutes_remaining", Json::uint(self.minutes_remaining)).with(
            "projected_at",
            Json::text(self.projected_at.as_str()),
        ).with("updated_at", Json::text(self.updated_at.as_str())).done()
    }
}

/// How far the goal is.
#[derive(Debug, Clone)]
pub struct GoalStatus {
    /// in_progress | blocked | done
    pub state: String,
    pub note: String,
    pub percent: Option<u8>,
    pub updated_at: String,
    pub eta: Option<Eta>,
}

/// What a [`GoalStatus`] holds.
#[verifier::ext_equal]
pub struct GoalStatusView {
    pub state: Seq<char>,
    pub note: Seq<char>,
    pub percent: Option<u8>,
    pub updated_at: Seq<char>,
    pub eta: Option<EtaView>,
}

impl View for GoalStatus {
    type V = GoalStatusView;

    open spec fn view(&self) -> GoalStatusView {
        GoalStatusView {
            state: self.state@,
            note: self.note@,
            percent: self.percent,
            updated_at: self.updated_at@,
            eta: self.eta.deep_view(),
        }
    }
}

impl Default for GoalStatus {
    fn default() -> (r: Self)
        ensures
            r@ == (GoalStatusView {
                state: "in_progress"@,
                note: Seq::empty(),
                percent: None,
                updated_at: Seq::empty(),
                eta: None,
            }),
    {
        GoalStatus {
            state: default_state(),
            note: String::new(),
            percent: None,
            updated_at: String::new(),
            eta: None,
        }
    }
}

/// A percentage, or null.
pub open spec fn percent_view(p: Option<u8>) -> JsonView {
    match p {
        Some(p) => json::uint_view(p as u64),
        None => JsonView::Null,
    }
}

/// A percentage, or null.
pub fn percent_json(p: Option<u8>) -> (r: Json)
    ensures
        r@ == percent_view(p),
{
    match p {
        Some(p) => Json::uint(p as u64),
        None => Json::Null,
    }
}

impl GoalStatusView {
    /// The stored document.
    pub open spec fn to_json(self) -> JsonView {
        JsonView::Object(
            map![
                "state"@ => JsonView::Text(self.state),
                "note"@ => JsonView::Text(self.note),
                "percent"@ => percent_view(self.percent),
                "updated_at"@ => JsonView::Text(self.updated_at),
                "eta"@ => match self.eta {
                    Some(e) => e.to_json(),
                    None => JsonView::Null,
                }
            ],
        )
    }
}

impl GoalStatus {
    /// The stored document.
    pub fn to_json(&self) -> (r: Json)
        ensures
            r@ == self@.to_json(),
    {
        let eta = match &self.eta {
            Some(e) => e.to_json(),
            None => Json::Null,
        };
        Fields::new().with("state", Json::text(self.state.as_str())).with(
            "note",
            Json::text(self.note.as_str()),
        ).with("percent", percent_json(self.percent)).with(
            "updated_at",
            Json::text(self.updated_at.as_str()),
        ).with("eta", eta).done()
    }
}

/// An entry of the activity feed.
#[derive(Debug, Clone)]
pub struct ActivityEvent {
    pub ts: String,
    /// fired | skipped_busy | coalesced | cap_hit | backoff | tool_call |
    /// report | goal_update | standards_check | error | created_session |
    /// hat_assigned | watch_changed
    pub kind: String,
    pub detail: String,
}

/// What an [`ActivityEvent`] holds.
#[verifier::ext_equal]
pub struct ActivityEventView {
    pub ts: Seq<char>,
    pub kind: Seq<char>,
    pub detail: Seq<char>,
}

impl DeepView for ActivityEvent {
    type V = ActivityEventView;

    open spec fn deep_view(&self) -> ActivityEventView {
        ActivityEventView { ts: self.ts@, kind: self.kind@, detail: self.detail@ }
    }
}

/// The stored document of the activity feed.
pub open spec fn log_view(log: Seq<ActivityEventView>) -> JsonView {
    JsonView::Array(Seq::new(log.len(), |i: int| log[i].to_json()))
}

impl ActivityEventView {
    /// The stored document.
    pub open spec fn to_json(self) -> JsonView {
        JsonView::Object(
            map![
                "ts"@ => JsonView::Text(self.ts),
                "kind"@ => JsonView::Text(self.kind),
                "detail"@ => JsonView::Text(self.detail)
            ],
        )
    }
}

/// The stored document of the activity feed.
pub fn log_json(log: &Vec<ActivityEvent>) -> (r: Json)
    ensures
        r@ == log_view(log.deep_view()),
{
    let mut out: Vec<Json> = Vec::new();
    for e in it: log.iter()
        invariant
            it.seq().len() == log@.len(),
            forall|k: int| 0 <= k < log@.len() ==> *(#[trigger] it.seq()[k]) == log@[k],
            out@.len() == it.index(),
            forall|k: int|
                0 <= k < it.index() ==> json::json_view(#[trigger] out@[k])
                    == log@[k].deep_view().to_json(),
    {
        out.push(
            Fields::new().with("ts", Json::text(e.ts.as_str())).with(
                "kind",
                Json::text(e.kind.as_str()),
            ).with("detail", Json::text(e.detail.as_str())).done(),
        );
    }
    assert(json::items_view(out@) =~= log_view(log.deep_view())->Array_0);
    Json::Array(out)
}

/// A trigger that waits until the brain is free.
#[derive(Debug, Clone)]
pub struct PendingTrigger {
    pub ts: String,
    /// session_idle | schedule | watchdog | manual
    pub kind: String,
    pub session_id: Option<String>,
    pub session_name: Option<String>,
    pub outcome: Option<String>,
}

/// What a [`PendingTrigger`] holds.
#[verifier::ext_equal]
pub struct PendingView {
    pub ts: Seq<char>,
    pub kind: Seq<char>,
    pub session_id: Option<Seq<char>>,
    pub session_name: Option<Seq<char>>,
    pub outcome: Option<Seq<char>>,
}

impl DeepView for PendingTrigger {
    type V = PendingView;

    open spec fn deep_view(&self) -> PendingView {
        PendingView {
            ts: self.ts@,
            kind: self.kind@,
            session_id: self.session_id.deep_view(),
            session_name: self.session_name.deep_view(),
            outcome: self.outcome.deep_view(),
        }
    }
}

/// The stored document of the waiting triggers.
pub open spec fn pending_view(pending: Seq<PendingView>) -> JsonView {
    JsonView::Array(Seq::new(pending.len(), |i: int| pending[i].to_json()))
}

/// The stored document of the waiting triggers.
pub fn pending_json(pending: &Vec<PendingTrigger>) -> (r: Json)
    ensures
        r@ == pending_view(pending.deep_view()),
{
    let mut out: Vec<Json> = Vec::new();
    for p in it: pending.iter()
        invariant
            it.seq().len() == pending@.len(),
            forall|k: int| 0 <= k < pending@.len() ==> *(#[trigger] it.seq()[k]) == pending@[k],
            out@.len() == it.index(),
            forall|k: int|
                0 <= k < it.index() ==> json::json_view(#[trigger] out@[k])
                    == pending@[k].deep_view().to_json(),
    {
        out.push(
            Fields::new().with("ts", Json::text(p.ts.as_str())).with(
                "kind",
                Json::text(p.kind.as_str()),
            ).with("session_id", Json::opt_text(opt_str(&p.session_id))).with(
                "session_name",
                Json::opt_text(opt_str(&p.session_name)),
            ).with("outcome", Json::opt_text(opt_str(&p.outcome))).done(),
        );
    }
    assert(json::items_view(out@) =~= pending_view(pending.deep_view())->Array_0);
    Json::Array(out)
}

impl PendingView {
    /// The stored document.
    pub open spec fn to_json(self) -> JsonView {
        JsonView::Object(
            map![
                "ts"@ => JsonView::Text(self.ts),
                "kind"@ => JsonView::Text(self.kind),
                "session_id"@ => json::opt_text_view(self.session_id),
                "session_name"@ => json::opt_text_view(self.session_name),
                "outcome"@ => json::opt_text_view(self.outcome)
            ],
        )
    }
}

/// What an orchestrator has done so far.
#[derive(Debug, Clone)]
pub struct Stats {
    pub actions: u64,
    pub fires: u64,
    pub last_fired_at: Option<String>,
    pub next_due_at: Option<String>,
    pub sessions_created: u32,
    /// Rolling fire timestamps for the hourly cap (pruned each check).
    pub fire_times: Vec<String>,
}

/// What [`Stats`] hold.
#[verifier::ext_equal]
pub struct StatsView {
    pub actions: u64,
    pub fires: u64,
    pub last_fired_at: Option<Seq<char>>,
    pub next_due_at: Option<Seq<char>>,
    pub sessions_created: u32,
    pub fire_times: Seq<Seq<char>>,
}

impl View for Stats {
    type V = StatsView;

    open spec fn view(&self) -> StatsView {
        StatsView {
            actions: self.actions,
            fires: self.fires,
            last_fired_at: self.last_fired_at.deep_view(),
            next_due_at: self.next_due_at.deep_view(),
            sessions_created: self.sessions_created,
            fire_times: self.fire_times.deep_view(),
        }
    }
}

impl Default for Stats {
    fn default() -> (r: Self)
        ensures
            r@ == (StatsView {
                actions: 0,
                fires: 0,
                last_fired_at: None,
                next_due_at: None,
                sessions_created: 0,
                fire_times: Seq::empty(),
            }),
    {
        Stats {
            actions: 0,
            fires: 0,
            last_fired_at: None,
            next_due_at: None,
            sessions_created: 0,
            fire_times: Vec::new(),
        }
    }
}

impl StatsView {
    /// The stored document.
    pub open spec fn to_json(self) -> JsonView {
        JsonView::Object(
            map![
                "actions"@ => json::uint_view(self.actions),
                "fires"@ => json::uint_view(self.fires),
                "last_fired_at"@ => json::opt_text_view(self.last_fired_at),
                "next_due_at"@ => json::opt_text_view(self.next_due_at),
                "sessions_created"@ => json::uint_view(self.sessions_created as u64),
                "fire_times"@ => json::texts_view(self.fire_times)
            ],
        )
    }
}

impl Stats {
    /// The stored document.
    pub fn to_json(&self) -> (r: Json)
        ensures
            r@ == self@.to_json(),
    {
        Fields::new().with("actions", Json::uint(self.actions)).with(
            "fires",
            Json::uint(self.fires),
        ).with("last_fired_at", Json::opt_text(opt_str(&self.last_fired_at))).with(
            "next_due_at",
            Json::opt_text(opt_str(&self.next_due_at)),
        ).with("sessions_created", Json::uint(self.sessions_created as u64)).with(
            "fire_times",
            Json::texts(&self.fire_times),
        ).done()
    }
}

/// A named scope of responsibility that a session wears.
#[derive(Debug, Clone)]
pub struct HatAssignment {
    pub hat: String,
    pub responsibilities: String,
    pub assigned_at: String,
}

/// What a [`HatAssignment`] holds.
#[verifier::ext_equal]
pub struct HatView {
    pub hat: Seq<char>,
    pub responsibilities: Seq<char>,
    pub assigned_at: Seq<char>,
}

impl DeepView for HatAssignment {
    type V = HatView;

    open spec fn deep_view(&self) -> HatView {
        HatView {
            hat: self.hat@,
            responsibilities: self.responsibilities@,
            assigned_at: self.assigned_at@,
        }
    }
}

impl HatView {
    /// The stored document.
    pub open spec fn to_json(self) -> JsonView {
        JsonView::Object(
            map![
                "hat"@ => JsonView::Text(self.hat),
                "responsibilities"@ => JsonView::Text(self.responsibilities),
                "assigned_at"@ => JsonView::Text(self.assigned_at)
            ],
        )
    }
}

/// What hats under the ids of their sessions hold.
pub open spec fn hats_view(hats: Map<Seq<char>, HatAssignment>) -> Map<Seq<char>, HatView> {
    hats.map_values(|h: HatAssignment| h.deep_view())
}

/// The stored document of the hats.
pub open spec fn hats_json(hats: Map<Seq<char>, HatView>) -> JsonView {
    JsonView::Object(hats.map_values(|h: HatView| h.to_json()))
}

/// The stored document of the hats.
pub fn hats_to_json(hats: &Named<HatAssignment>) -> (r: Json)
    ensures
        r@ == hats_json(hats_view(hats@)),
{
    let list = hats.entries();
    let ghost doc_of = |m: Map<Seq<char>, HatAssignment>|
        hats_view(m).map_values(|h: HatView| h.to_json());
    let mut out = Fields::new();
    let mut i: usize = 0;
    assert(out@ =~= doc_of(named::by_name(list@.take(0))));
    while i < list.len()
        invariant
            0 <= i <= list@.len(),
            doc_of == (|m: Map<Seq<char>, HatAssignment>|
                hats_view(m).map_values(|h: HatView| h.to_json())),
            out@ == doc_of(named::by_name(list@.take(i as int))),
        decreases list@.len() - i,
    {
        let h = &list[i].1;
        let doc = Fields::new().with("hat", Json::text(h.hat.as_str())).with(
            "responsibilities",
            Json::text(h.responsibilities.as_str()),
        ).with("assigned_at", Json::text(h.assigned_at.as_str())).done();
        out = out.with(list[i].0.as_str(), doc);
        assert(list@.take(i + 1).drop_last() == list@.take(i as int));
        assert(out@ =~= doc_of(named::by_name(list@.take(i + 1))));
        i = i + 1;
    }
    assert(list@.take(i as int) == list@);
    out.done()
}

/// The hat of a session.
pub fn hat_of<'a>(hats: &'a Named<HatAssignment>, session_id: &str) -> (r: Option<
    &'a HatAssignment,
>)
    ensures
        r.deep_view() == (if hats_view(hats@).dom().contains(session_id@) {
            Some(hats_view(hats@)[session_id@])
        } else {
            None
        }),
{
    hats.get(session_id)
}

/// A goal-driven configuration, and what has become of it so far.
#[derive(Debug, Clone)]
pub struct Orchestrator {
    pub id: String,
    pub name: String,
    pub enabled: bool,
    pub paused: bool,
    /// The requirements this orchestrator autonomously drives to completion.
    pub goal: String,
    pub goal_status: GoalStatus,
    /// Capped history of `{ts, minutes_remaining, percent}` for drift display.
    pub eta_history: Vec<Json>,
    pub standards: Standards,
    /// Trigger prompt template. Vars: {{trigger}} {{session_name}} {{outcome}}
    /// {{goal}} {{watched_busy_count}} {{pending}} {{eta}} {{standards}}.
    pub prompt: String,
    /// Where the brain session (and sessions it creates by default) live.
    pub folder_id: String,
    pub model: Option<String>,
    /// The brain session, created lazily on first fire.
    pub session_id: Option<String>,
    pub schedule: Schedule,
    pub watchdog_minutes: u64,
    pub watch: Watch,
    pub cooldown_secs: u64,
    pub caps: Caps,
    pub consecutive_failures: u32,
    pub pending_triggers: Vec<PendingTrigger>,
    pub stats: Stats,
    /// session_id and hat, as assigned via the `assign_hat` tool.
    pub hats: Named<HatAssignment>,
    pub created_sessions: Vec<String>,
    /// Capped activity feed, newest last.
    pub log: Vec<ActivityEvent>,
    pub last_rendered_prompt: String,
    /// Set when backoff auto-disabled the orchestrator; cleared on success.
    pub error: Option<String>,
    pub created_at: String,
}

/// What an [`Orchestrator`] holds.
#[verifier::ext_equal]
pub struct OrchestratorView {
    pub id: Seq<char>,
    pub name: Seq<char>,
    pub enabled: bool,
    pub paused: bool,
    pub goal: Seq<char>,
    pub goal_status: GoalStatusView,
    pub eta_history: Seq<JsonView>,
    pub standards: StandardsView,
    pub prompt: Seq<char>,
    pub folder_id: Seq<char>,
    pub model: Option<Seq<char>>,
    pub session_id: Option<Seq<char>>,
    pub schedule: Schedule,
    pub watchdog_minutes: u64,
    pub watch: WatchView,
    pub cooldown_secs: u64,
    pub caps: Caps,
    pub consecutive_failures: u32,
    pub pending_triggers: Seq<PendingView>,
    pub stats: StatsView,
    pub hats: Map<Seq<char>, HatView>,
    pub created_sessions: Seq<Seq<char>>,
    pub log: Seq<ActivityEventView>,
    pub last_rendered_prompt: Seq<char>,
    pub error: Option<Seq<char>>,
    pub created_at: Seq<char>,
}

impl View for Orchestrator {
    type V = OrchestratorView;

    open spec fn view(&self) -> OrchestratorView {
        OrchestratorView {
            id: self.id@,
            name: self.name@,
            enabled: self.enabled,
            paused: self.paused,
            goal: self.goal@,
            goal_status: self.goal_status@,
            eta_history: self.eta_history.deep_view(),
            standards: self.standards@,
            prompt: self.prompt@,
            folder_id: self.folder_id@,
            model: self.model.deep_view(),
            session_id: self.session_id.deep_view(),
            schedule: self.schedule,
            watchdog_minutes: self.watchdog_minutes,
            watch: self.watch@,
            cooldown_secs: self.cooldown_secs,
            caps: self.caps,
            consecutive_failures: self.consecutive_failures,
            pending_triggers: self.pending_triggers.deep_view(),
            stats: self.stats@,
            hats: hats_view(self.hats@),
            created_sessions: self.created_sessions.deep_view(),
            log: self.log.deep_view(),
            last_rendered_prompt: self.last_rendered_prompt@,
            error: self.error.deep_view(),
            created_at: self.created_at@,
        }
    }
}

impl DeepView for Orchestrator {
    type V = OrchestratorView;

    open spec fn deep_view(&self) -> OrchestratorView {
        self@
    }
}

/// A record with an id, a name and a folder, and every default.
pub open spec fn fresh(id: Seq<char>, name: Seq<char>, folder_id: Seq<char>) -> OrchestratorView {
    OrchestratorView {
        id,
        name,
        enabled: true,
        paused: false,
        goal: Seq::empty(),
        goal_status: GoalStatusView {
            state: "in_progress"@,
            note: Seq::empty(),
            percent: None,
            updated_at: Seq::empty(),
            eta: None,
        },
        eta_history: Seq::empty(),
        standards: StandardsView { dev: true, testing: true, ux: true, custom: Seq::empty() },
        prompt: Seq::empty(),
        folder_id,
        model: None,
        session_id: None,
        schedule: Schedule { every_minutes: None },
        watchdog_minutes: 15,
        watch: WatchView {
            sessions: Seq::empty(),
            folders: Seq::empty(),
            auto_watch_created: true,
        },
        cooldown_secs: 60,
        caps: Caps { max_fires_per_hour: 12, max_sessions_created: 10 },
        consecutive_failures: 0,
        pending_triggers: Seq::empty(),
        stats: StatsView {
            actions: 0,
            fires: 0,
            last_fired_at: None,
            next_due_at: None,
            sessions_created: 0,
            fire_times: Seq::empty(),
        },
        hats: Map::empty(),
        created_sessions: Seq::empty(),
        log: Seq::empty(),
        last_rendered_prompt: Seq::empty(),
        error: None,
        created_at: Seq::empty(),
    }
}

impl OrchestratorView {
    /// The record with one more entry in the activity feed.
    pub open spec fn logged(self, ts: Seq<char>, kind: Seq<char>, detail: Seq<char>) -> Self {
        OrchestratorView {
            log: newest(self.log.push(ActivityEventView { ts, kind, detail }), LOG_CAP as nat),
            ..self
        }
    }

    /// The record with one more action counted.
    pub open spec fn acted(self) -> Self {
        OrchestratorView {
            stats: StatsView { actions: self.stats.actions.wrapping_add(1), ..self.stats },
            ..self
        }
    }

    /// Whether a turn of the session ending makes the orchestrator fire.
    pub open spec fn watches_session(self, session_id: Seq<char>) -> bool {
        self.watch.sessions.contains(session_id) || self.created_sessions.contains(session_id)
    }

    /// Whether the folder is watched.
    pub open spec fn watches_folder(self, folder_id: Seq<char>) -> bool {
        self.watch.folders.contains(folder_id)
    }

    /// The stored document.
    pub open spec fn to_json(self) -> JsonView {
        JsonView::Object(
            map![
                "id"@ => JsonView::Text(self.id),
                "name"@ => JsonView::Text(self.name),
                "enabled"@ => JsonView::Bool(self.enabled),
                "paused"@ => JsonView::Bool(self.paused),
                "goal"@ => JsonView::Text(self.goal),
                "goal_status"@ => self.goal_status.to_json(),
                "eta_history"@ => JsonView::Array(self.eta_history),
                "standards"@ => JsonView::Object(
                    map![
                        "dev"@ => JsonView::Bool(self.standards.dev),
                        "testing"@ => JsonView::Bool(self.standards.testing),
                        "ux"@ => JsonView::Bool(self.standards.ux),
                        "custom"@ => JsonView::Text(self.standards.custom)
                    ],
                ),
                "prompt"@ => JsonView::Text(self.prompt),
                "folder_id"@ => JsonView::Text(self.folder_id),
                "model"@ => json::opt_text_view(self.model),
                "session_id"@ => json::opt_text_view(self.session_id),
                "schedule"@ => JsonView::Object(
                    map![
                        "every_minutes"@ => match self.schedule.every_minutes {
                            Some(m) => json::uint_view(m),
                            None => JsonView::Null,
                        }
                    ],
                ),
                "watchdog_minutes"@ => json::uint_view(self.watchdog_minutes),
                "watch"@ => JsonView::Object(
                    map![
                        "sessions"@ => json::texts_view(self.watch.sessions),
                        "folders"@ => json::texts_view(self.watch.folders),
                        "auto_watch_created"@ => JsonView::Bool(self.watch.auto_watch_created)
                    ],
                ),
                "cooldown_secs"@ => json::uint_view(self.cooldown_secs),
                "caps"@ => JsonView::Object(
                    map![
                        "max_fires_per_hour"@ => json::uint_view(self.caps.max_fires_per_hour as u64),
                        "max_sessions_created"@ => json::uint_view(self.caps.max_sessions_created as u64)
                    ],
                ),
                "consecutive_failures"@ => json::uint_view(self.consecutive_failures as u64),
                "pending_triggers"@ => pending_view(self.pending_triggers),
                "stats"@ => self.stats.to_json(),
                "hats"@ => hats_json(self.hats),
                "created_sessions"@ => json::texts_view(self.created_sessions),
                "log"@ => log_view(self.log),
                "last_rendered_prompt"@ => JsonView::Text(self.last_rendered_prompt),
                "error"@ => json::opt_text_view(self.error),
                "created_at"@ => JsonView::Text(self.created_at)
            ],
        )
    }
}

impl Orchestrator {
    /// A record with an id, a name and a folder, and every default.
    pub fn new(id: &str, name: &str, folder_id: &str) -> (r: Orchestrator)
        ensures
            r@ == fresh(id@, name@, folder_id@),
    {
        let r = Orchestrator {
            id: id.to_owned(),
            name: name.to_owned(),
            enabled: default_true(),
            paused: false,
            goal: String::new(),
            goal_status: Default::default(),
            eta_history: Vec::new(),
            standards: Default::default(),
            prompt: String::new(),
            folder_id: folder_id.to_owned(),
            model: None,
            session_id: None,
            schedule: Default::default(),
            watchdog_minutes: default_watchdog(),
            watch: Default::default(),
            cooldown_secs: default_cooldown(),
            caps: Default::default(),
            consecutive_failures: 0,
            pending_triggers: Vec::new(),
            stats: Default::default(),
            hats: Named::new(),
            created_sessions: Vec::new(),
            log: Vec::new(),
            last_rendered_prompt: String::new(),
            error: None,
            created_at: String::new(),
        };
        proof {
            let f = fresh(id@, name@, folder_id@);
            assert(r@.eta_history =~= f.eta_history);
            assert(r@.pending_triggers =~= f.pending_triggers);
            assert(r@.created_sessions =~= f.created_sessions);
            assert(r@.hats =~= f.hats);
            assert(r@.log =~= f.log);
        }
        r
    }

    /// Appends to the activity feed, which keeps the newest [`LOG_CAP`] entries.
    pub fn push_log(&mut self, now: &str, kind: &str, detail: String)
        ensures
            final(self)@ == old(self)@.logged(now@, kind@, detail@),
    {
        let ghost before = self.log.deep_view();
        let event = ActivityEvent { ts: now.to_owned(), kind: kind.to_owned(), detail };
        let ghost e = event.deep_view();
        self.log.push(event);
        assert(self.log.deep_view() =~= before.push(e));
        let ghost pushed = self.log.deep_view();
        keep_newest(&mut self.log, LOG_CAP);
        assert(self.log.deep_view() =~= newest(pushed, LOG_CAP as nat));
    }

    /// Whether a turn of the session ending makes the orchestrator fire.
    pub fn watches_session(&self, session_id: &str) -> (r: bool)
        ensures
            r == self@.watches_session(session_id@),
    {
        contains_text(&self.watch.sessions, session_id) || contains_text(
            &self.created_sessions,
            session_id,
        )
    }

    /// Whether the folder is watched.
    pub fn watches_folder(&self, folder_id: &str) -> (r: bool)
        ensures
            r == self@.watches_folder(folder_id@),
    {
        contains_text(&self.watch.folders, folder_id)
    }

    /// Writes down the hat that a session wears from now on.
    pub fn put_hat(&mut self, session_id: &str, hat: HatAssignment)
        ensures
            final(self)@ == (OrchestratorView {
                hats: old(self)@.hats.insert(session_id@, hat.deep_view()),
                ..old(self)@
            }),
    {
        let mut hats = Named::new();
        std::mem::swap(&mut hats, &mut self.hats);
        self.hats = hats.put(session_id.to_owned(), hat);
        assert(self@.hats =~= old(self)@.hats.insert(session_id@, hat.deep_view()));
    }

    /// The fields of the stored document.
    pub fn to_fields(&self) -> (r: Fields)
        ensures
            JsonView::Object(r@) == self@.to_json(),
    {
        let standards = Fields::new().with("dev", Json::Bool(self.standards.dev)).with(
            "testing",
            Json::Bool(self.standards.testing),
        ).with("ux", Json::Bool(self.standards.ux)).with(
            "custom",
            Json::text(self.standards.custom.as_str()),
        ).done();
        let every = match self.schedule.every_minutes {
            Some(m) => Json::uint(m),
            None => Json::Null,
        };
        let watch = Fields::new().with("sessions", Json::texts(&self.watch.sessions)).with(
            "folders",
            Json::texts(&self.watch.folders),
        ).with("auto_watch_created", Json::Bool(self.watch.auto_watch_created)).done();
        let caps = Fields::new().with(
            "max_fires_per_hour",
            Json::uint(self.caps.max_fires_per_hour as u64),
        ).with("max_sessions_created", Json::uint(self.caps.max_sessions_created as u64)).done();
        let eta_history = copy_items(&self.eta_history);
        assert(json::items_view(eta_history@) =~= self@.eta_history);
        Fields::new().with("id", Json::text(self.id.as_str())).with(
            "name",
            Json::text(self.name.as_str()),
        ).with("enabled", Json::Bool(self.enabled)).with("paused", Json::Bool(self.paused)).with(
            "goal",
            Json::text(self.goal.as_str()),
        ).with("goal_status", self.goal_status.to_json()).with(
            "eta_history",
            Json::Array(eta_history),
        ).with("standards", standards).with("prompt", Json::text(self.prompt.as_str())).with(
            "folder_id",
            Json::text(self.folder_id.as_str()),
        ).with("model", Json::opt_text(opt_str(&self.model))).with(
            "session_id",
            Json::opt_text(opt_str(&self.session_id)),
        ).with("schedule", Fields::new().with("every_minutes", every).done()).with(
            "watchdog_minutes",
            Json::uint(self.watchdog_minutes),
        ).with("watch", watch).with("cooldown_secs", Json::uint(self.cooldown_secs)).with(
            "caps",
            caps,
        ).with("consecutive_failures", Json::uint(self.consecutive_failures as u64)).with(
            "pending_triggers",
            pending_json(&self.pending_triggers),
        ).with("stats", self.stats.to_json()).with("hats", hats_to_json(&self.hats)).with(
            "created_sessions",
            Json::texts(&self.created_sessions),
        ).with("log", log_json(&self.log)).with(
            "last_rendered_prompt",
            Json::text(self.last_rendered_prompt.as_str()),
        ).with("error", Json::opt_text(opt_str(&self.error))).with(
            "created_at",
            Json::text(self.created_at.as_str()),
        )
    }

    /// The stored document.
    pub fn to_json(&self) -> (r: Json)
        ensures
            r@ == self@.to_json(),
    {
        self.to_fields().done()
    }

    /// Counts one action.
    pub fn count_action(&mut self)
        ensures
            final(self)@ == old(self)@.acted(),
    {
        self.stats.actions = self.stats.actions.wrapping_add(1);
    }
}

} // verus!

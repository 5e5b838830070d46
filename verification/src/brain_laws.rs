//! What the tools of a brain ask for, write down and answer.

use vstd::prelude::*;

use crate::control_laws;
use crate::edit_laws;
use crate::engine;
use crate::fire_laws;
use crate::host::{HostFn, ReplyView, RequestView, Script};
use crate::json::{self, JsonView};
use crate::orch_tools::{self, ReportView};
use crate::records::{
    self, EtaView, GoalStatusView, HatView, OrchestratorView, StatsView, WatchView,
};
use crate::state;
use crate::store_laws;
use crate::text;
use crate::time;

verus! {

// ── Who calls, and when ───────────────────────────────────────────────

/// The caller is asked for, and is the session in the answer; an empty text is
/// no session.
pub proof fn callers_are_asked_for(s: Script, scope: JsonView, e: Seq<char>)
    ensures
        ({
            let who = store_laws::call_of(HostFn::CallerScope, Map::empty());
            let run = orch_tools::caller_session_run(s);
            &&& run.0.asked == s.asked.push(who)
            &&& store_laws::next_is(s, Ok(scope)) ==> run == (
                store_laws::after(s, who),
                Some(
                    Ok::<Option<Seq<char>>, Seq<char>>(control_laws::said(scope, "session_id"@)),
                ),
            )
            &&& store_laws::next_is(s, Err(e)) ==> run == (
                store_laws::after(s, who),
                Some(Err::<Option<Seq<char>>, Seq<char>>(e)),
            )
        }),
{
}

/// The orchestrator of a brain is the first that has the brain.
pub proof fn brains_have_the_first_orchestrator(
    a: Seq<OrchestratorView>,
    o: OrchestratorView,
    b: Seq<OrchestratorView>,
    brain: Seq<char>,
)
    requires
        forall|i: int| 0 <= i < a.len() ==> (#[trigger] a[i]).session_id != Some(brain),
    ensures
        o.session_id == Some(brain) ==> orch_tools::with_brain(a + seq![o] + b, brain) == Some(o),
        orch_tools::with_brain(a, brain) is None,
    decreases a.len(),
{
    let all = a + seq![o] + b;
    if a.len() == 0 {
        assert(all[0] == o);
    } else {
        assert(all[0] == a[0]);
        assert(all.skip(1) =~= a.skip(1) + seq![o] + b);
        assert forall|i: int| 0 <= i < a.skip(1).len() implies (#[trigger] a.skip(1)[i]).session_id
            != Some(brain) by {
            assert(a.skip(1)[i] == a[i + 1]);
        }
        brains_have_the_first_orchestrator(a.skip(1), o, b, brain);
    }
}

/// The orchestrator of the caller is looked for among all of them; without a
/// session there is none, and a tool that needs one is refused.
pub proof fn callers_are_looked_for(
    s: Script,
    t: Script,
    caller: Seq<char>,
    u: Script,
    orchs: Seq<OrchestratorView>,
    o: OrchestratorView,
    e: Seq<char>,
)
    ensures
        orch_tools::caller_session_run(s) == (
            t,
            Some(Err::<Option<Seq<char>>, Seq<char>>(e)),
        ) ==> orch_tools::caller_orchestrator_run(s) == (
            t,
            Some(Err::<Option<OrchestratorView>, Seq<char>>(e)),
        ),
        orch_tools::caller_session_run(s) == (
            t,
            Some(Ok::<Option<Seq<char>>, Seq<char>>(None)),
        ) ==> orch_tools::caller_orchestrator_run(s) == (
            t,
            Some(Ok::<Option<OrchestratorView>, Seq<char>>(None)),
        ),
        orch_tools::caller_session_run(s) == (
            t,
            Some(Ok::<Option<Seq<char>>, Seq<char>>(Some(caller))),
        ) && state::list_orchestrators_run(t) == (
            u,
            Some(Ok::<Seq<OrchestratorView>, Seq<char>>(orchs)),
        ) ==> orch_tools::caller_orchestrator_run(s) == (
            u,
            Some(
                Ok::<Option<OrchestratorView>, Seq<char>>(orch_tools::with_brain(orchs, caller)),
            ),
        ),
        orch_tools::caller_orchestrator_run(s) == (
            u,
            Some(Ok::<Option<OrchestratorView>, Seq<char>>(Some(o))),
        ) ==> orch_tools::require_caller_orchestrator_run(s) == (
            u,
            Some(Ok::<OrchestratorView, Seq<char>>(o)),
        ),
        orch_tools::caller_orchestrator_run(s) == (
            u,
            Some(Ok::<Option<OrchestratorView>, Seq<char>>(None)),
        ) ==> orch_tools::require_caller_orchestrator_run(s) == (
            u,
            Some(
                Err::<OrchestratorView, Seq<char>>(
                    "this tool is for orchestrator brain sessions; the calling session is not one"@,
                ),
            ),
        ),
{
}

/// The time is that of the clock, and the epoch before the first tick.
pub proof fn time_is_that_of_the_clock(s: Script, out: JsonView)
    requires
        store_laws::next_is(s, Ok(out)),
    ensures
        orch_tools::now_run(s) == (
            store_laws::after(
                s,
                store_laws::call_of(
                    HostFn::StoreGet,
                    map![
                        "collection"@ => JsonView::Text("engine"@),
                        "key"@ => JsonView::Text("clock"@)
                    ],
                ),
            ),
            Some(
                match out.get("value"@) {
                    Some(doc) => control_laws::text_or(doc, "now"@, "1970-01-01T00:00:00Z"@),
                    None => "1970-01-01T00:00:00Z"@,
                },
            ),
        ),
{
}

/// The argument, where it is there with more than white space.
pub open spec fn argument(args: JsonView, key: Seq<char>) -> Option<Seq<char>> {
    match args.get(key) {
        Some(JsonView::Text(v)) => if text::trim(v).len() > 0 {
            Some(v)
        } else {
            None
        },
        _ => None,
    }
}

/// The refusal of a call without an argument.
pub open spec fn missing(key: Seq<char>) -> Option<Result<JsonView, Seq<char>>> {
    edit_laws::refused("'"@ + key + "' is required"@)
}

/// The answer of a tool, with a document.
pub open spec fn told(fields: Map<Seq<char>, JsonView>) -> Option<Result<JsonView, Seq<char>>> {
    Some(Ok(JsonView::Object(fields)))
}

/// The refusal where another has the lease.
pub open spec fn busy() -> Option<Result<JsonView, Seq<char>>> {
    edit_laws::refused("the orchestrator engine is busy — try again in a moment"@)
}

/// A record is saved last, and the answer comes where that went well.
pub open spec fn saved_last(
    run: (Script, Option<Result<JsonView, Seq<char>>>),
    o: OrchestratorView,
    s: Script,
    answer: Option<Result<JsonView, Seq<char>>>,
) -> bool {
    let (t, saved) = state::save_orchestrator_run(o, s);
    &&& run.0 == t
    &&& saved matches Some(Ok(_)) ==> run.1 == answer
    &&& saved matches Some(Err(e)) ==> run.1 == edit_laws::refused(e)
    &&& saved is None ==> run.1 is None
}

// ── create_session ────────────────────────────────────────────────────

/// A session is created under the lease, with the arguments of the call; it
/// needs a name.
pub proof fn sessions_are_created_under_the_lease(args: JsonView, name: Seq<char>, s: Script)
    ensures
        argument(args, "name"@) is None ==> orch_tools::create_session_run(args, s) == (
            s,
            missing("name"@),
        ),
        argument(args, "name"@) == Some(name) ==> {
            let run = orch_tools::create_session_run(args, s);
            &&& edit_laws::taken(s) ==> run == (edit_laws::leased(s), busy())
            &&& edit_laws::free(s) ==> edit_laws::gives_back(
                run,
                orch_tools::create_leased_run(
                    name,
                    argument(args, "model"@),
                    argument(args, "hat"@),
                    match argument(args, "responsibilities"@) {
                        Some(v) => v,
                        None => Seq::empty(),
                    },
                    edit_laws::leased(s),
                ),
            )
        },
{
    control_laws::arguments_are_taken_as_given(args, "name"@);
    control_laws::arguments_are_taken_as_given(args, "model"@);
    control_laws::arguments_are_taken_as_given(args, "hat"@);
    control_laws::arguments_are_taken_as_given(args, "responsibilities"@);
}

/// A brain at its cap creates nothing, and is told how many of how many there
/// are. Else the host is asked for a session with the name, the model and the
/// prompt of the hat, and the session in its answer is written down.
pub proof fn sessions_are_asked_for(
    name: Seq<char>,
    model: Option<Seq<char>>,
    hat: Option<Seq<char>>,
    responsibilities: Seq<char>,
    s: Script,
    t: Script,
    orch: Option<OrchestratorView>,
    created: JsonView,
    e: Seq<char>,
)
    requires
        orch_tools::caller_orchestrator_run(s) == (
            t,
            Some(Ok::<Option<OrchestratorView>, Seq<char>>(orch)),
        ),
    ensures
        ({
            let run = orch_tools::create_leased_run(name, model, hat, responsibilities, s);
            let full = orch matches Some(o) && o.stats.sessions_created
                >= o.caps.max_sessions_created;
            let ask = store_laws::call_of(
                HostFn::CreateSession,
                map![
                    "name"@ => JsonView::Text(name),
                    "model"@ => match model {
                        Some(m) => JsonView::Text(m),
                        None => JsonView::Null,
                    },
                    "system_prompt"@ => match hat {
                        Some(h) => JsonView::Text(orch_tools::hat_text(h, responsibilities)),
                        None => JsonView::Null,
                    }
                ],
            );
            &&& full ==> run == (
                t,
                edit_laws::refused(
                    "session cap reached ("@ + text::decimal(
                        orch->0.stats.sessions_created as nat,
                    ) + " of max_sessions_created="@ + text::decimal(
                        orch->0.caps.max_sessions_created as nat,
                    )
                        + ") — raise the cap on the Orchestrators page if more are truly needed"@,
                ),
            )
            &&& !full ==> {
                &&& t.left.len() == 0 ==> run.0.asked == t.asked.push(ask) && run.1 is None
                &&& store_laws::next_is(t, Err(e)) ==> run == (
                    store_laws::after(t, ask),
                    edit_laws::refused(e),
                )
                &&& store_laws::next_is(t, Ok(created)) && fire_laws::created_id(created) is None
                    ==> run == (
                    store_laws::after(t, ask),
                    edit_laws::refused("create_session returned no session id"@),
                )
                &&& store_laws::next_is(t, Ok(created)) && fire_laws::created_id(created) is Some
                    ==> run == orch_tools::record_spawn_run(
                    orch,
                    fire_laws::created_id(created)->0,
                    name,
                    hat,
                    responsibilities,
                    store_laws::after(t, ask),
                )
            }
        }),
{
}

/// The record of a brain that created a session counts it and one action,
/// watches it where created sessions are watched, keeps its hat, and says so in
/// the feed; nothing else changes.
pub proof fn created_sessions_are_written_down(
    o: OrchestratorView,
    id: Seq<char>,
    name: Seq<char>,
    hat: Option<Seq<char>>,
    responsibilities: Seq<char>,
    ts: Seq<char>,
)
    requires
        o.stats.sessions_created < u32::MAX,
        o.stats.actions < u64::MAX,
    ensures
        orch_tools::spawned(o, id, name, hat, responsibilities, ts) == (OrchestratorView {
            stats: StatsView {
                sessions_created: (o.stats.sessions_created + 1) as u32,
                actions: (o.stats.actions + 1) as u64,
                ..o.stats
            },
            created_sessions: if o.watch.auto_watch_created {
                o.created_sessions + seq![id]
            } else {
                o.created_sessions
            },
            hats: match hat {
                Some(hat) => o.hats.insert(id, HatView { hat, responsibilities, assigned_at: ts }),
                None => o.hats,
            },
            log: fire_laws::with_line(
                o.log,
                ts,
                "created_session"@,
                match hat {
                    Some(hat) => "created session \""@ + name + "\" ("@ + id + ")"@ + (
                    " wearing hat \""@ + hat + "\""@),
                    None => "created session \""@ + name + "\" ("@ + id + ")"@,
                },
            ),
            ..o
        }),
{
    assert(o.created_sessions.push(id) =~= o.created_sessions + seq![id]);
    let line = "created session \""@ + name + "\" ("@ + id + ")"@;
    assert(line + Seq::<char>::empty() =~= line);
}

/// Where the caller is a brain, its record with the session is saved, at the
/// time of the clock; any other caller gets its session unwatched.
pub proof fn created_sessions_are_answered(
    orch: Option<OrchestratorView>,
    id: Seq<char>,
    name: Seq<char>,
    hat: Option<Seq<char>>,
    responsibilities: Seq<char>,
    s: Script,
    o: OrchestratorView,
    t: Script,
    ts: Seq<char>,
)
    ensures
        ({
            let run = orch_tools::record_spawn_run(orch, id, name, hat, responsibilities, s);
            &&& orch is None ==> run == (
                s,
                told(
                    map![
                        "ok"@ => JsonView::Bool(true),
                        "session_id"@ => JsonView::Text(id),
                        "watched"@ => JsonView::Bool(false)
                    ],
                ),
            )
            &&& orch == Some(o) && orch_tools::now_run(s) == (t, Some(ts)) ==> saved_last(
                run,
                orch_tools::spawned(o, id, name, hat, responsibilities, ts),
                t,
                told(
                    map![
                        "ok"@ => JsonView::Bool(true),
                        "session_id"@ => JsonView::Text(id),
                        "watched"@ => JsonView::Bool(true)
                    ],
                ),
            )
        }),
{
}

// ── assign_hat ────────────────────────────────────────────────────────

/// A hat needs a session, a name and responsibilities. The session is told its
/// prompt first, and then the hat is written down under the lease.
pub proof fn hats_are_handed_out(
    args: JsonView,
    id: Seq<char>,
    hat: Seq<char>,
    responsibilities: Seq<char>,
    s: Script,
    out: JsonView,
    e: Seq<char>,
)
    ensures
        ({
            let run = orch_tools::assign_hat_run(args, s);
            let tell = store_laws::call_of(
                HostFn::OrchestrateSetPrompt,
                map![
                    "session_id"@ => JsonView::Text(id),
                    "system_prompt"@ => JsonView::Text(orch_tools::hat_text(hat, responsibilities))
                ],
            );
            let no_id = argument(args, "session_id"@) is None;
            let no_hat = argument(args, "hat"@) is None;
            let t = store_laws::after(s, tell);
            &&& no_id ==> run == (s, missing("session_id"@))
            &&& !no_id && no_hat ==> run == (s, missing("hat"@))
            &&& !no_id && !no_hat && argument(args, "responsibilities"@) is None ==> run == (
                s,
                missing("responsibilities"@),
            )
            &&& argument(args, "session_id"@) == Some(id) && argument(args, "hat"@) == Some(hat)
                && argument(args, "responsibilities"@) == Some(responsibilities) ==> {
                &&& store_laws::next_is(s, Err(e)) ==> run == (t, edit_laws::refused(e))
                &&& store_laws::next_is(s, Ok(out)) && edit_laws::taken(t) ==> run == (
                    edit_laws::leased(t),
                    busy(),
                )
                &&& store_laws::next_is(s, Ok(out)) && edit_laws::free(t) ==> edit_laws::gives_back(
                    run,
                    orch_tools::hat_leased_run(id, hat, responsibilities, edit_laws::leased(t)),
                )
            }
        }),
{
    control_laws::arguments_are_taken_as_given(args, "session_id"@);
    control_laws::arguments_are_taken_as_given(args, "hat"@);
    control_laws::arguments_are_taken_as_given(args, "responsibilities"@);
}

/// The hat stands in the record of the calling brain under its session, with
/// the action counted and a line in the feed; a caller that is no brain has
/// nothing to write down.
pub proof fn hats_are_written_down(
    id: Seq<char>,
    hat: Seq<char>,
    responsibilities: Seq<char>,
    s: Script,
    t: Script,
    o: OrchestratorView,
    u: Script,
    ts: Seq<char>,
)
    requires
        o.stats.actions < u64::MAX,
    ensures
        ({
            let run = orch_tools::hat_leased_run(id, hat, responsibilities, s);
            let answer = told(
                map![
                    "ok"@ => JsonView::Bool(true),
                    "session_id"@ => JsonView::Text(id),
                    "hat"@ => JsonView::Text(hat)
                ],
            );
            &&& orch_tools::caller_orchestrator_run(s) == (
                t,
                Some(Ok::<Option<OrchestratorView>, Seq<char>>(None)),
            ) ==> run == (t, answer)
            &&& orch_tools::caller_orchestrator_run(s) == (
                t,
                Some(Ok::<Option<OrchestratorView>, Seq<char>>(Some(o))),
            ) && orch_tools::now_run(t) == (u, Some(ts)) ==> saved_last(
                run,
                OrchestratorView {
                    stats: StatsView { actions: (o.stats.actions + 1) as u64, ..o.stats },
                    hats: o.hats.insert(id, HatView { hat, responsibilities, assigned_at: ts }),
                    log: fire_laws::with_line(
                        o.log,
                        ts,
                        "hat_assigned"@,
                        "hat \""@ + hat + "\" → session "@ + id,
                    ),
                    ..o
                },
                u,
                answer,
            )
        }),
{
}

// ── watch_session, unwatch_session ────────────────────────────────────

/// Watching changes under the lease, and needs a session.
pub proof fn watching_changes_under_the_lease(
    args: JsonView,
    watch: bool,
    id: Seq<char>,
    s: Script,
)
    ensures
        ({
            let run = orch_tools::watch_session_run(args, watch, s);
            &&& argument(args, "session_id"@) is None ==> run == (s, missing("session_id"@))
            &&& argument(args, "session_id"@) == Some(id) && edit_laws::taken(s) ==> run == (
                edit_laws::leased(s),
                busy(),
            )
            &&& argument(args, "session_id"@) == Some(id) && edit_laws::free(s)
                ==> edit_laws::gives_back(
                run,
                orch_tools::watch_leased_run(id, watch, edit_laws::leased(s)),
            )
        }),
{
    control_laws::arguments_are_taken_as_given(args, "session_id"@);
}

/// A watched session is appended where it is not in the list yet. One that is
/// no longer watched leaves the list and the created sessions. The action is
/// counted, and the feed says which of the two it was.
pub proof fn watching_is_written_down(
    id: Seq<char>,
    watch: bool,
    s: Script,
    t: Script,
    o: OrchestratorView,
    u: Script,
    ts: Seq<char>,
)
    requires
        o.stats.actions < u64::MAX,
        orch_tools::require_caller_orchestrator_run(s) == (
            t,
            Some(Ok::<OrchestratorView, Seq<char>>(o)),
        ),
        orch_tools::now_run(t) == (u, Some(ts)),
    ensures
        ({
            let listed = exists|i: int|
                0 <= i < o.watch.sessions.len() && #[trigger] o.watch.sessions[i] == id;
            saved_last(
                orch_tools::watch_leased_run(id, watch, s),
                OrchestratorView {
                    stats: StatsView { actions: (o.stats.actions + 1) as u64, ..o.stats },
                    watch: WatchView {
                        sessions: if !watch {
                            records::without(o.watch.sessions, id)
                        } else if listed {
                            o.watch.sessions
                        } else {
                            o.watch.sessions + seq![id]
                        },
                        ..o.watch
                    },
                    created_sessions: if watch {
                        o.created_sessions
                    } else {
                        records::without(o.created_sessions, id)
                    },
                    log: fire_laws::with_line(
                        o.log,
                        ts,
                        "watch_changed"@,
                        (if watch {
                            "now watching"@
                        } else {
                            "stopped watching"@
                        }) + " "@ + id,
                    ),
                    ..o
                },
                u,
                told(
                    map![
                        "ok"@ => JsonView::Bool(true),
                        "watching"@ => JsonView::Bool(watch),
                        "session_id"@ => JsonView::Text(id)
                    ],
                ),
            )
        }),
{
    assert(o.watch.sessions.push(id) =~= o.watch.sessions + seq![id]);
}

/// Leaving a text out leaves it out of every part, and keeps every other.
pub proof fn left_out_texts_are_dropped(
    a: Seq<Seq<char>>,
    b: Seq<Seq<char>>,
    s: Seq<char>,
    other: Seq<char>,
)
    ensures
        records::without(a + b, s) == records::without(a, s) + records::without(b, s),
        records::without(seq![s], s) == Seq::<Seq<char>>::empty(),
        other != s ==> records::without(seq![other], s) == seq![other],
        records::without(Seq::empty(), s) == Seq::<Seq<char>>::empty(),
    decreases b.len(),
{
    reveal_with_fuel(records::without, 2);
    assert(seq![s].drop_last() =~= Seq::empty());
    assert(seq![other].drop_last() =~= Seq::empty());
    if b.len() == 0 {
        assert(a + b =~= a);
    } else {
        left_out_texts_are_dropped(a, b.drop_last(), s, other);
        assert((a + b).drop_last() =~= a + b.drop_last());
        assert((a + b).last() == b.last());
    }
}

// ── list_managed_sessions ─────────────────────────────────────────────

/// A text that repeats the one before it is dropped, any other is kept.
pub proof fn neighbours_are_told_once(v: Seq<Seq<char>>, x: Seq<char>)
    ensures
        orch_tools::deduped(Seq::empty()) == Seq::<Seq<char>>::empty(),
        orch_tools::deduped(seq![x]) == seq![x],
        v.len() > 0 && v.last() == x ==> orch_tools::deduped(v.push(x)) == orch_tools::deduped(v),
        v.len() > 0 && v.last() != x ==> orch_tools::deduped(v.push(x)) == orch_tools::deduped(
            v,
        ).push(x),
{
    assert(v.push(x).drop_last() =~= v);
    assert(v.push(x).last() == x);
    if v.len() > 0 {
        assert(v.push(x)[v.push(x).len() - 2] == v.last());
    }
}

/// The managed sessions are the watched ones, then the created ones.
pub proof fn watched_and_created_are_managed(o: OrchestratorView)
    ensures
        engine::managed(o) == o.watch.sessions + o.created_sessions,
{
}

/// What is told of a managed session: its id, what the host lists of it, whether
/// it is listed at all, whether it is busy, its hat, and whether the brain
/// created it.
pub proof fn managed_sessions_are_told_in_full(
    o: OrchestratorView,
    a: Seq<JsonView>,
    info: JsonView,
    b: Seq<JsonView>,
    id: Seq<char>,
    busy: bool,
)
    requires
        forall|i: int|
            0 <= i < a.len() ==> (#[trigger] a[i]).get("session_id"@) != Some(JsonView::Text(id)),
    ensures
        ({
            let hat = if o.hats.dom().contains(id) {
                JsonView::Object(
                    map![
                        "hat"@ => JsonView::Text(o.hats[id].hat),
                        "responsibilities"@ => JsonView::Text(o.hats[id].responsibilities)
                    ],
                )
            } else {
                JsonView::Null
            };
            let ours = JsonView::Bool(
                exists|i: int|
                    0 <= i < o.created_sessions.len() && #[trigger] o.created_sessions[i] == id,
            );
            let or_null = |v: Option<JsonView>|
                match v {
                    Some(v) => v,
                    None => JsonView::Null,
                };
            &&& info.get("session_id"@) == Some(JsonView::Text(id)) ==> orch_tools::managed_doc(
                o,
                a + seq![info] + b,
                id,
                busy,
            ) == JsonView::Object(
                map![
                    "session_id"@ => JsonView::Text(id),
                    "name"@ => or_null(info.get("name"@)),
                    "folder_id"@ => or_null(info.get("folder_id"@)),
                    "exists"@ => JsonView::Bool(true),
                    "busy"@ => JsonView::Bool(busy),
                    "hat"@ => hat,
                    "created_by_orchestrator"@ => ours
                ],
            )
            &&& orch_tools::managed_doc(o, a, id, busy) == JsonView::Object(
                map![
                    "session_id"@ => JsonView::Text(id),
                    "name"@ => JsonView::Null,
                    "folder_id"@ => JsonView::Null,
                    "exists"@ => JsonView::Bool(false),
                    "busy"@ => JsonView::Bool(busy),
                    "hat"@ => hat,
                    "created_by_orchestrator"@ => ours
                ],
            )
        }),
{
    let all = a + seq![info] + b;
    control_laws::found_session_is_the_first(a, id);
    control_laws::found_session_is_the_first(all, id);
    assert(all[a.len() as int] == info);
    assert forall|i: int| 0 <= i < a.len() implies #[trigger] all[i] == a[i] by {}
}

/// Every managed session is told of, in order, with its busy mark.
pub proof fn every_managed_session_is_told(
    o: OrchestratorView,
    all: Seq<JsonView>,
    id: Seq<char>,
    rest: Seq<Seq<char>>,
    ts: Seq<char>,
    done: Seq<JsonView>,
    s: Script,
    t: Script,
    busy: bool,
)
    ensures
        orch_tools::managed_docs_run(o, all, Seq::empty(), ts, done, s) == (s, Some(done)),
        state::is_busy_run(id, ts, s) == (t, Some(busy)) ==> orch_tools::managed_docs_run(
            o,
            all,
            seq![id] + rest,
            ts,
            done,
            s,
        ) == orch_tools::managed_docs_run(
            o,
            all,
            rest,
            ts,
            done.push(orch_tools::managed_doc(o, all, id, busy)),
            t,
        ),
{
    assert((seq![id] + rest).skip(1) =~= rest);
}

/// The answer names the orchestrator, how its goal stands and the managed
/// sessions, once the host has listed all sessions.
pub proof fn managed_sessions_are_answered(
    s: Script,
    t: Script,
    o: OrchestratorView,
    u: Script,
    ts: Seq<char>,
    listed: JsonView,
    all: Seq<JsonView>,
    e: Seq<char>,
)
    requires
        orch_tools::require_caller_orchestrator_run(s) == (
            t,
            Some(Ok::<OrchestratorView, Seq<char>>(o)),
        ),
        orch_tools::now_run(t) == (u, Some(ts)),
    ensures
        ({
            let ask = store_laws::call_of(
                HostFn::ListSessions,
                map!["query"@ => JsonView::Text(""@)],
            );
            let run = orch_tools::list_managed_sessions_run(s);
            &&& store_laws::next_is(u, Err(e)) ==> run == (
                store_laws::after(u, ask),
                edit_laws::refused(e),
            )
            &&& store_laws::next_is(u, Ok(listed)) && listed.get("sessions"@) == Some(
                JsonView::Array(all),
            ) ==> {
                let (v, docs) = orch_tools::managed_docs_run(
                    o,
                    all,
                    orch_tools::deduped(o.watch.sessions + o.created_sessions),
                    ts,
                    Seq::empty(),
                    store_laws::after(u, ask),
                );
                &&& run.0 == v
                &&& docs is None ==> run.1 is None
                &&& docs matches Some(docs) ==> run.1 == told(
                    map![
                        "orchestrator"@ => JsonView::Text(o.name),
                        "goal_status"@ => o.goal_status.to_json(),
                        "sessions"@ => JsonView::Array(docs)
                    ],
                )
            }
        }),
{
}

// ── update_goal_status ────────────────────────────────────────────────

/// A report has one of three states, and an estimate unless the goal is done.
/// It holds what the arguments say; a percentage is at most a hundred.
pub proof fn reports_say_what_is_given(args: JsonView, state: Seq<char>)
    ensures
        argument(args, "state"@) is None ==> orch_tools::report_of(args) == Err::<
            ReportView,
            Seq<char>,
        >("'"@ + "state"@ + "' is required"@),
        argument(args, "state"@) == Some(state) ==> {
            let known = state == "in_progress"@ || state == "blocked"@ || state == "done"@;
            let eta = args.u64_at("eta_minutes"@);
            &&& !known ==> orch_tools::report_of(args) == Err::<ReportView, Seq<char>>(
                "'state' must be one of: in_progress, blocked, done"@,
            )
            &&& known && state != "done"@ && eta is None ==> orch_tools::report_of(args) == Err::<
                ReportView,
                Seq<char>,
            >(
                "'eta_minutes' is required while the goal is not done — your current estimate of minutes until the entire requirements are implemented"@,
            )
            &&& known && (state == "done"@ || eta is Some) ==> (orch_tools::report_of(
                args,
            ) matches Ok(r) && {
                &&& r.state == state
                &&& r.note == match argument(args, "note"@) {
                    Some(note) => note,
                    None => Seq::empty(),
                }
                &&& eta matches Some(m) ==> r.eta_minutes == m
                &&& eta is None ==> r.eta_minutes == 0
                &&& args.u64_at("percent"@) is None ==> r.percent is None
                &&& args.u64_at("percent"@) matches Some(p) ==> (r.percent matches Some(q) && q
                    == if p <= 100 {
                    p as int
                } else {
                    100
                })
            })
        },
{
    control_laws::arguments_are_taken_as_given(args, "state"@);
    control_laws::arguments_are_taken_as_given(args, "note"@);
}

/// A report is written down under the lease; one that is not complete asks
/// nothing.
pub proof fn reports_take_the_lease(args: JsonView, s: Script, r: ReportView, e: Seq<char>)
    ensures
        ({
            let run = orch_tools::update_goal_status_run(args, s);
            &&& orch_tools::report_of(args) == Err::<ReportView, Seq<char>>(e) ==> run == (
                s,
                edit_laws::refused(e),
            )
            &&& orch_tools::report_of(args) == Ok::<ReportView, Seq<char>>(r) ==> {
                &&& edit_laws::taken(s) ==> run == (edit_laws::leased(s), busy())
                &&& edit_laws::free(s) ==> edit_laws::gives_back(
                    run,
                    orch_tools::report_leased_run(r, edit_laws::leased(s)),
                )
            }
        }),
{
}

/// What the feed says of a report: the state, the percentage where there is one,
/// the estimate, and the note where there is one.
pub proof fn reports_are_worded(r: ReportView)
    ensures
        ({
            let eta = " eta="@ + text::decimal(r.eta_minutes as nat) + "min"@;
            let head = match r.percent {
                Some(p) => "state="@ + r.state + " "@ + text::decimal(p as nat) + "%"@ + eta,
                None => "state="@ + r.state + eta,
            };
            orch_tools::report_text(r) == if r.note.len() == 0 {
                head
            } else {
                head + " — "@ + r.note
            }
        }),
{
    let eta = " eta="@ + text::decimal(r.eta_minutes as nat) + "min"@;
    let head = match r.percent {
        Some(p) => "state="@ + r.state + " "@ + text::decimal(p as nat) + "%"@ + eta,
        None => "state="@ + r.state + eta,
    };
    if r.note.len() == 0 {
        assert(orch_tools::report_text(r) =~= head);
    } else {
        assert(orch_tools::report_text(r) =~= head + " — "@ + r.note);
    }
}

/// The record of the brain that reported holds the report at its time, the
/// estimate projected onto the clock, and one more sample of it; the action is
/// counted and the feed says so. Nothing else changes.
pub proof fn reports_are_written_down(
    r: ReportView,
    s: Script,
    t: Script,
    o: OrchestratorView,
    u: Script,
    ts: Seq<char>,
)
    requires
        o.stats.actions < u64::MAX,
        r.eta_minutes <= i64::MAX,
        orch_tools::require_caller_orchestrator_run(s) == (
            t,
            Some(Ok::<OrchestratorView, Seq<char>>(o)),
        ),
        orch_tools::now_run(t) == (u, Some(ts)),
        time::minutes_fit(ts, r.eta_minutes as int),
    ensures
        saved_last(
            orch_tools::report_leased_run(r, s),
            OrchestratorView {
                goal_status: GoalStatusView {
                    state: r.state,
                    note: r.note,
                    percent: r.percent,
                    updated_at: ts,
                    eta: Some(
                        EtaView {
                            minutes_remaining: r.eta_minutes,
                            projected_at: time::later_text(ts, r.eta_minutes as int),
                            updated_at: ts,
                        },
                    ),
                },
                eta_history: records::newest(
                    o.eta_history.push(
                        JsonView::Object(
                            map![
                                "ts"@ => JsonView::Text(ts),
                                "minutes_remaining"@ => json::uint_view(r.eta_minutes),
                                "percent"@ => match r.percent {
                                    Some(p) => json::uint_view(p as u64),
                                    None => JsonView::Null,
                                }
                            ],
                        ),
                    ),
                    50,
                ),
                stats: StatsView { actions: (o.stats.actions + 1) as u64, ..o.stats },
                log: fire_laws::with_line(
                    o.log,
                    ts,
                    "goal_update"@,
                    orch_tools::report_text(r),
                ),
                ..o
            },
            u,
            told(
                map![
                    "ok"@ => JsonView::Bool(true),
                    "state"@ => JsonView::Text(r.state),
                    "eta_minutes"@ => json::uint_view(r.eta_minutes)
                ],
            ),
        ),
{
}

// ── orchestrator_report, and every other call ─────────────────────────

/// A summary becomes a line in the feed of the calling brain, under the lease.
pub proof fn summaries_are_written_down(
    args: JsonView,
    summary: Seq<char>,
    s: Script,
    t: Script,
    o: OrchestratorView,
    u: Script,
    ts: Seq<char>,
)
    requires
        o.stats.actions < u64::MAX,
    ensures
        ({
            let run = orch_tools::orchestrator_report_run(args, s);
            &&& argument(args, "summary"@) is None ==> run == (s, missing("summary"@))
            &&& argument(args, "summary"@) == Some(summary) && edit_laws::taken(s) ==> run == (
                edit_laws::leased(s),
                busy(),
            )
            &&& argument(args, "summary"@) == Some(summary) && edit_laws::free(s)
                ==> edit_laws::gives_back(
                run,
                orch_tools::summary_leased_run(summary, edit_laws::leased(s)),
            )
        }),
        orch_tools::require_caller_orchestrator_run(s) == (
            t,
            Some(Ok::<OrchestratorView, Seq<char>>(o)),
        ) && orch_tools::now_run(t) == (u, Some(ts)) ==> saved_last(
            orch_tools::summary_leased_run(summary, s),
            OrchestratorView {
                stats: StatsView { actions: (o.stats.actions + 1) as u64, ..o.stats },
                log: fire_laws::with_line(o.log, ts, "report"@, summary),
                ..o
            },
            u,
            told(map!["ok"@ => JsonView::Bool(true)]),
        ),
{
    control_laws::arguments_are_taken_as_given(args, "summary"@);
}

/// A tool call is attributed to the calling brain: one action, and a line that
/// names the tool and its target. Where another has the lease, and where the
/// caller is no brain, nothing is written.
pub proof fn calls_are_attributed(
    tool: Seq<char>,
    target: Option<Seq<char>>,
    s: Script,
    t: Script,
    o: OrchestratorView,
    u: Script,
    ts: Seq<char>,
    e: Seq<char>,
)
    requires
        o.stats.actions < u64::MAX,
    ensures
        edit_laws::taken(s) ==> orch_tools::attribute_action_run(tool, target, s) == (
            edit_laws::leased(s),
            Some(()),
        ),
        edit_laws::free(s) ==> {
            let run = orch_tools::attribute_action_run(tool, target, s);
            let inner = orch_tools::attribute_leased_run(tool, target, edit_laws::leased(s));
            &&& inner.1 is None ==> run == inner
            &&& inner.1 is Some ==> run.0.asked == inner.0.asked.push(RequestView::ReleaseLease)
            &&& inner.1 is Some && inner.0.left.len() > 0 && inner.0.left[0] == ReplyView::Released
                ==> run.1 == Some(())
        },
        orch_tools::caller_orchestrator_run(s) == (
            t,
            Some(Ok::<Option<OrchestratorView>, Seq<char>>(None)),
        ) || orch_tools::caller_orchestrator_run(s) == (
            t,
            Some(Err::<Option<OrchestratorView>, Seq<char>>(e)),
        ) ==> orch_tools::attribute_leased_run(tool, target, s) == (t, Some(())),
        orch_tools::caller_orchestrator_run(s) == (
            t,
            Some(Ok::<Option<OrchestratorView>, Seq<char>>(Some(o))),
        ) && orch_tools::now_run(t) == (u, Some(ts)) ==> {
            let run = orch_tools::attribute_leased_run(tool, target, s);
            let (v, saved) = state::save_orchestrator_run(
                OrchestratorView {
                    stats: StatsView { actions: (o.stats.actions + 1) as u64, ..o.stats },
                    log: fire_laws::with_line(
                        o.log,
                        ts,
                        "tool_call"@,
                        match target {
                            Some(target) => tool + " → "@ + target,
                            None => tool,
                        },
                    ),
                    ..o
                },
                u,
            );
            &&& run.0 == v
            &&& saved is Some ==> run.1 == Some(())
            &&& saved is None ==> run.1 is None
        },
{
}

} // verus!

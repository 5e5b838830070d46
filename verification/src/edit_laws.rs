//! What the page sets in a record, and what its routes answer.

use vstd::prelude::*;

use crate::control_laws;
use crate::engine;
use crate::host::{HostFn, ReplyView, RequestView, Script};
use crate::json::{self, JsonView};
use crate::page;
use crate::records::{self, ActivityEventView, OrchestratorView};
use crate::state;
use crate::store_laws;
use crate::text;

verus! {

// ── Fields ────────────────────────────────────────────────────────────

/// An edit is refused exactly where it names a blank name or a blank folder,
/// and says which.
pub proof fn blank_texts_are_refused(o: OrchestratorView, body: JsonView)
    ensures
        ({
            let no_name = body.get("name"@) matches Some(JsonView::Text(v)) && text::trim(v).len()
                == 0;
            let no_folder = body.get("folder_id"@) matches Some(JsonView::Text(v)) && text::trim(
                v,
            ).len() == 0;
            page::edited(o, body).1 == if no_name {
                Err("name must not be blank"@)
            } else if no_folder {
                Err("folder_id must not be blank"@)
            } else {
                Ok::<(), Seq<char>>(())
            }
        }),
{
    if let Some(JsonView::Text(v)) = body.get("name"@) {
        text::blank_iff_trimmed_empty(v);
    }
    if let Some(JsonView::Text(v)) = body.get("folder_id"@) {
        text::blank_iff_trimmed_empty(v);
    }
}

/// An accepted edit sets the name and the folder to the trimmed texts, and goal
/// and prompt to the texts as they stand; what is no text, or not there,
/// leaves the field as it was.
pub proof fn texts_are_set(o: OrchestratorView, body: JsonView, v: Seq<char>)
    requires
        page::edited(o, body).1 is Ok,
    ensures
        ({
            let e = page::edited(o, body).0;
            &&& body.get("prompt"@) == Some(JsonView::Text(v)) ==> e.prompt == v
            &&& !(body.get("prompt"@) matches Some(JsonView::Text(_))) ==> e.prompt == o.prompt
            &&& body.get("goal"@) == Some(JsonView::Text(v)) ==> e.goal == v
            &&& !(body.get("goal"@) matches Some(JsonView::Text(_))) ==> e.goal == o.goal
            &&& body.get("name"@) == Some(JsonView::Text(v)) ==> e.name == text::trim(v)
            &&& !(body.get("name"@) matches Some(JsonView::Text(_))) ==> e.name == o.name
            &&& body.get("folder_id"@) == Some(JsonView::Text(v)) ==> e.folder_id == text::trim(v)
            &&& !(body.get("folder_id"@) matches Some(JsonView::Text(_))) ==> e.folder_id
                == o.folder_id
        }),
{
}

/// An accepted edit sets the model; an empty text, and anything that is no
/// text, takes it away.
pub proof fn models_are_set(o: OrchestratorView, body: JsonView, v: Seq<char>, doc: JsonView)
    requires
        page::edited(o, body).1 is Ok,
    ensures
        ({
            let e = page::edited(o, body).0;
            &&& body.get("model"@) is None ==> e.model == o.model
            &&& body.get("model"@) == Some(JsonView::Text(v)) && v.len() > 0 ==> e.model == Some(v)
            &&& body.get("model"@) == Some(JsonView::Text(v)) && v.len() == 0 ==> e.model is None
            &&& body.get("model"@) == Some(doc) && !(doc is Text) ==> e.model is None
        }),
{
}

/// An accepted edit switches the record on or off, and forgets the failures
/// where it switches it on.
pub proof fn switches_are_set(o: OrchestratorView, body: JsonView, b: bool)
    requires
        page::edited(o, body).1 is Ok,
    ensures
        ({
            let e = page::edited(o, body).0;
            let on = body.get("enabled"@) == Some(JsonView::Bool(true));
            &&& body.get("enabled"@) == Some(JsonView::Bool(b)) ==> e.enabled == b
            &&& !(body.get("enabled"@) matches Some(JsonView::Bool(_))) ==> e.enabled == o.enabled
            &&& on ==> e.consecutive_failures == 0 && e.error is None
            &&& !on ==> e.consecutive_failures == o.consecutive_failures && e.error == o.error
        }),
{
}

/// An accepted edit sets the schedule and lets its slot be found anew; zero,
/// and anything that is no number from zero up, takes the schedule away.
pub proof fn schedules_are_set(o: OrchestratorView, body: JsonView, n: u64, doc: JsonView)
    requires
        page::edited(o, body).1 is Ok,
    ensures
        ({
            let e = page::edited(o, body).0;
            &&& body.get("every_minutes"@) is None ==> e.schedule == o.schedule
                && e.stats.next_due_at == o.stats.next_due_at
            &&& body.get("every_minutes"@) is Some ==> e.stats.next_due_at is None
            &&& body.get("every_minutes"@) == Some(json::uint_view(n)) && n > 0
                ==> e.schedule.every_minutes == Some(n)
            &&& body.get("every_minutes"@) == Some(json::uint_view(0))
                ==> e.schedule.every_minutes is None
            &&& body.get("every_minutes"@) == Some(doc) && doc.as_u64() is None
                ==> e.schedule.every_minutes is None
        }),
{
}

/// An accepted edit sets the watchdog, the cooldown and the caps. A cap on fires
/// is at least one and at most what fits; a cap on sessions is taken modulo what
/// fits.
pub proof fn limits_are_set(o: OrchestratorView, body: JsonView, n: u64)
    requires
        page::edited(o, body).1 is Ok,
    ensures
        ({
            let e = page::edited(o, body).0;
            let given = Some(json::uint_view(n));
            &&& body.get("watchdog_minutes"@) == given ==> e.watchdog_minutes == n
            &&& body.u64_at("watchdog_minutes"@) is None ==> e.watchdog_minutes
                == o.watchdog_minutes
            &&& body.get("cooldown_secs"@) == given ==> e.cooldown_secs == n
            &&& body.u64_at("cooldown_secs"@) is None ==> e.cooldown_secs == o.cooldown_secs
            &&& body.get("max_fires_per_hour"@) == given && 0 < n <= u32::MAX
                ==> e.caps.max_fires_per_hour == n
            &&& body.get("max_fires_per_hour"@) == given && n == 0 ==> e.caps.max_fires_per_hour
                == 1
            &&& body.get("max_fires_per_hour"@) == given && n > u32::MAX
                ==> e.caps.max_fires_per_hour == u32::MAX
            &&& body.u64_at("max_fires_per_hour"@) is None ==> e.caps.max_fires_per_hour
                == o.caps.max_fires_per_hour
            &&& body.get("max_sessions_created"@) == given ==> e.caps.max_sessions_created == n
                % 0x1_0000_0000
            &&& body.u64_at("max_sessions_created"@) is None ==> e.caps.max_sessions_created
                == o.caps.max_sessions_created
        }),
{
    assert(n as u32 == n % 0x1_0000_0000) by (bit_vector);
}

/// An accepted edit sets the watch lists to the texts of the arrays, in order,
/// and the switch that has created sessions watched.
pub proof fn watch_lists_are_set(
    o: OrchestratorView,
    body: JsonView,
    items: Seq<JsonView>,
    b: bool,
)
    requires
        page::edited(o, body).1 is Ok,
    ensures
        ({
            let e = page::edited(o, body).0.watch;
            let given = Some(JsonView::Array(items));
            &&& body.get("watch_sessions"@) == given ==> e.sessions == page::texts_in(items)
            &&& !(body.get("watch_sessions"@) matches Some(JsonView::Array(_))) ==> e.sessions
                == o.watch.sessions
            &&& body.get("watch_folders"@) == given ==> e.folders == page::texts_in(items)
            &&& !(body.get("watch_folders"@) matches Some(JsonView::Array(_))) ==> e.folders
                == o.watch.folders
            &&& body.get("auto_watch_created"@) == Some(JsonView::Bool(b))
                ==> e.auto_watch_created == b
            &&& !(body.get("auto_watch_created"@) matches Some(JsonView::Bool(_)))
                ==> e.auto_watch_created == o.watch.auto_watch_created
        }),
{
}

/// The texts among items are those of the first items and then those of the
/// others; a text is one of them, anything else is not.
pub proof fn texts_are_picked(a: Seq<JsonView>, b: Seq<JsonView>, v: Seq<char>, doc: JsonView)
    ensures
        page::texts_in(a + b) == page::texts_in(a) + page::texts_in(b),
        page::texts_in(seq![JsonView::Text(v)]) == seq![v],
        !(doc is Text) ==> page::texts_in(seq![doc]) == Seq::<Seq<char>>::empty(),
        page::texts_in(Seq::empty()) == Seq::<Seq<char>>::empty(),
    decreases b.len(),
{
    reveal_with_fuel(page::texts_in, 2);
    assert(seq![JsonView::Text(v)].drop_last() =~= Seq::empty());
    assert(seq![doc].drop_last() =~= Seq::empty());
    if b.len() == 0 {
        assert(a + b =~= a);
    } else {
        texts_are_picked(a, b.drop_last(), v, doc);
        assert((a + b).drop_last() =~= a + b.drop_last());
        assert((a + b).last() == b.last());
    }
}

/// An accepted edit sets the standards that it names, and leaves the others.
pub proof fn standards_are_set(
    o: OrchestratorView,
    body: JsonView,
    doc: JsonView,
    b: bool,
    v: Seq<char>,
)
    requires
        page::edited(o, body).1 is Ok,
    ensures
        body.get("standards"@) is None ==> page::edited(o, body).0.standards == o.standards,
        body.get("standards"@) == Some(doc) ==> {
            let e = page::edited(o, body).0.standards;
            &&& doc.get("dev"@) == Some(JsonView::Bool(b)) ==> e.dev == b
            &&& !(doc.get("dev"@) matches Some(JsonView::Bool(_))) ==> e.dev == o.standards.dev
            &&& doc.get("testing"@) == Some(JsonView::Bool(b)) ==> e.testing == b
            &&& !(doc.get("testing"@) matches Some(JsonView::Bool(_))) ==> e.testing
                == o.standards.testing
            &&& doc.get("ux"@) == Some(JsonView::Bool(b)) ==> e.ux == b
            &&& !(doc.get("ux"@) matches Some(JsonView::Bool(_))) ==> e.ux == o.standards.ux
            &&& doc.get("custom"@) == Some(JsonView::Text(v)) ==> e.custom == v
            &&& !(doc.get("custom"@) matches Some(JsonView::Text(_))) ==> e.custom
                == o.standards.custom
        },
{
}

/// An edit leaves everything that the page does not set.
pub proof fn edits_leave_the_rest(o: OrchestratorView, body: JsonView)
    ensures
        ({
            let e = page::edited(o, body).0;
            &&& e.id == o.id && e.paused == o.paused && e.created_at == o.created_at
            &&& e.goal_status == o.goal_status && e.eta_history == o.eta_history
            &&& e.session_id == o.session_id && e.pending_triggers == o.pending_triggers
            &&& e.hats == o.hats && e.created_sessions == o.created_sessions && e.log == o.log
            &&& e.last_rendered_prompt == o.last_rendered_prompt
            &&& e.stats.actions == o.stats.actions && e.stats.fires == o.stats.fires
            &&& e.stats.last_fired_at == o.stats.last_fired_at
            &&& e.stats.sessions_created == o.stats.sessions_created
            &&& e.stats.fire_times == o.stats.fire_times
        }),
{
}

// ── Responses ─────────────────────────────────────────────────────────

/// The response with a document: the status, the type, and the text of the
/// document.
pub open spec fn answered(status: u64, body: JsonView) -> JsonView {
    JsonView::Object(
        map![
            "status"@ => json::uint_view(status),
            "headers"@ => JsonView::Object(
                map!["content-type"@ => JsonView::Text("application/json"@)],
            ),
            "body"@ => JsonView::Text(json::json_text(body))
        ],
    )
}

/// The response of a route that went well, with a document.
pub open spec fn served(fields: Map<Seq<char>, JsonView>) -> Option<Result<JsonView, Seq<char>>> {
    Some(Ok(answered(200, JsonView::Object(fields))))
}

/// The refusal of a route.
pub open spec fn refused(e: Seq<char>) -> Option<Result<JsonView, Seq<char>>> {
    Some(Err(e))
}

/// A document is answered as JSON, a refusal as a document with the reason.
pub proof fn responses_have_a_shape(status: u64, body: JsonView, why: Seq<char>)
    ensures
        page::json_response(status, body) == answered(status, body),
        page::ok_json(body) == answered(200, body),
        page::err_json(status, why) == answered(
            status,
            JsonView::Object(map!["error"@ => JsonView::Text(why)]),
        ),
{
}

/// The request for the lease.
pub open spec fn leased(s: Script) -> Script {
    store_laws::after(s, RequestView::AcquireLease)
}

/// The lease is free for the caller.
pub open spec fn free(s: Script) -> bool {
    s.left.len() > 0 && s.left[0] == ReplyView::Lease(true)
}

/// The lease is taken by another.
pub open spec fn taken(s: Script) -> bool {
    s.left.len() > 0 && s.left[0] == ReplyView::Lease(false)
}

/// What was done under the lease, with the lease given back.
pub open spec fn gives_back(
    run: (Script, Option<Result<JsonView, Seq<char>>>),
    inner: (Script, Option<Result<JsonView, Seq<char>>>),
) -> bool {
    &&& inner.1 is None ==> run == inner
    &&& inner.1 is Some ==> run.0.asked == inner.0.asked.push(RequestView::ReleaseLease)
    &&& inner.1 is Some && inner.0.left.len() > 0 && inner.0.left[0] == ReplyView::Released
        ==> run == (store_laws::after(inner.0, RequestView::ReleaseLease), inner.1)
    &&& run.1 is Some ==> run.1 == inner.1
}

/// Edits, deletions and pauses work under the lease; where another has it they
/// are refused, and nothing else is asked.
pub proof fn changes_take_the_lease(id: Seq<char>, body: JsonView, s: Script)
    ensures
        free(s) ==> {
            &&& gives_back(
                page::update_route_run(id, body, s),
                page::update_leased_run(id, body, leased(s)),
            )
            &&& gives_back(
                page::delete_route_run(id, s),
                page::delete_leased_run(id, leased(s)),
            )
            &&& gives_back(
                page::pause_route_run(id, body, s),
                page::pause_leased_run(id, body, leased(s)),
            )
        },
        taken(s) ==> {
            let busy = (
                leased(s),
                refused("the orchestrator engine is busy — try again in a moment"@),
            );
            &&& page::update_route_run(id, body, s) == busy
            &&& page::delete_route_run(id, s) == busy
            &&& page::pause_route_run(id, body, s) == busy
        },
{
}

/// An edit of the record with the id saves the edited record. Where it has a
/// brain, the brain is told its standing prompt, and what it says to that does
/// not matter.
pub proof fn edits_are_saved(
    id: Seq<char>,
    body: JsonView,
    s: Script,
    u: Script,
    o: OrchestratorView,
    e: OrchestratorView,
    v: Script,
    brain: Seq<char>,
    r: Result<JsonView, Seq<char>>,
)
    requires
        state::load_orchestrator_run(id, s) == (
            u,
            Some(Ok::<Option<OrchestratorView>, Seq<char>>(Some(o))),
        ),
        page::edited(o, body) == (e, Ok::<(), Seq<char>>(())),
    ensures
        state::save_orchestrator_run(e, u) == (v, Some(Ok::<(), Seq<char>>(()))) ==> {
            let tell = store_laws::call_of(
                HostFn::OrchestrateSetPrompt,
                map![
                    "session_id"@ => JsonView::Text(brain),
                    "system_prompt"@ => JsonView::Text(engine::standing(e))
                ],
            );
            let ok = served(map!["ok"@ => JsonView::Bool(true)]);
            &&& e.session_id is None ==> page::update_leased_run(id, body, s) == (v, ok)
            &&& e.session_id == Some(brain) ==> page::update_leased_run(id, body, s).0.asked
                == v.asked.push(tell)
            &&& e.session_id == Some(brain) && store_laws::next_is(v, r)
                ==> page::update_leased_run(id, body, s) == (store_laws::after(v, tell), ok)
        },
        forall|why: Seq<char>|
            state::save_orchestrator_run(e, u) == (v, Some(Err::<(), Seq<char>>(why)))
                ==> #[trigger] refused(why) == page::update_leased_run(id, body, s).1,
{
}

/// An edit or a pause of a record that does not exist is refused with its id,
/// and a refused edit saves nothing.
pub proof fn refused_edits_save_nothing(
    id: Seq<char>,
    body: JsonView,
    s: Script,
    u: Script,
    o: OrchestratorView,
    why: Seq<char>,
)
    ensures
        state::load_orchestrator_run(id, s) == (
            u,
            Some(Ok::<Option<OrchestratorView>, Seq<char>>(None)),
        ) ==> {
            let gone = (u, refused("orchestrator not found: "@ + id));
            &&& page::update_leased_run(id, body, s) == gone
            &&& page::pause_leased_run(id, body, s) == gone
        },
        state::load_orchestrator_run(id, s) == (
            u,
            Some(Err::<Option<OrchestratorView>, Seq<char>>(why)),
        ) ==> {
            &&& page::update_leased_run(id, body, s) == (u, refused(why))
            &&& page::pause_leased_run(id, body, s) == (u, refused(why))
        },
        state::load_orchestrator_run(id, s) == (
            u,
            Some(Ok::<Option<OrchestratorView>, Seq<char>>(Some(o))),
        ) && page::edited(o, body).1 == Err::<(), Seq<char>>(why) ==> page::update_leased_run(
            id,
            body,
            s,
        ) == (u, refused(why)),
{
}

/// A deletion takes the document with the id out of the store, and is answered
/// as done whatever the store says to it.
pub proof fn deletions_take_the_record(
    id: Seq<char>,
    s: Script,
    r: Result<JsonView, Seq<char>>,
)
    requires
        store_laws::next_is(s, r),
    ensures
        page::delete_leased_run(id, s) == (
            store_laws::after(
                s,
                store_laws::call_of(
                    HostFn::StoreDelete,
                    map![
                        "collection"@ => JsonView::Text("orchestrators"@),
                        "key"@ => JsonView::Text(id)
                    ],
                ),
            ),
            served(map!["ok"@ => JsonView::Bool(true)]),
        ),
{
}

/// A pause sets the switch as the body says, else the other way round, changes
/// nothing else of the record, saves it and tells how it stands.
pub proof fn pauses_are_saved(
    id: Seq<char>,
    body: JsonView,
    s: Script,
    u: Script,
    o: OrchestratorView,
    v: Script,
    paused: bool,
)
    requires
        state::load_orchestrator_run(id, s) == (
            u,
            Some(Ok::<Option<OrchestratorView>, Seq<char>>(Some(o))),
        ),
        (body.get("paused"@) matches Some(JsonView::Bool(b)) ==> b == paused),
        !(body.get("paused"@) matches Some(JsonView::Bool(_))) ==> paused == !o.paused,
    ensures
        ({
            let (t, saved) = state::save_orchestrator_run(OrchestratorView { paused, ..o }, u);
            let run = page::pause_leased_run(id, body, s);
            &&& run.0 == t
            &&& saved matches Some(Ok(_)) ==> run.1 == served(
                map!["ok"@ => JsonView::Bool(true), "paused"@ => JsonView::Bool(paused)],
            )
            &&& saved matches Some(Err(why)) ==> run.1 == refused(why)
            &&& saved is None ==> run.1 is None
        }),
{
}

/// The kill switch is set as the body says, and on where it does not say.
pub proof fn kill_switch_is_set(
    body: JsonView,
    paused: bool,
    s: Script,
    r: Result<JsonView, Seq<char>>,
)
    requires
        (body.get("paused"@) matches Some(JsonView::Bool(b)) ==> b == paused),
        !(body.get("paused"@) matches Some(JsonView::Bool(_))) ==> paused,
        store_laws::next_is(s, r),
    ensures
        page::pause_all_run(body, s) == (
            store_laws::after(
                s,
                store_laws::call_of(
                    HostFn::StorePut,
                    map![
                        "collection"@ => JsonView::Text("engine"@),
                        "key"@ => JsonView::Text("pause_all"@),
                        "data"@ => JsonView::Object(map!["paused"@ => JsonView::Bool(paused)])
                    ],
                ),
            ),
            served(map!["ok"@ => JsonView::Bool(true), "paused"@ => JsonView::Bool(paused)]),
        ),
{
}

// ── New records ───────────────────────────────────────────────────────

/// An id is made of the digits of the time and a number.
pub proof fn ids_have_a_shape(now: Seq<char>, n: u64)
    ensures
        page::id_text(now, n) == "orch-"@ + text::digits(now) + "-"@ + text::decimal(n as nat),
{
}

/// A new id takes the next number and the clock, whose time is empty before
/// the first tick.
pub proof fn new_ids_are_made(s: Script, n: u64, out: JsonView)
    requires
        s.left.len() >= 2,
        s.left[0] == ReplyView::Count(n),
        s.left[1] == ReplyView::Host(Ok(out)),
    ensures
        ({
            let (t, id) = page::new_id_run(s);
            &&& t == Script {
                left: s.left.skip(2),
                asked: s.asked.push(RequestView::NextId).push(
                    store_laws::call_of(
                        HostFn::StoreGet,
                        map![
                            "collection"@ => JsonView::Text("engine"@),
                            "key"@ => JsonView::Text("clock"@)
                        ],
                    ),
                ),
            }
            &&& id == Some(
                page::id_text(
                    match out.get("value"@) {
                        Some(doc) => match doc.get("now"@) {
                            Some(JsonView::Text(now)) => now,
                            _ => Seq::empty(),
                        },
                        None => Seq::empty(),
                    },
                    n,
                ),
            )
        }),
{
    control_laws::chained(s.left);
    reveal_strlit("");
    assert(""@ =~= Seq::empty());
}

/// Ids are tried until no record has one.
pub proof fn taken_ids_are_passed_over(
    s: Script,
    t: Script,
    id: Seq<char>,
    u: Script,
    o: OrchestratorView,
    e: Seq<char>,
)
    requires
        page::new_id_run(s) == (t, Some(id)),
    ensures
        state::load_orchestrator_run(id, t) == (
            u,
            Some(Ok::<Option<OrchestratorView>, Seq<char>>(None)),
        ) ==> page::free_id_run(s) == (u, Some(Ok::<Seq<char>, Seq<char>>(id))),
        state::load_orchestrator_run(id, t) == (
            u,
            Some(Ok::<Option<OrchestratorView>, Seq<char>>(Some(o))),
        ) ==> page::free_id_run(s) == page::free_id_run(u),
        state::load_orchestrator_run(id, t) == (
            u,
            Some(Err::<Option<OrchestratorView>, Seq<char>>(e)),
        ) ==> page::free_id_run(s) == (u, Some(Err::<Seq<char>, Seq<char>>(e))),
{
}

/// A new record has the page's fields over the defaults, the time at which it
/// was made, and one line in its feed. Name and folder are required.
pub proof fn new_records_are_edited_defaults(id: Seq<char>, now: Seq<char>, body: JsonView)
    ensures
        ({
            let start = OrchestratorView {
                created_at: now,
                ..records::fresh(id, Seq::empty(), Seq::empty())
            };
            let (o, r) = page::edited(start, body);
            page::created(id, now, body) == match r {
                Err(e) => Err(e),
                Ok(_) => if o.name == Seq::<char>::empty() {
                    Err("name is required"@)
                } else if o.folder_id == Seq::<char>::empty() {
                    Err("folder_id is required"@)
                } else {
                    Ok::<OrchestratorView, Seq<char>>(
                        OrchestratorView {
                            log: seq![
                                ActivityEventView {
                                    ts: now,
                                    kind: "report"@,
                                    detail: "orchestrator created"@,
                                },
                            ],
                            ..o
                        },
                    )
                },
            }
        }),
{
    let start = OrchestratorView {
        created_at: now,
        ..records::fresh(id, Seq::empty(), Seq::empty())
    };
    let o = page::edited(start, body).0;
    let line = ActivityEventView { ts: now, kind: "report"@, detail: "orchestrator created"@ };
    assert(o.log =~= Seq::empty());
    assert(o.log.push(line) =~= seq![line]);
    assert(o.name.len() == 0 ==> o.name =~= Seq::empty());
    assert(o.folder_id.len() == 0 ==> o.folder_id =~= Seq::empty());
}

/// A creation finds a free id, saves the new record under it, and answers with
/// the id; what is refused saves nothing.
pub proof fn creations_are_saved(
    now: Seq<char>,
    body: JsonView,
    s: Script,
    t: Script,
    id: Seq<char>,
    o: OrchestratorView,
    e: Seq<char>,
)
    ensures
        page::free_id_run(s) == (t, Some(Err::<Seq<char>, Seq<char>>(e)))
            ==> page::create_leased_run(now, body, s) == (t, refused(e)),
        page::free_id_run(s) == (t, Some(Ok::<Seq<char>, Seq<char>>(id))) ==> {
            let run = page::create_leased_run(now, body, s);
            let (u, saved) = state::save_orchestrator_run(o, t);
            &&& page::created(id, now, body) == Err::<OrchestratorView, Seq<char>>(e) ==> run == (
                t,
                refused(e),
            )
            &&& page::created(id, now, body) == Ok::<OrchestratorView, Seq<char>>(o) ==> {
                &&& run.0 == u
                &&& saved matches Some(Ok(_)) ==> run.1 == served(
                    map!["ok"@ => JsonView::Bool(true), "id"@ => JsonView::Text(id)],
                )
                &&& saved matches Some(Err(why)) ==> run.1 == refused(why)
                &&& saved is None ==> run.1 is None
            }
        },
{
}

/// A creation works at the time of the clock, which is the epoch before the
/// first tick, and under the lease.
pub proof fn creations_take_the_lease(body: JsonView, s: Script, out: JsonView)
    requires
        store_laws::next_is(s, Ok(out)),
    ensures
        ({
            let now = match out.get("value"@) {
                Some(doc) => match doc.get("now"@) {
                    Some(JsonView::Text(now)) => now,
                    _ => "1970-01-01T00:00:00Z"@,
                },
                None => "1970-01-01T00:00:00Z"@,
            };
            let t = store_laws::after(
                s,
                store_laws::call_of(
                    HostFn::StoreGet,
                    map![
                        "collection"@ => JsonView::Text("engine"@),
                        "key"@ => JsonView::Text("clock"@)
                    ],
                ),
            );
            let run = page::create_route_run(body, s);
            &&& free(t) ==> gives_back(run, page::create_leased_run(now, body, leased(t)))
            &&& taken(t) ==> run == (
                leased(t),
                refused("the orchestrator engine is busy — try again in a moment"@),
            )
        }),
{
}

// ── The list and the dropdowns ────────────────────────────────────────

/// A record is shown as it is stored, with one more field that tells whether
/// its brain is busy.
pub proof fn records_are_shown(o: OrchestratorView, busy: bool, key: Seq<char>)
    ensures
        page::shown(o, busy).get("brain_busy"@) == Some(JsonView::Bool(busy)),
        key != "brain_busy"@ ==> page::shown(o, busy).get(key) == o.to_json().get(key),
{
}

/// A brain that does not exist is not busy, nor is any before the first tick.
pub proof fn busy_brains_are_shown(
    o: OrchestratorView,
    now: Seq<char>,
    brain: Seq<char>,
    out: JsonView,
    s: Script,
)
    ensures
        o.session_id is None || now.len() == 0 ==> page::brain_busy_run(o, now, s) == (
            s,
            Some(false),
        ),
        o.session_id == Some(brain) && now.len() > 0 && store_laws::next_is(s, Ok(out))
            ==> page::brain_busy_run(o, now, s) == (
            store_laws::after(
                s,
                store_laws::call_of(
                    HostFn::StoreGet,
                    map![
                        "collection"@ => JsonView::Text("busy"@),
                        "key"@ => JsonView::Text(brain)
                    ],
                ),
            ),
            Some(store_laws::marks_busy(out, now)),
        ),
{
}

/// Every record is shown, in order.
pub proof fn every_record_is_shown(
    o: OrchestratorView,
    rest: Seq<OrchestratorView>,
    now: Seq<char>,
    done: Seq<JsonView>,
    s: Script,
    t: Script,
    busy: bool,
)
    ensures
        page::show_all_run(Seq::empty(), now, done, s) == (s, Some(done)),
        page::brain_busy_run(o, now, s) == (t, Some(busy)) ==> page::show_all_run(
            seq![o] + rest,
            now,
            done,
            s,
        ) == page::show_all_run(rest, now, done.push(page::shown(o, busy)), t),
{
    assert((seq![o] + rest).skip(1) =~= rest);
}

/// The list holds every record as shown, the kill switch and the clock.
pub proof fn lists_hold_records_switch_and_clock(
    s: Script,
    out: JsonView,
    now: Seq<char>,
    t: Script,
    orchs: Seq<OrchestratorView>,
    u: Script,
    docs: Seq<JsonView>,
    v: Script,
    paused: bool,
)
    requires
        store_laws::next_is(s, Ok(out)),
        now == match out.get("value"@) {
            Some(doc) => match doc.get("now"@) {
                Some(JsonView::Text(now)) => now,
                _ => Seq::empty(),
            },
            None => Seq::empty(),
        },
        state::list_orchestrators_run(
            store_laws::after(
                s,
                store_laws::call_of(
                    HostFn::StoreGet,
                    map![
                        "collection"@ => JsonView::Text("engine"@),
                        "key"@ => JsonView::Text("clock"@)
                    ],
                ),
            ),
        ) == (t, Some(Ok::<Seq<OrchestratorView>, Seq<char>>(orchs))),
        page::show_all_run(orchs, now, Seq::empty(), t) == (u, Some(docs)),
        state::global_paused_run(u) == (v, Some(paused)),
    ensures
        page::list_route_run(s) == (
            v,
            served(
                map![
                    "orchestrators"@ => JsonView::Array(docs),
                    "global_paused"@ => JsonView::Bool(paused),
                    "clock"@ => JsonView::Text(now)
                ],
            ),
        ),
{
    reveal_strlit("");
    assert(""@ =~= Seq::empty());
}

/// What an answer gives under a key; nothing is an empty list.
pub open spec fn offered(r: Result<JsonView, Seq<char>>, key: Seq<char>) -> JsonView {
    match r {
        Ok(doc) => match doc.get(key) {
            Some(items) => items,
            None => JsonView::Array(Seq::empty()),
        },
        Err(_) => JsonView::Array(Seq::empty()),
    }
}

/// The dropdowns hold what the host lists of sessions, folders and models, each
/// under its name.
pub proof fn dropdowns_hold_what_the_host_lists(
    s: Script,
    sessions: Result<JsonView, Seq<char>>,
    folders: Result<JsonView, Seq<char>>,
    models: Result<JsonView, Seq<char>>,
)
    requires
        s.left.len() >= 3,
        s.left[0] == ReplyView::Host(sessions),
        s.left[1] == ReplyView::Host(folders),
        s.left[2] == ReplyView::Host(models),
    ensures
        page::pickers_route_run(s) == (
            Script {
                left: s.left.skip(3),
                asked: s.asked.push(
                    store_laws::call_of(
                        HostFn::ListSessions,
                        map!["query"@ => JsonView::Text(""@)],
                    ),
                ).push(store_laws::call_of(HostFn::ListFolders, Map::empty())).push(
                    store_laws::call_of(HostFn::ListModels, Map::empty()),
                ),
            },
            served(
                map![
                    "sessions"@ => offered(sessions, "sessions"@),
                    "folders"@ => offered(folders, "folders"@),
                    "models"@ => offered(models, "models"@)
                ],
            ),
        ),
{
    control_laws::chained(s.left);
}

// ── Routes ────────────────────────────────────────────────────────────

/// The routes without an id.
pub proof fn plain_routes_lead_to_their_actions(body: JsonView, s: Script)
    ensures
        page::route_run("GET"@, seq!["orchestrators"@], body, s) == page::list_route_run(s),
        page::route_run("GET"@, seq!["pickers"@], body, s) == page::pickers_route_run(s),
        page::route_run("POST"@, seq!["orchestrators"@], body, s) == page::create_route_run(
            body,
            s,
        ),
        page::route_run("POST"@, seq!["pause-all"@], body, s) == page::pause_all_run(body, s),
{
    reveal_strlit("GET");
    reveal_strlit("POST");
    reveal_strlit("orchestrators");
    reveal_strlit("pickers");
    reveal_strlit("pause-all");
    assert("GET"@.len() == 3 && "POST"@.len() == 4);
    assert("orchestrators"@.len() == 13 && "pickers"@.len() == 7 && "pause-all"@.len() == 9);
    assert(seq!["orchestrators"@][0] == "orchestrators"@);
    assert(seq!["pickers"@][0] == "pickers"@);
    assert(seq!["pause-all"@][0] == "pause-all"@);
}

/// The result of a manual run or a test fire as a response.
pub open spec fn as_response(
    run: (Script, Option<Result<JsonView, Seq<char>>>),
    inner: (Script, Option<Result<JsonView, Seq<char>>>),
) -> bool {
    &&& run.0 == inner.0
    &&& inner.1 is None ==> run.1 is None
    &&& inner.1 matches Some(Ok(doc)) ==> run.1 == Some(
        Ok::<JsonView, Seq<char>>(answered(200, doc)),
    )
    &&& inner.1 matches Some(Err(e)) ==> run.1 == refused(e)
}

/// The routes of one record.
pub proof fn record_routes_lead_to_their_actions(
    id: Seq<char>,
    verb: Seq<char>,
    body: JsonView,
    s: Script,
)
    ensures
        page::route_run("POST"@, seq!["orchestrators"@, id], body, s) == page::update_route_run(
            id,
            body,
            s,
        ),
        page::route_run("POST"@, seq!["orchestrators"@, id, "delete"@], body, s)
            == page::delete_route_run(id, s),
        page::route_run("POST"@, seq!["orchestrators"@, id, "pause"@], body, s)
            == page::pause_route_run(id, body, s),
        as_response(
            page::route_run("POST"@, seq!["orchestrators"@, id, "run"@], body, s),
            engine::run_now_run(id, s),
        ),
        as_response(
            page::route_run("POST"@, seq!["orchestrators"@, id, "dry-run"@], body, s),
            engine::dry_run_run(id, s),
        ),
        verb != "delete"@ && verb != "run"@ && verb != "dry-run"@ && verb != "pause"@
            ==> page::route_run("POST"@, seq!["orchestrators"@, id, verb], body, s) == (
            s,
            Some(
                Ok::<JsonView, Seq<char>>(
                    answered(
                        404,
                        JsonView::Object(map!["error"@ => JsonView::Text("no such route"@)]),
                    ),
                ),
            ),
        ),
{
    reveal_strlit("GET");
    reveal_strlit("POST");
    reveal_strlit("delete");
    reveal_strlit("run");
    reveal_strlit("dry-run");
    reveal_strlit("pause");
    assert("GET"@.len() == 3 && "POST"@.len() == 4);
    assert("delete"@.len() == 6 && "run"@.len() == 3 && "dry-run"@.len() == 7 && "pause"@.len()
        == 5);
    assert(seq!["orchestrators"@, id].len() == 2);
    assert(seq!["orchestrators"@, id, verb].len() == 3);
    assert(seq!["orchestrators"@, id, "delete"@].len() == 3);
    assert(seq!["orchestrators"@, id, "run"@].len() == 3);
    assert(seq!["orchestrators"@, id, "dry-run"@].len() == 3);
    assert(seq!["orchestrators"@, id, "pause"@].len() == 3);
}

/// A path is cut at its slashes behind the prefix of the routes; any other path
/// names nothing.
pub proof fn paths_are_cut_behind_the_prefix(rest: Seq<char>, path: Seq<char>)
    ensures
        page::route_segments("/api/plugin-ui/session-control"@ + rest) == text::segments(rest),
        (forall|tail: Seq<char>| path != #[trigger] ("/api/plugin-ui/session-control"@ + tail))
            ==> page::route_segments(path) == Seq::<Seq<char>>::empty(),
{
    let p = "/api/plugin-ui/session-control"@;
    assert((p + rest).take(p.len() as int) =~= p);
    assert((p + rest).skip(p.len() as int) =~= rest);
    if text::begins(path, p) {
        assert(path =~= p + path.skip(p.len() as int));
    }
}

/// A refusal of a route becomes a response with the reason.
pub proof fn refusals_are_answered(
    method: Seq<char>,
    path: Seq<char>,
    body: JsonView,
    s: Script,
    t: Script,
    e: Seq<char>,
    doc: JsonView,
)
    ensures
        page::route_run(method, page::route_segments(path), body, s) == (t, refused(e))
            ==> page::serve_route_run(method, path, body, s) == (
            t,
            Some(
                Ok::<JsonView, Seq<char>>(
                    answered(400, JsonView::Object(map!["error"@ => JsonView::Text(e)])),
                ),
            ),
        ),
        page::route_run(method, page::route_segments(path), body, s) == (
            t,
            Some(Ok::<JsonView, Seq<char>>(doc)),
        ) ==> page::serve_route_run(method, path, body, s) == (
            t,
            Some(Ok::<JsonView, Seq<char>>(doc)),
        ),
{
}

/// A request is served by its method in capitals, which is GET where there is
/// none, by its path, and with the document that its body is.
pub proof fn requests_are_taken_apart(
    payload: JsonView,
    method: Seq<char>,
    path: Seq<char>,
    body: Seq<char>,
    doc: JsonView,
    s: Script,
)
    requires
        payload.get("path"@) == Some(JsonView::Text(path)),
    ensures
        payload.get("body"@) == Some(JsonView::Text(body)) && json::json_parse(body) == Ok::<JsonView, Seq<char>>(doc) ==> page::request_body(payload) == doc,
        payload.get("body"@) == Some(JsonView::Text(body)) && json::json_parse(body) is Err
            ==> page::request_body(payload) == JsonView::Null,
        !(payload.get("body"@) matches Some(JsonView::Text(_))) ==> page::request_body(payload)
            == JsonView::Null,
        payload.get("method"@) == Some(JsonView::Text(method)) ==> page::serve_authed_run(
            payload,
            s,
        ) == page::serve_route_run(text::uppercase(method), path, page::request_body(payload), s),
        !(payload.get("method"@) matches Some(JsonView::Text(_))) ==> page::serve_authed_run(
            payload,
            s,
        ) == page::serve_route_run(
            text::uppercase("GET"@),
            path,
            page::request_body(payload),
            s,
        ),
{
}

} // verus!

//! What is asked of the document store, and what its answers mean.

use vstd::prelude::*;

use crate::host::{self, HostFn, ReplyView, RequestView, Script};
use crate::json::{self, JsonView};
use crate::records::{
    self, ActivityEventView, HatView, OrchestratorView, PendingView, StatsView,
};
use crate::state;
use crate::time;

verus! {

// ── Requests and answers ──────────────────────────────────────────────

/// The next answer is that of a host function.
pub open spec fn next_is(s: Script, r: Result<JsonView, Seq<char>>) -> bool {
    s.left.len() > 0 && s.left[0] == ReplyView::Host(r)
}

/// The script once one request was made and answered.
pub open spec fn after(s: Script, q: RequestView) -> Script {
    Script { left: s.left.skip(1), asked: s.asked.push(q) }
}

/// The call of a host function with an object.
pub open spec fn call_of(f: HostFn, fields: Map<Seq<char>, JsonView>) -> RequestView {
    RequestView::Call(f, JsonView::Object(fields))
}

/// A request is written down last and gets the next answer, which is used up;
/// without an answer there is no result.
pub proof fn requests_get_the_next_answer(
    s: Script,
    f: HostFn,
    input: JsonView,
    r: Result<JsonView, Seq<char>>,
    doc: JsonView,
    o: Option<OrchestratorView>,
    n: u64,
    taken: bool,
    why: Seq<char>,
)
    ensures
        s.left.len() == 0 ==> s.call(f, input) == (
            Script { left: s.left, asked: s.asked.push(RequestView::Call(f, input)) },
            None::<Result<JsonView, Seq<char>>>,
        ),
        next_is(s, r) ==> s.call(f, input) == (after(s, RequestView::Call(f, input)), Some(r)),
        s.left.len() > 0 && s.left[0] == ReplyView::Record(o) ==> s.decode(doc) == (
            after(s, RequestView::Decode(doc)),
            Some(o),
        ),
        s.left.len() > 0 && s.left[0] == ReplyView::Count(n) ==> s.count(RequestView::NextToken)
            == (after(s, RequestView::NextToken), Some(n)) && s.count(RequestView::NextId) == (
            after(s, RequestView::NextId),
            Some(n),
        ),
        s.left.len() > 0 && s.left[0] == ReplyView::Lease(taken) ==> s.acquire() == (
            after(s, RequestView::AcquireLease),
            Some(taken),
        ),
        s.left.len() > 0 && s.left[0] == ReplyView::Released ==> s.release() == (
            after(s, RequestView::ReleaseLease),
            Some(()),
        ),
        s.abort(why) == (Script { left: s.left, asked: s.asked.push(RequestView::Abort(why)) }),
{
}

/// An answer of the host is a refusal exactly where its field `error` is a text.
pub proof fn envelopes_carry_errors(v: JsonView, message: Seq<char>)
    ensures
        v.get("error"@) == Some(JsonView::Text(message)) ==> host::opened(v) == Err::<
            JsonView,
            Seq<char>,
        >(message),
        host::opened(v) is Err ==> v.get("error"@) matches Some(JsonView::Text(_)),
        host::opened(v) is Ok ==> host::opened(v) == Ok::<JsonView, Seq<char>>(v),
{
}

// ── Documents ─────────────────────────────────────────────────────────

/// Putting a document asks the store for that, with collection, key and
/// document in their fields; the answer says no more than whether it went well.
pub proof fn documents_are_put(
    collection: Seq<char>,
    key: Seq<char>,
    data: JsonView,
    s: Script,
    v: JsonView,
    e: Seq<char>,
)
    ensures
        ({
            let q = call_of(
                HostFn::StorePut,
                map![
                    "collection"@ => JsonView::Text(collection),
                    "key"@ => JsonView::Text(key),
                    "data"@ => data
                ],
            );
            &&& state::store_put_run(collection, key, data, s).0.asked == s.asked.push(q)
            &&& next_is(s, Ok(v)) ==> state::store_put_run(collection, key, data, s) == (
                after(s, q),
                Some(Ok::<(), Seq<char>>(())),
            )
            &&& next_is(s, Err(e)) ==> state::store_put_run(collection, key, data, s) == (
                after(s, q),
                Some(Err::<(), Seq<char>>(e)),
            )
        }),
{
}

/// Getting a document asks for it by collection and key; it is the field
/// `value` of the answer, and there is none where that is missing or null.
pub proof fn documents_are_got(
    collection: Seq<char>,
    key: Seq<char>,
    s: Script,
    out: JsonView,
    doc: JsonView,
    e: Seq<char>,
)
    ensures
        ({
            let q = call_of(
                HostFn::StoreGet,
                map!["collection"@ => JsonView::Text(collection), "key"@ => JsonView::Text(key)],
            );
            let run = state::store_get_run(collection, key, s);
            &&& run.0.asked == s.asked.push(q)
            &&& next_is(s, Ok(out)) && out.get("value"@) == Some(doc) && doc != JsonView::Null
                ==> run == (after(s, q), Some(Ok::<Option<JsonView>, Seq<char>>(Some(doc))))
            &&& next_is(s, Ok(out)) && (out.get("value"@) is None || out.get("value"@) == Some(
                JsonView::Null,
            )) ==> run == (after(s, q), Some(Ok::<Option<JsonView>, Seq<char>>(None)))
            &&& next_is(s, Err(e)) ==> run == (
                after(s, q),
                Some(Err::<Option<JsonView>, Seq<char>>(e)),
            )
        }),
{
}

/// Deleting a document asks for that by collection and key, and never fails.
pub proof fn documents_are_deleted(
    collection: Seq<char>,
    key: Seq<char>,
    s: Script,
    r: Result<JsonView, Seq<char>>,
)
    ensures
        ({
            let q = call_of(
                HostFn::StoreDelete,
                map!["collection"@ => JsonView::Text(collection), "key"@ => JsonView::Text(key)],
            );
            &&& state::store_delete_run(collection, key, s).0.asked == s.asked.push(q)
            &&& next_is(s, r) ==> state::store_delete_run(collection, key, s) == (
                after(s, q),
                Some(Ok::<(), Seq<char>>(())),
            )
        }),
{
}

/// The entries of a listing are those of its parts, in order. An item is an
/// entry where it has a text under `key` and anything under `value`.
pub proof fn entries_are_picked(a: Seq<JsonView>, b: Seq<JsonView>, item: JsonView)
    ensures
        state::entries(a + b) == state::entries(a) + state::entries(b),
        item.get("key"@) matches Some(JsonView::Text(key)) ==> (item.get("value"@) matches Some(
            value,
        ) ==> state::entries(seq![item]) == seq![(key, value)]),
        !(item.get("key"@) matches Some(JsonView::Text(_))) || item.get("value"@) is None
            ==> state::entries(seq![item]) == Seq::<(Seq<char>, JsonView)>::empty(),
    decreases b.len(),
{
    assert(seq![item].drop_last() =~= Seq::empty());
    assert(state::entries(seq![item].drop_last()) =~= Seq::empty());
    assert(state::entries(seq![item].drop_last()).push((item.text_at("key"@)->0, item.get("value"@)->0))
        =~= seq![(item.text_at("key"@)->0, item.get("value"@)->0)]);
    if b.len() > 0 {
        entries_are_picked(a, b.drop_last(), item);
        assert((a + b).drop_last() =~= a + b.drop_last());
        assert((a + b).last() == b.last());
        assert(state::entries(a + b) =~= state::entries(a) + state::entries(b));
    } else {
        assert(a + b =~= a);
        assert(state::entries(a) + state::entries(b) =~= state::entries(a));
    }
}

/// Listing a collection asks for it by name; the entries are those of the
/// array `items` of the answer.
pub proof fn collections_are_listed(
    collection: Seq<char>,
    s: Script,
    out: JsonView,
    items: Seq<JsonView>,
    e: Seq<char>,
)
    ensures
        ({
            let q = call_of(
                HostFn::StoreList,
                map!["collection"@ => JsonView::Text(collection)],
            );
            let run = state::store_list_run(collection, s);
            &&& run.0.asked == s.asked.push(q)
            &&& next_is(s, Ok(out)) && out.get("items"@) == Some(JsonView::Array(items)) ==> run
                == (after(s, q), Some(Ok::<Seq<(Seq<char>, JsonView)>, Seq<char>>(state::entries(items))))
            &&& next_is(s, Ok(out)) && !(out.get("items"@) matches Some(JsonView::Array(_)))
                ==> run == (
                after(s, q),
                Some(Ok::<Seq<(Seq<char>, JsonView)>, Seq<char>>(Seq::empty())),
            )
            &&& next_is(s, Err(e)) ==> run == (
                after(s, q),
                Some(Err::<Seq<(Seq<char>, JsonView)>, Seq<char>>(e)),
            )
        }),
{
}

// ── Records ───────────────────────────────────────────────────────────

/// A record is saved in the collection of the orchestrators under its id, and
/// loaded from there; a document that is no record counts as none.
pub proof fn records_are_kept_under_their_ids(
    o: OrchestratorView,
    id: Seq<char>,
    s: Script,
    out: JsonView,
    doc: JsonView,
    read: Option<OrchestratorView>,
)
    ensures
        state::save_orchestrator_run(o, s) == state::store_put_run(
            "orchestrators"@,
            o.id,
            o.to_json(),
            s,
        ),
        ({
            let q = call_of(
                HostFn::StoreGet,
                map![
                    "collection"@ => JsonView::Text("orchestrators"@),
                    "key"@ => JsonView::Text(id)
                ],
            );
            let run = state::load_orchestrator_run(id, s);
            &&& next_is(s, Ok(out)) && out.get("value"@) == Some(doc) && doc != JsonView::Null
                && s.left.len() > 1 && s.left[1] == ReplyView::Record(read) ==> run == (
                after(after(s, q), RequestView::Decode(doc)),
                Some(Ok::<Option<OrchestratorView>, Seq<char>>(read)),
            )
            &&& next_is(s, Ok(out)) && (out.get("value"@) is None || out.get("value"@) == Some(
                JsonView::Null,
            )) ==> run == (after(s, q), Some(Ok::<Option<OrchestratorView>, Seq<char>>(None)))
        }),
{
}

/// The records among the answers of a reader, in order.
pub open spec fn records_among(replies: Seq<ReplyView>) -> Seq<OrchestratorView>
    decreases replies.len(),
{
    if replies.len() == 0 {
        Seq::empty()
    } else {
        let rest = records_among(replies.skip(1));
        match replies[0] {
            ReplyView::Record(Some(o)) => seq![o] + rest,
            _ => rest,
        }
    }
}

/// Reading documents as records reads each of them once, in order; the records
/// are those that came back.
pub proof fn every_document_is_read(
    docs: Seq<(Seq<char>, JsonView)>,
    done: Seq<OrchestratorView>,
    s: Script,
)
    requires
        s.left.len() >= docs.len(),
        forall|i: int| 0 <= i < docs.len() ==> #[trigger] s.left[i] is Record,
    ensures
        state::decode_all_run(docs, done, s).1 == Some(
            done + records_among(s.left.take(docs.len() as int)),
        ),
        state::decode_all_run(docs, done, s).0.left == s.left.skip(docs.len() as int),
        state::decode_all_run(docs, done, s).0.asked == s.asked + Seq::new(
            docs.len(),
            |i: int| RequestView::Decode(docs[i].1),
        ),
    decreases docs.len(),
{
    let n = docs.len() as int;
    if docs.len() == 0 {
        assert(s.left.skip(0) =~= s.left);
        assert(s.left.take(0) =~= Seq::empty());
        assert(done + records_among(s.left.take(0)) =~= done);
        assert(s.asked + Seq::new(docs.len(), |i: int| RequestView::Decode(docs[i].1))
            =~= s.asked);
    } else {
        let t = s.decode(docs[0].1).0;
        assert forall|i: int| 0 <= i < docs.skip(1).len() implies #[trigger] t.left[i] is Record by {
            assert(t.left[i] == s.left[i + 1]);
        }
        let first = s.left[0];
        let more = match first {
            ReplyView::Record(Some(o)) => done.push(o),
            _ => done,
        };
        every_document_is_read(docs.skip(1), more, t);
        assert(s.left.take(n).skip(1) =~= t.left.take(n - 1));
        assert(s.left.take(n)[0] == first);
        assert(done + records_among(s.left.take(n)) =~= more + records_among(t.left.take(n - 1)));
        assert(t.left.skip(n - 1) =~= s.left.skip(n));
        assert(t.asked + Seq::new(
            docs.skip(1).len(),
            |i: int| RequestView::Decode(docs.skip(1)[i].1),
        ) =~= s.asked + Seq::new(docs.len(), |i: int| RequestView::Decode(docs[i].1)));
    }
}

/// Every record is loaded: the collection of the orchestrators is listed, each
/// of its documents is read, and the records come by their time of creation.
pub proof fn every_record_is_listed(s: Script)
    ensures
        ({
            let (t, r) = state::store_list_run("orchestrators"@, s);
            match r {
                Some(Ok(docs)) => {
                    let (u, found) = state::decode_all_run(docs, Seq::empty(), t);
                    &&& state::list_orchestrators_run(s).0 == u
                    &&& found is None ==> state::list_orchestrators_run(s).1 is None
                    &&& found matches Some(found) ==> state::list_orchestrators_run(s).1 == Some(
                        Ok::<Seq<OrchestratorView>, Seq<char>>(state::by_creation(found)),
                    )
                },
                Some(Err(e)) => state::list_orchestrators_run(s) == (
                    t,
                    Some(Err::<Seq<OrchestratorView>, Seq<char>>(e)),
                ),
                None => state::list_orchestrators_run(s).1 is None,
            }
        }),
{
}

/// A new record is switched on and not paused, with everything else at its
/// default.
pub proof fn new_records_have_the_defaults(id: Seq<char>, name: Seq<char>, folder_id: Seq<char>)
    ensures
        ({
            let o = records::fresh(id, name, folder_id);
            &&& o.id == id && o.name == name && o.folder_id == folder_id
            &&& o.enabled && !o.paused
            &&& o.goal.len() == 0 && o.prompt.len() == 0
            &&& o.goal_status.state == "in_progress"@ && o.goal_status.note.len() == 0
            &&& o.goal_status.percent is None && o.goal_status.eta is None
            &&& o.goal_status.updated_at.len() == 0
            &&& o.standards.dev && o.standards.testing && o.standards.ux
            &&& o.standards.custom.len() == 0
            &&& o.model is None && o.session_id is None && o.schedule.every_minutes is None
            &&& o.watchdog_minutes == 15 && o.cooldown_secs == 60
            &&& o.watch.sessions.len() == 0 && o.watch.folders.len() == 0
            &&& o.watch.auto_watch_created
            &&& o.caps.max_fires_per_hour == 12 && o.caps.max_sessions_created == 10
            &&& o.consecutive_failures == 0 && o.error is None
            &&& o.pending_triggers.len() == 0 && o.eta_history.len() == 0 && o.log.len() == 0
            &&& o.stats.actions == 0 && o.stats.fires == 0 && o.stats.sessions_created == 0
            &&& o.stats.last_fired_at is None && o.stats.next_due_at is None
            &&& o.stats.fire_times.len() == 0
            &&& o.hats.dom() == Set::<Seq<char>>::empty() && o.created_sessions.len() == 0
            &&& o.last_rendered_prompt.len() == 0 && o.created_at.len() == 0
        }),
{
}

/// A session is watched where it stands in the watch list or among the created
/// sessions, a folder where it stands in the list of folders.
pub proof fn watching_is_standing_in_a_list(o: OrchestratorView, id: Seq<char>)
    ensures
        o.watches_session(id) <==> (exists|i: int|
            0 <= i < o.watch.sessions.len() && #[trigger] o.watch.sessions[i] == id) || (exists|
            i: int,
        |
            0 <= i < o.created_sessions.len() && #[trigger] o.created_sessions[i] == id),
        o.watches_folder(id) <==> exists|i: int|
            0 <= i < o.watch.folders.len() && #[trigger] o.watch.folders[i] == id,
{
}

/// An action counts one, and a line in the feed has its time, kind and detail;
/// neither changes anything else.
pub proof fn books_are_kept(
    o: OrchestratorView,
    ts: Seq<char>,
    kind: Seq<char>,
    detail: Seq<char>,
)
    ensures
        o.stats.actions < u64::MAX ==> o.acted().stats.actions == o.stats.actions + 1,
        o.acted() == (OrchestratorView {
            stats: StatsView { actions: o.acted().stats.actions, ..o.stats },
            ..o
        }),
        o.logged(ts, kind, detail) == (OrchestratorView {
            log: o.logged(ts, kind, detail).log,
            ..o
        }),
        o.logged(ts, kind, detail).log == records::newest(
            o.log.push(ActivityEventView { ts: ts, kind: kind, detail: detail }),
            200,
        ),
{
}

/// The arrays of a stored record hold their elements in order, and the hats
/// stand under the ids of their sessions.
pub proof fn stored_arrays_are_in_order(
    texts: Seq<Seq<char>>,
    log: Seq<ActivityEventView>,
    queue: Seq<PendingView>,
    hats: Map<Seq<char>, HatView>,
    i: int,
    id: Seq<char>,
)
    ensures
        json::texts_view(texts) matches JsonView::Array(items) && items.len() == texts.len()
            && (0 <= i < items.len() ==> items[i] == JsonView::Text(texts[i])),
        records::log_view(log) matches JsonView::Array(items) && items.len() == log.len() && (0 <= i
            < items.len() ==> items[i] == log[i].to_json()),
        records::pending_view(queue) matches JsonView::Array(items) && items.len() == queue.len()
            && (0 <= i < items.len() ==> items[i] == queue[i].to_json()),
        hats.dom().contains(id) ==> records::hats_json(hats).get(id) == Some(hats[id].to_json()),
        !hats.dom().contains(id) ==> records::hats_json(hats).get(id) is None,
{
}

// ── Clock, kill switch and busy marks ─────────────────────────────────

/// The clock is kept in the engine's collection under `clock`, as a text under
/// `now`; it is read from there.
pub proof fn clock_is_kept(
    now: Seq<char>,
    s: Script,
    r: Result<JsonView, Seq<char>>,
    out: JsonView,
)
    ensures
        ({
            let put = call_of(
                HostFn::StorePut,
                map![
                    "collection"@ => JsonView::Text("engine"@),
                    "key"@ => JsonView::Text("clock"@),
                    "data"@ => JsonView::Object(map!["now"@ => JsonView::Text(now)])
                ],
            );
            let get = call_of(
                HostFn::StoreGet,
                map![
                    "collection"@ => JsonView::Text("engine"@),
                    "key"@ => JsonView::Text("clock"@)
                ],
            );
            &&& state::set_clock_run(now, s).0.asked == s.asked.push(put)
            &&& next_is(s, r) ==> state::set_clock_run(now, s) == (after(s, put), Some(()))
            &&& state::clock_run(s).0.asked == s.asked.push(get)
            &&& next_is(s, Ok(out)) ==> state::clock_run(s) == (
                after(s, get),
                Some(match out.get("value"@) {
                    Some(doc) => doc.text_at("now"@),
                    None => None,
                }),
            )
            &&& next_is(s, r) && r is Err ==> state::clock_run(s) == (
                after(s, get),
                Some(None::<Seq<char>>),
            )
        }),
{
}

/// The kill switch is kept in the engine's collection under `pause_all`, as a
/// boolean under `paused`; it is on exactly where that is read as true.
pub proof fn kill_switch_is_kept(
    paused: bool,
    s: Script,
    r: Result<JsonView, Seq<char>>,
    out: JsonView,
)
    ensures
        ({
            let put = call_of(
                HostFn::StorePut,
                map![
                    "collection"@ => JsonView::Text("engine"@),
                    "key"@ => JsonView::Text("pause_all"@),
                    "data"@ => JsonView::Object(map!["paused"@ => JsonView::Bool(paused)])
                ],
            );
            let get = call_of(
                HostFn::StoreGet,
                map![
                    "collection"@ => JsonView::Text("engine"@),
                    "key"@ => JsonView::Text("pause_all"@)
                ],
            );
            &&& state::set_global_paused_run(paused, s).0.asked == s.asked.push(put)
            &&& next_is(s, r) ==> state::set_global_paused_run(paused, s) == (
                after(s, put),
                Some(()),
            )
            &&& state::global_paused_run(s).0.asked == s.asked.push(get)
            &&& next_is(s, Ok(out)) ==> state::global_paused_run(s) == (
                after(s, get),
                Some(
                    out.get("value"@) is Some && out.get("value"@)->0.get("paused"@) == Some(
                        JsonView::Bool(true),
                    ),
                ),
            )
            &&& next_is(s, r) && r is Err ==> state::global_paused_run(s) == (
                after(s, get),
                Some(false),
            )
        }),
{
}

/// What a busy mark says at `now`: it is one, its time can be read, and that
/// lies less than half an hour back.
pub open spec fn marks_busy(out: JsonView, now: Seq<char>) -> bool {
    &&& out.get("value"@) matches Some(doc)
    &&& doc.get("busy"@) == Some(JsonView::Bool(true))
    &&& {
        let since = match doc.get("since"@) {
            Some(JsonView::Text(since)) => since,
            _ => ""@,
        };
        time::seconds(since, now) matches Some(age) && age < 1800
    }
}

/// Busy marks are kept in the collection `busy` under the session's id, with
/// the time they were set; a session is busy exactly while its mark is fresh.
pub proof fn busy_marks_are_kept(
    id: Seq<char>,
    now: Seq<char>,
    s: Script,
    r: Result<JsonView, Seq<char>>,
    out: JsonView,
)
    ensures
        ({
            let place = map![
                "collection"@ => JsonView::Text("busy"@),
                "key"@ => JsonView::Text(id)
            ];
            let put = call_of(
                HostFn::StorePut,
                map![
                    "collection"@ => JsonView::Text("busy"@),
                    "key"@ => JsonView::Text(id),
                    "data"@ => JsonView::Object(
                        map!["busy"@ => JsonView::Bool(true), "since"@ => JsonView::Text(now)],
                    )
                ],
            );
            let get = call_of(HostFn::StoreGet, place);
            let delete = call_of(HostFn::StoreDelete, place);
            &&& state::mark_busy_run(id, now, s).0.asked == s.asked.push(put)
            &&& next_is(s, r) ==> state::mark_busy_run(id, now, s) == (after(s, put), Some(()))
            &&& state::mark_idle_run(id, s).0.asked == s.asked.push(delete)
            &&& next_is(s, r) ==> state::mark_idle_run(id, s) == (after(s, delete), Some(()))
            &&& state::is_busy_run(id, now, s).0.asked == s.asked.push(get)
            &&& next_is(s, Ok(out)) ==> state::is_busy_run(id, now, s) == (
                after(s, get),
                Some(marks_busy(out, now)),
            )
            &&& next_is(s, r) && r is Err ==> state::is_busy_run(id, now, s) == (
                after(s, get),
                Some(false),
            )
        }),
{
}

// ── Documents, taken apart ────────────────────────────────────────────

/// A field is read off an object, and off nothing else; it is taken as a text, a
/// switch, a number or an array where it is one.
pub proof fn fields_are_read(
    fields: Map<Seq<char>, JsonView>,
    key: Seq<char>,
    doc: JsonView,
    v: Seq<char>,
    b: bool,
    n: u64,
    items: Seq<JsonView>,
)
    ensures
        fields.dom().contains(key) ==> JsonView::Object(fields).get(key) == Some(fields[key]),
        !fields.dom().contains(key) ==> JsonView::Object(fields).get(key) is None,
        !(doc is Object) ==> doc.get(key) is None,
        doc.text_at(key) == Some(v) <==> doc.get(key) == Some(JsonView::Text(v)),
        doc.bool_at(key) == Some(b) <==> doc.get(key) == Some(JsonView::Bool(b)),
        doc.u64_at(key) == Some(n) <==> doc.get(key) == Some(
            JsonView::Number(json::NumberView::Unsigned(n)),
        ),
        doc.array_at(key) == Some(items) <==> doc.get(key) == Some(JsonView::Array(items)),
        json::uint_view(n) == JsonView::Number(json::NumberView::Unsigned(n)),
        json::opt_text_view(Some(v)) == JsonView::Text(v),
        json::opt_text_view(None) == JsonView::Null,
{
}

/// The text of an answer that is no document is an error that says so.
pub proof fn answers_are_documents(out: Seq<char>, doc: JsonView, e: Seq<char>)
    ensures
        json::json_parse(out) == Ok::<JsonView, Seq<char>>(doc) ==> host::opened_text(out)
            == host::opened(doc),
        json::json_parse(out) == Err::<JsonView, Seq<char>>(e) ==> host::opened_text(out) == Err::<
            JsonView,
            Seq<char>,
        >("host returned invalid json: "@ + e),
{
}

} // verus!

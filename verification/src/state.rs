//! The plugin store: orchestrator records, the clock, the global pause and
//! the busy map.
//!
//! Everything durable is a document of the host's store:
//! - `orchestrators/<id>` holds one [`Orchestrator`].
//! - `engine/clock` holds the timestamp of the last `timer.tick`. "Now" is
//!   always supplied by the host; hooks that carry no timestamp read it there.
//! - `engine/pause_all` is the global kill switch.
//! - `busy/<session_id>` marks a session as busy. The mark is set when the
//!   engine sends (or a user turn starts), removed when the agent's turn ends,
//!   and ignored once it is stale (see [`BUSY_STALE_MINUTES`]).

use vstd::prelude::*;

use crate::host::{self, Host, HostFn, Script};
use crate::json::{Fields, Json, JsonView};
use crate::records::{Orchestrator, OrchestratorView};
use crate::text;
use crate::time;

verus! {

/// The collection of orchestrator records.
pub const ORCH_COLLECTION: &'static str = "orchestrators";

/// The collection of the clock and the global pause.
pub const ENGINE_COLLECTION: &'static str = "engine";

/// The collection of busy marks.
pub const BUSY_COLLECTION: &'static str = "busy";

/// A busy mark older than this is treated as idle: the guard against a missed
/// end of a turn keeping a session busy forever. Delivery queues at the host
/// anyway, so a wrong "idle" is harmless.
pub const BUSY_STALE_MINUTES: i64 = 30;

/// The refusal while another instance holds the engine lease.
pub const BUSY_MSG: &'static str = "the orchestrator engine is busy — try again in a moment";

// ── Store access ──────────────────────────────────────────────────────

/// The name of a document.
pub open spec fn place(collection: Seq<char>, key: Seq<char>) -> JsonView {
    JsonView::Object(
        map!["collection"@ => JsonView::Text(collection), "key"@ => JsonView::Text(key)],
    )
}

/// The name of a document.
fn place_json(collection: &str, key: &str) -> (r: Json)
    ensures
        r@ == place(collection@, key@),
{
    Fields::new().with("collection", Json::text(collection)).with("key", Json::text(key)).done()
}

/// A document and its name.
pub open spec fn placed(collection: Seq<char>, key: Seq<char>, data: JsonView) -> JsonView {
    JsonView::Object(
        map![
            "collection"@ => JsonView::Text(collection),
            "key"@ => JsonView::Text(key),
            "data"@ => data
        ],
    )
}

/// Stores a document.
pub open spec fn store_put_run(
    collection: Seq<char>,
    key: Seq<char>,
    data: JsonView,
    s: Script,
) -> (Script, Option<Result<(), Seq<char>>>) {
    let (s, r) = s.call(HostFn::StorePut, placed(collection, key, data));
    (
        s,
        match r {
            Some(Ok(_)) => Some(Ok(())),
            Some(Err(e)) => Some(Err(e)),
            None => None,
        },
    )
}

/// Stores a document.
pub fn store_put(collection: &str, key: &str, data: Json, host: &mut Host) -> (r: Option<
    Result<(), String>,
>)
    ensures
        final(host)@ == store_put_run(collection@, key@, data@, old(host)@).0,
        host::outcome(r) == store_put_run(collection@, key@, data@, old(host)@).1,
{
    let input = Fields::new().with("collection", Json::text(collection)).with(
        "key",
        Json::text(key),
    ).with("data", data).done();
    match host.call(HostFn::StorePut, input)? {
        Ok(_) => Some(Ok(())),
        Err(e) => Some(Err(e)),
    }
}

/// The document in an answer of the store; null stands for none.
pub open spec fn stored_value(out: JsonView) -> Option<JsonView> {
    match out.get("value"@) {
        None | Some(JsonView::Null) => None,
        Some(v) => Some(v),
    }
}

/// Reads a document.
pub open spec fn store_get_run(collection: Seq<char>, key: Seq<char>, s: Script) -> (
    Script,
    Option<Result<Option<JsonView>, Seq<char>>>,
) {
    let (s, r) = s.call(HostFn::StoreGet, place(collection, key));
    (
        s,
        match r {
            Some(Ok(out)) => Some(Ok(stored_value(out))),
            Some(Err(e)) => Some(Err(e)),
            None => None,
        },
    )
}

/// Reads a document, if there is one.
pub fn store_get(collection: &str, key: &str, host: &mut Host) -> (r: Option<
    Result<Option<Json>, String>,
>)
    ensures
        final(host)@ == store_get_run(collection@, key@, old(host)@).0,
        host::outcome(r) == store_get_run(collection@, key@, old(host)@).1,
{
    match host.call(HostFn::StoreGet, place_json(collection, key))? {
        Ok(out) => match out.get("value") {
            None | Some(Json::Null) => Some(Ok(None)),
            Some(v) => Some(Ok(Some(v.clone()))),
        },
        Err(e) => Some(Err(e)),
    }
}

/// The entries of a listing, in order; what has no key or no value is left out.
pub open spec fn entries(items: Seq<JsonView>) -> Seq<(Seq<char>, JsonView)>
    decreases items.len(),
{
    if items.len() == 0 {
        Seq::empty()
    } else {
        let front = entries(items.drop_last());
        match (items.last().text_at("key"@), items.last().get("value"@)) {
            (Some(key), Some(value)) => front.push((key, value)),
            _ => front,
        }
    }
}

/// The entries in an answer of the store.
pub open spec fn listed(out: JsonView) -> Seq<(Seq<char>, JsonView)> {
    match out.array_at("items"@) {
        Some(items) => entries(items),
        None => Seq::empty(),
    }
}

/// Lists a collection.
pub open spec fn store_list_run(collection: Seq<char>, s: Script) -> (
    Script,
    Option<Result<Seq<(Seq<char>, JsonView)>, Seq<char>>>,
) {
    let (s, r) = s.call(
        HostFn::StoreList,
        JsonView::Object(map!["collection"@ => JsonView::Text(collection)]),
    );
    (
        s,
        match r {
            Some(Ok(out)) => Some(Ok(listed(out))),
            Some(Err(e)) => Some(Err(e)),
            None => None,
        },
    )
}

/// The entries of a listing, in order.
fn entries_of(items: &Vec<Json>) -> (r: Vec<(String, Json)>)
    ensures
        r.deep_view() == entries(items.deep_view()),
{
    let mut out: Vec<(String, Json)> = Vec::new();
    let ghost all = items.deep_view();
    let mut i: usize = 0;
    while i < items.len()
        invariant
            all == items.deep_view(),
            0 <= i <= items@.len(),
            out.deep_view() == entries(all.take(i as int)),
        decreases items@.len() - i,
    {
        let ghost before = out.deep_view();
        let item = &items[i];
        assert(all.take(i + 1).drop_last() == all.take(i as int));
        assert(all.take(i + 1).last() == item@);
        if let Some(key) = item.text_at("key") {
            if let Some(value) = item.get("value") {
                out.push((key.to_owned(), value.clone()));
                assert(out.deep_view() =~= before.push((key@, value@)));
            }
        }
        i = i + 1;
    }
    assert(all.take(i as int) == all);
    out
}

/// The keys and documents of a collection.
pub fn store_list(collection: &str, host: &mut Host) -> (r: Option<
    Result<Vec<(String, Json)>, String>,
>)
    ensures
        final(host)@ == store_list_run(collection@, old(host)@).0,
        host::outcome(r) == store_list_run(collection@, old(host)@).1,
{
    let input = Fields::new().with("collection", Json::text(collection)).done();
    match host.call(HostFn::StoreList, input)? {
        Ok(out) => match out.array_at("items") {
            Some(items) => Some(Ok(entries_of(items))),
            None => {
                let none: Vec<(String, Json)> = Vec::new();
                assert(none.deep_view() =~= Seq::empty());
                Some(Ok(none))
            },
        },
        Err(e) => Some(Err(e)),
    }
}

/// Deletes a document; a refusal is passed over.
pub open spec fn store_delete_run(collection: Seq<char>, key: Seq<char>, s: Script) -> (
    Script,
    Option<Result<(), Seq<char>>>,
) {
    let (s, r) = s.call(HostFn::StoreDelete, place(collection, key));
    (
        s,
        match r {
            Some(_) => Some(Ok(())),
            None => None,
        },
    )
}

/// Deletes a document; a refusal is passed over.
pub fn store_delete(collection: &str, key: &str, host: &mut Host) -> (r: Option<
    Result<(), String>,
>)
    ensures
        final(host)@ == store_delete_run(collection@, key@, old(host)@).0,
        host::outcome(r) == store_delete_run(collection@, key@, old(host)@).1,
{
    let _ = host.call(HostFn::StoreDelete, place_json(collection, key))?;
    Some(Ok(()))
}

// ── Orchestrator records ──────────────────────────────────────────────

/// Loads a record; a document that is no record counts as none.
pub open spec fn load_orchestrator_run(id: Seq<char>, s: Script) -> (
    Script,
    Option<Result<Option<OrchestratorView>, Seq<char>>>,
) {
    let (s, r) = store_get_run(ORCH_COLLECTION@, id, s);
    match r {
        None => (s, None),
        Some(Err(e)) => (s, Some(Err(e))),
        Some(Ok(None)) => (s, Some(Ok(None))),
        Some(Ok(Some(doc))) => {
            let (s, o) = s.decode(doc);
            (
                s,
                match o {
                    Some(o) => Some(Ok(o)),
                    None => None,
                },
            )
        },
    }
}

/// Loads a record, if there is one.
pub fn load_orchestrator(id: &str, host: &mut Host) -> (r: Option<
    Result<Option<Orchestrator>, String>,
>)
    ensures
        final(host)@ == load_orchestrator_run(id@, old(host)@).0,
        host::outcome(r) == load_orchestrator_run(id@, old(host)@).1,
{
    match store_get(ORCH_COLLECTION, id, host)? {
        Err(e) => Some(Err(e)),
        Ok(None) => Some(Ok(None)),
        Ok(Some(doc)) => Some(Ok(host.decode(doc)?)),
    }
}

/// Stores a record under its id.
pub open spec fn save_orchestrator_run(o: OrchestratorView, s: Script) -> (
    Script,
    Option<Result<(), Seq<char>>>,
) {
    store_put_run(ORCH_COLLECTION@, o.id, o.to_json(), s)
}

/// Stores a record under its id.
pub fn save_orchestrator(o: &Orchestrator, host: &mut Host) -> (r: Option<Result<(), String>>)
    ensures
        final(host)@ == save_orchestrator_run(o@, old(host)@).0,
        host::outcome(r) == save_orchestrator_run(o@, old(host)@).1,
{
    store_put(ORCH_COLLECTION, o.id.as_str(), o.to_json(), host)
}

/// The records in order, with one more put behind those that are not younger.
pub open spec fn settled(v: Seq<OrchestratorView>, o: OrchestratorView) -> Seq<OrchestratorView>
    decreases v.len(),
{
    if v.len() > 0 && text::precedes(o.created_at, v.last().created_at) {
        settled(v.drop_last(), o).push(v.last())
    } else {
        v.push(o)
    }
}

/// The records by the time of their creation; of two created at the same time,
/// the one that was first stays first.
pub open spec fn by_creation(v: Seq<OrchestratorView>) -> Seq<OrchestratorView>
    decreases v.len(),
{
    if v.len() == 0 {
        v
    } else {
        settled(by_creation(v.drop_last()), v.last())
    }
}

/// Reads the documents as records; those that are none are left out.
pub open spec fn decode_all_run(
    docs: Seq<(Seq<char>, JsonView)>,
    done: Seq<OrchestratorView>,
    s: Script,
) -> (Script, Option<Seq<OrchestratorView>>)
    decreases docs.len(),
{
    if docs.len() == 0 {
        (s, Some(done))
    } else {
        let (s, o) = s.decode(docs[0].1);
        match o {
            None => (s, None),
            Some(None) => decode_all_run(docs.skip(1), done, s),
            Some(Some(o)) => decode_all_run(docs.skip(1), done.push(o), s),
        }
    }
}

/// Loads every record, in the order of creation.
pub open spec fn list_orchestrators_run(s: Script) -> (
    Script,
    Option<Result<Seq<OrchestratorView>, Seq<char>>>,
) {
    let (s, r) = store_list_run(ORCH_COLLECTION@, s);
    match r {
        None => (s, None),
        Some(Err(e)) => (s, Some(Err(e))),
        Some(Ok(docs)) => {
            let (s, found) = decode_all_run(docs, Seq::empty(), s);
            (
                s,
                match found {
                    Some(found) => Some(Ok(by_creation(found))),
                    None => None,
                },
            )
        },
    }
}

/// Puts a record behind those that are not younger.
fn settle(v: &mut Vec<Orchestrator>, o: Orchestrator)
    ensures
        final(v).deep_view() == settled(old(v).deep_view(), o@),
{
    let mut at: usize = v.len();
    let ghost all = v.deep_view();
    assert(all.take(at as int) == all);
    assert(settled(all, o@) == settled(all.take(at as int), o@) + all.skip(at as int));
    while at > 0 && text::comes_before(o.created_at.as_str(), v[at - 1].created_at.as_str())
        invariant
            all == v.deep_view(),
            0 <= at <= v@.len(),
            settled(all, o@) == settled(all.take(at as int), o@) + all.skip(at as int),
        decreases at,
    {
        assert(all.take(at as int).drop_last() == all.take(at - 1));
        assert(all.take(at as int).last() == all[at - 1]);
        assert(settled(all.take(at - 1), o@).push(all[at - 1]) + all.skip(at as int) == settled(
            all.take(at - 1),
            o@,
        ) + all.skip(at - 1));
        at = at - 1;
    }
    assert(at > 0 ==> all.take(at as int).last() == v@[at - 1]@);
    assert(settled(all.take(at as int), o@) == all.take(at as int).push(o@));
    v.insert(at, o);
    assert(v.deep_view() =~= all.take(at as int).push(o@) + all.skip(at as int));
}

/// The records by the time of their creation.
fn sort_by_creation(v: Vec<Orchestrator>) -> (r: Vec<Orchestrator>)
    ensures
        r.deep_view() == by_creation(v.deep_view()),
{
    let ghost all = v@;
    let ghost views = v.deep_view();
    let mut out: Vec<Orchestrator> = Vec::new();
    assert(out.deep_view() =~= by_creation(views.take(0)));
    for o in it: v
        invariant
            it.seq() == all,
            views.len() == all.len(),
            forall|k: int| 0 <= k < all.len() ==> views[k] == (#[trigger] all[k])@,
            out.deep_view() == by_creation(views.take(it.index() as int)),
    {
        let ghost k = it.index() as int;
        assert(views.take(k + 1).drop_last() == views.take(k));
        assert(views.take(k + 1).last() == o@);
        settle(&mut out, o);
    }
    assert(views.take(views.len() as int) == views);
    out
}

/// Reads the documents as records; those that are none are left out.
fn decode_all(docs: &Vec<(String, Json)>, host: &mut Host) -> (r: Option<Vec<Orchestrator>>)
    ensures
        final(host)@ == decode_all_run(docs.deep_view(), Seq::empty(), old(host)@).0,
        r.deep_view() == decode_all_run(docs.deep_view(), Seq::empty(), old(host)@).1,
{
    let mut out: Vec<Orchestrator> = Vec::new();
    let ghost all = docs.deep_view();
    assert(out.deep_view() =~= Seq::empty());
    assert(all.skip(0) == all);
    let mut i: usize = 0;
    while i < docs.len()
        invariant
            all == docs.deep_view(),
            0 <= i <= docs@.len(),
            decode_all_run(all, Seq::empty(), old(host)@) == decode_all_run(
                all.skip(i as int),
                out.deep_view(),
                host@,
            ),
        decreases docs@.len() - i,
    {
        assert(all.skip(i as int).skip(1) == all.skip(i + 1));
        assert(all.skip(i as int)[0] == (docs@[i as int].0@, docs@[i as int].1@));
        let ghost before = out.deep_view();
        if let Some(o) = host.decode(docs[i].1.clone())? {
            out.push(o);
            assert(out.deep_view() =~= before.push(o@));
        }
        i = i + 1;
    }
    Some(out)
}

/// Every record, in the order of creation.
pub fn list_orchestrators(host: &mut Host) -> (r: Option<Result<Vec<Orchestrator>, String>>)
    ensures
        final(host)@ == list_orchestrators_run(old(host)@).0,
        host::outcome(r) == list_orchestrators_run(old(host)@).1,
{
    match store_list(ORCH_COLLECTION, host)? {
        Err(e) => Some(Err(e)),
        Ok(docs) => Some(Ok(sort_by_creation(decode_all(&docs, host)?))),
    }
}

// ── Clock (host-supplied "now") ───────────────────────────────────────

/// Stores the clock; a refusal is passed over.
pub open spec fn set_clock_run(now: Seq<char>, s: Script) -> (Script, Option<()>) {
    let (s, r) = store_put_run(
        ENGINE_COLLECTION@,
        "clock"@,
        JsonView::Object(map!["now"@ => JsonView::Text(now)]),
        s,
    );
    (
        s,
        match r {
            Some(_) => Some(()),
            None => None,
        },
    )
}

/// Stores the clock; a refusal is passed over.
pub fn set_clock(now: &str, host: &mut Host) -> (r: Option<()>)
    ensures
        final(host)@ == set_clock_run(now@, old(host)@).0,
        r == set_clock_run(now@, old(host)@).1,
{
    let data = Fields::new().with("now", Json::text(now)).done();
    let _ = store_put(ENGINE_COLLECTION, "clock", data, host)?;
    Some(())
}

/// The timestamp in what was read of the clock.
pub open spec fn clock_of(read: Result<Option<JsonView>, Seq<char>>) -> Option<Seq<char>> {
    match read {
        Ok(Some(doc)) => doc.text_at("now"@),
        _ => None,
    }
}

/// Reads the clock.
pub open spec fn clock_run(s: Script) -> (Script, Option<Option<Seq<char>>>) {
    let (s, r) = store_get_run(ENGINE_COLLECTION@, "clock"@, s);
    (
        s,
        match r {
            Some(read) => Some(clock_of(read)),
            None => None,
        },
    )
}

/// The last `timer.tick` timestamp, or None before the first tick.
pub fn clock(host: &mut Host) -> (r: Option<Option<String>>)
    ensures
        final(host)@ == clock_run(old(host)@).0,
        r.deep_view() == clock_run(old(host)@).1,
{
    match store_get(ENGINE_COLLECTION, "clock", host)? {
        Ok(Some(doc)) => match doc.text_at("now") {
            Some(now) => Some(Some(now.to_owned())),
            None => Some(None),
        },
        _ => Some(None),
    }
}

// ── Global pause and busy map ─────────────────────────────────────────

/// Whether what was read of the kill switch says that everything is paused.
pub open spec fn paused_of(read: Result<Option<JsonView>, Seq<char>>) -> bool {
    read matches Ok(Some(doc)) && doc.bool_at("paused"@) == Some(true)
}

/// Reads the kill switch.
pub open spec fn global_paused_run(s: Script) -> (Script, Option<bool>) {
    let (s, r) = store_get_run(ENGINE_COLLECTION@, "pause_all"@, s);
    (
        s,
        match r {
            Some(read) => Some(paused_of(read)),
            None => None,
        },
    )
}

/// Whether everything is paused.
pub fn global_paused(host: &mut Host) -> (r: Option<bool>)
    ensures
        final(host)@ == global_paused_run(old(host)@).0,
        r == global_paused_run(old(host)@).1,
{
    match store_get(ENGINE_COLLECTION, "pause_all", host)? {
        Ok(Some(doc)) => Some(
            match doc.bool_at("paused") {
                Some(paused) => paused,
                None => false,
            },
        ),
        _ => Some(false),
    }
}

/// The document of the kill switch.
pub open spec fn pause_doc(paused: bool) -> JsonView {
    JsonView::Object(map!["paused"@ => JsonView::Bool(paused)])
}

/// Sets the kill switch; a refusal is passed over.
pub open spec fn set_global_paused_run(paused: bool, s: Script) -> (Script, Option<()>) {
    let (s, r) = store_put_run(ENGINE_COLLECTION@, "pause_all"@, pause_doc(paused), s);
    (
        s,
        match r {
            Some(_) => Some(()),
            None => None,
        },
    )
}

/// Sets the kill switch; a refusal is passed over.
pub fn set_global_paused(paused: bool, host: &mut Host) -> (r: Option<()>)
    ensures
        final(host)@ == set_global_paused_run(paused, old(host)@).0,
        r == set_global_paused_run(paused, old(host)@).1,
{
    let data = Fields::new().with("paused", Json::Bool(paused)).done();
    let _ = store_put(ENGINE_COLLECTION, "pause_all", data, host)?;
    Some(())
}

/// A busy mark.
pub open spec fn busy_doc(since: Seq<char>) -> JsonView {
    JsonView::Object(map!["busy"@ => JsonView::Bool(true), "since"@ => JsonView::Text(since)])
}

/// Marks a session as busy; a refusal is passed over.
pub open spec fn mark_busy_run(session_id: Seq<char>, now: Seq<char>, s: Script) -> (
    Script,
    Option<()>,
) {
    let (s, r) = store_put_run(BUSY_COLLECTION@, session_id, busy_doc(now), s);
    (
        s,
        match r {
            Some(_) => Some(()),
            None => None,
        },
    )
}

/// Marks a session as busy since `now`; a refusal is passed over.
pub fn mark_busy(session_id: &str, now: &str, host: &mut Host) -> (r: Option<()>)
    ensures
        final(host)@ == mark_busy_run(session_id@, now@, old(host)@).0,
        r == mark_busy_run(session_id@, now@, old(host)@).1,
{
    let data = Fields::new().with("busy", Json::Bool(true)).with("since", Json::text(now)).done();
    let _ = store_put(BUSY_COLLECTION, session_id, data, host)?;
    Some(())
}

/// Removes a busy mark.
pub open spec fn mark_idle_run(session_id: Seq<char>, s: Script) -> (Script, Option<()>) {
    let (s, r) = store_delete_run(BUSY_COLLECTION@, session_id, s);
    (
        s,
        match r {
            Some(_) => Some(()),
            None => None,
        },
    )
}

/// Removes the busy mark of a session.
pub fn mark_idle(session_id: &str, host: &mut Host) -> (r: Option<()>)
    ensures
        final(host)@ == mark_idle_run(session_id@, old(host)@).0,
        r == mark_idle_run(session_id@, old(host)@).1,
{
    let _ = store_delete(BUSY_COLLECTION, session_id, host)?;
    Some(())
}

/// Whether what was read of a busy mark says that the session is busy at
/// `now`: the mark is there, and it is fresh.
pub open spec fn busy_of(read: Result<Option<JsonView>, Seq<char>>, now: Seq<char>) -> bool {
    &&& read matches Ok(Some(doc))
    &&& doc.bool_at("busy"@) == Some(true)
    &&& {
        let since = text::or_else(doc.text_at("since"@), ""@);
        time::seconds(since, now) matches Some(age) && age < BUSY_STALE_MINUTES * 60
    }
}

/// Reads a busy mark.
pub open spec fn is_busy_run(session_id: Seq<char>, now: Seq<char>, s: Script) -> (
    Script,
    Option<bool>,
) {
    let (s, r) = store_get_run(BUSY_COLLECTION@, session_id, s);
    (
        s,
        match r {
            Some(read) => Some(busy_of(read, now)),
            None => None,
        },
    )
}

/// Best-effort: true only for a fresh busy mark (see [`BUSY_STALE_MINUTES`]).
pub fn is_busy(session_id: &str, now: &str, host: &mut Host) -> (r: Option<bool>)
    ensures
        final(host)@ == is_busy_run(session_id@, now@, old(host)@).0,
        r == is_busy_run(session_id@, now@, old(host)@).1,
{
    let doc = match store_get(BUSY_COLLECTION, session_id, host)? {
        Ok(Some(doc)) => doc,
        _ => {
            return Some(false);
        },
    };
    match doc.bool_at("busy") {
        Some(true) => {},
        _ => {
            return Some(false);
        },
    }
    let since = text::str_or(doc.text_at("since"), "");
    match time::seconds_between(since, now) {
        Some(age) => Some(age < BUSY_STALE_MINUTES * 60),
        None => Some(false),
    }
}

// ── Engine lease ──────────────────────────────────────────────────────

/// What is left to do once work under the lease has come to its result: the
/// lease is given back, whatever the result is.
pub open spec fn released<T>(run: (Script, Option<T>)) -> (Script, Option<T>) {
    match run.1 {
        None => run,
        Some(v) => {
            let (s, done) = run.0.release();
            (
                s,
                match done {
                    Some(_) => Some(v),
                    None => None,
                },
            )
        },
    }
}

} // verus!

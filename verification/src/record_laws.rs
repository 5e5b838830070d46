//! Laws of the records: what is capped, what is kept, and that what is read
//! is what was written.

use vstd::prelude::*;

use crate::authorize;
use crate::engine;
use crate::json::JsonView;
use crate::records::{
    self, ActivityEventView, ETA_HISTORY_CAP, LOG_CAP, OrchestratorView, PendingView,
};
use crate::state;
use crate::text;
use crate::time;

verus! {

// ── Capped sequences ──────────────────────────────────────────────────

/// Keeping the newest leaves at most the cap, and they are the tail of what
/// there was, in its order.
pub proof fn newest_is_a_capped_tail<T>(s: Seq<T>, cap: nat)
    ensures
        records::newest(s, cap).len() <= cap,
        s.len() <= cap ==> records::newest(s, cap) == s,
        s.len() > cap ==> records::newest(s, cap).len() == cap,
        forall|i: int|
            0 <= i < records::newest(s, cap).len() ==> #[trigger] records::newest(s, cap)[i] == s[s.len()
                - records::newest(s, cap).len() + i],
{
}

/// The activity feed holds at most [`LOG_CAP`] entries, and the newest is last.
pub proof fn feed_is_capped_newest_last(
    o: OrchestratorView,
    ts: Seq<char>,
    kind: Seq<char>,
    detail: Seq<char>,
)
    ensures
        o.logged(ts, kind, detail).log.len() <= LOG_CAP,
        o.logged(ts, kind, detail).log.last() == (ActivityEventView { ts, kind, detail }),
        o.log.len() < LOG_CAP ==> o.logged(ts, kind, detail).log == o.log.push(
            ActivityEventView { ts, kind, detail },
        ),
{
}

/// The history of estimates holds at most [`ETA_HISTORY_CAP`] samples, and the
/// newest is last.
pub proof fn eta_history_is_capped_newest_last(o: OrchestratorView, now: Seq<char>, minutes: u64)
    ensures
        engine::sampled(o, now, minutes).eta_history.len() <= ETA_HISTORY_CAP,
        engine::sampled(o, now, minutes).eta_history.last() == engine::eta_sample(
            now,
            minutes,
            o.goal_status.percent,
        ),
{
}

// ── Waiting triggers ──────────────────────────────────────────────────

/// No two triggers of the queue are about the same session.
pub open spec fn distinct_sessions(q: Seq<PendingView>) -> bool {
    forall|i: int, j: int|
        0 <= i < j < q.len() && (#[trigger] q[i]).session_id is Some ==> q[i].session_id != (
        #[trigger] q[j]).session_id
}

/// What is not waiting comes from the parts, and repeats no waiting session.
proof fn not_waiting_members(queue: Seq<PendingView>, parts: Seq<PendingView>)
    ensures
        engine::not_waiting(queue, parts).len() <= parts.len(),
        forall|i: int|
            0 <= i < engine::not_waiting(queue, parts).len() ==> !engine::waiting(
                queue,
                #[trigger] engine::not_waiting(queue, parts)[i],
            ) && parts.contains(engine::not_waiting(queue, parts)[i]),
    decreases parts.len(),
{
    if parts.len() > 0 {
        let front = parts.drop_last();
        not_waiting_members(queue, front);
        let kept = engine::not_waiting(queue, parts);
        let before = engine::not_waiting(queue, front);
        assert forall|i: int| 0 <= i < kept.len() implies !engine::waiting(
            queue,
            #[trigger] kept[i],
        ) && parts.contains(kept[i]) by {
            if i < before.len() {
                assert(kept[i] == before[i]);
                let k = choose|k: int| 0 <= k < front.len() && front[k] == before[i];
                assert(parts[k] == kept[i]);
            } else {
                assert(parts[parts.len() - 1] == kept[i]);
            }
        }
    }
}

/// Leaving some of the parts out keeps them about distinct sessions.
proof fn not_waiting_keeps_distinct(queue: Seq<PendingView>, parts: Seq<PendingView>)
    requires
        distinct_sessions(parts),
    ensures
        distinct_sessions(engine::not_waiting(queue, parts)),
    decreases parts.len(),
{
    if parts.len() > 0 {
        let front = parts.drop_last();
        assert(distinct_sessions(front)) by {
            assert forall|i: int, j: int|
                0 <= i < j < front.len() && (#[trigger] front[i]).session_id is Some implies front[i].session_id
                != (#[trigger] front[j]).session_id by {
                assert(front[i] == parts[i] && front[j] == parts[j]);
            }
        }
        not_waiting_keeps_distinct(queue, front);
        not_waiting_members(queue, front);
        let before = engine::not_waiting(queue, front);
        let kept = engine::not_waiting(queue, parts);
        assert forall|i: int, j: int|
            0 <= i < j < kept.len() && (#[trigger] kept[i]).session_id is Some implies kept[i].session_id
            != (#[trigger] kept[j]).session_id by {
            assert(kept[i] == before[i]);
            if j < before.len() {
                assert(kept[j] == before[j]);
            } else {
                let k = choose|k: int| 0 <= k < front.len() && front[k] == before[i];
                assert(parts[k] == kept[i]);
                assert(parts[parts.len() - 1] == kept[j]);
            }
        }
    }
}

/// The queue holds at most [`engine::PENDING_CAP`] triggers.
pub proof fn queue_is_capped(o: OrchestratorView, t: engine::TriggerView, now: Seq<char>)
    ensures
        engine::queued(o, t, now).pending_triggers.len() <= engine::PENDING_CAP,
{
}

/// Duplicates for the same session are dropped: while the triggers folded into
/// a fire are about distinct sessions, the queue stays so.
pub proof fn queue_stays_distinct(o: OrchestratorView, t: engine::TriggerView, now: Seq<char>)
    requires
        distinct_sessions(o.pending_triggers),
        distinct_sessions(t.pending),
    ensures
        distinct_sessions(engine::queued(o, t, now).pending_triggers),
{
    let queue = o.pending_triggers;
    let parts = engine::parts_of(t, now);
    let kept = engine::not_waiting(queue, parts);
    assert(distinct_sessions(parts));
    not_waiting_keeps_distinct(queue, parts);
    not_waiting_members(queue, parts);
    let whole = queue + kept;
    assert forall|i: int, j: int|
        0 <= i < j < whole.len() && (#[trigger] whole[i]).session_id is Some implies whole[i].session_id
        != (#[trigger] whole[j]).session_id by {
        if j < queue.len() {
            assert(whole[i] == queue[i] && whole[j] == queue[j]);
        } else if i < queue.len() {
            assert(whole[i] == queue[i] && whole[j] == kept[j - queue.len()]);
            assert(!engine::waiting(queue, kept[j - queue.len()]));
        } else {
            assert(whole[i] == kept[i - queue.len()] && whole[j] == kept[j - queue.len()]);
        }
    }
    let cut = records::newest(whole, engine::PENDING_CAP as nat);
    let off = whole.len() - cut.len();
    assert forall|i: int, j: int|
        0 <= i < j < cut.len() && (#[trigger] cut[i]).session_id is Some implies cut[i].session_id
        != (#[trigger] cut[j]).session_id by {
        assert(cut[i] == whole[i + off] && cut[j] == whole[j + off]);
    }
}

/// A trigger for a session that has one waiting changes nothing in the queue.
pub proof fn repeated_trigger_is_dropped(o: OrchestratorView, t: engine::TriggerView, now: Seq<char>)
    requires
        t.pending.len() == 0,
        o.pending_triggers.len() <= engine::PENDING_CAP,
        engine::waiting(o.pending_triggers, engine::parts_of(t, now)[0]),
    ensures
        engine::queued(o, t, now) == o,
{
    let parts = engine::parts_of(t, now);
    reveal_with_fuel(engine::not_waiting, 2);
    assert(parts.drop_last() =~= Seq::empty());
    assert(engine::not_waiting(o.pending_triggers, parts) =~= Seq::empty());
    assert(o.pending_triggers + engine::not_waiting(o.pending_triggers, parts)
        =~= o.pending_triggers);
}

/// A trigger for another session is appended.
pub proof fn new_trigger_is_appended(o: OrchestratorView, t: engine::TriggerView, now: Seq<char>)
    requires
        t.pending.len() == 0,
        o.pending_triggers.len() < engine::PENDING_CAP,
        !engine::waiting(o.pending_triggers, engine::parts_of(t, now)[0]),
    ensures
        engine::queued(o, t, now).pending_triggers == o.pending_triggers.push(
            engine::parts_of(t, now)[0],
        ),
{
    let parts = engine::parts_of(t, now);
    reveal_with_fuel(engine::not_waiting, 2);
    assert(parts.drop_last() =~= Seq::empty());
    assert(engine::not_waiting(o.pending_triggers, parts) =~= parts);
    assert(o.pending_triggers + parts =~= o.pending_triggers.push(parts[0]));
}

// ── Watch lists ───────────────────────────────────────────────────────

/// Removing a text leaves every other one, and not that one.
pub proof fn removed_text_is_gone(v: Seq<Seq<char>>, s: Seq<char>, other: Seq<char>)
    ensures
        !records::without(v, s).contains(s),
        other != s ==> records::without(v, s).contains(other) == v.contains(other),
    decreases v.len(),
{
    if v.len() > 0 {
        let front = v.drop_last();
        removed_text_is_gone(front, s, other);
        let rest = records::without(front, s);
        let kept = records::without(v, s);
        assert(v =~= front.push(v.last()));
        if front.contains(other) {
            let k = choose|k: int| 0 <= k < front.len() && front[k] == other;
            assert(v[k] == other);
        }
        if v.last() == other {
            assert(v[v.len() - 1] == other);
        }
        if v.contains(other) && v.last() != other {
            let k = choose|k: int| 0 <= k < v.len() && v[k] == other;
            assert(front[k] == other);
        }
        if v.last() != s {
            assert(kept == rest.push(v.last()));
            if kept.contains(s) {
                let k = choose|k: int| 0 <= k < kept.len() && kept[k] == s;
                assert(rest[k] == s);
            }
            if rest.contains(other) {
                let k = choose|k: int| 0 <= k < rest.len() && rest[k] == other;
                assert(kept[k] == other);
            }
            if v.last() == other {
                assert(kept[kept.len() - 1] == other);
            }
            if kept.contains(other) && v.last() != other {
                let k = choose|k: int| 0 <= k < kept.len() && kept[k] == other;
                assert(rest[k] == other);
            }
        }
    }
}

// ── What is read is what was written ──────────────────────────────────

/// What the store answers when it holds a document.
pub open spec fn held(doc: JsonView) -> JsonView {
    JsonView::Object(map!["value"@ => doc])
}

/// A document other than null is read as it was stored.
pub proof fn stored_document_is_read(doc: JsonView)
    requires
        doc !is Null,
    ensures
        state::stored_value(held(doc)) == Some(doc),
{
}

/// The names in the documents of the store differ.
proof fn names_differ()
    ensures
        "busy"@ != "since"@,
        "token"@ != "target_id"@,
        "token"@ != "action"@,
{
    reveal_strlit("busy");
    reveal_strlit("since");
    reveal_strlit("token");
    reveal_strlit("target_id");
    reveal_strlit("action");
    assert("busy"@.len() != "since"@.len());
    assert("token"@.len() != "target_id"@.len());
    assert("token"@.len() != "action"@.len());
}

/// The clock that was stored is the clock that is read.
pub proof fn stored_clock_is_read(now: Seq<char>)
    ensures
        state::clock_of(
            Ok(state::stored_value(held(JsonView::Object(map!["now"@ => JsonView::Text(now)])))),
        ) == Some(now),
{
}

/// The kill switch is read as it was set; where nothing is stored, nothing is
/// paused.
pub proof fn kill_switch_is_read(paused: bool)
    ensures
        state::paused_of(Ok(state::stored_value(held(state::pause_doc(paused))))) == paused,
        !state::paused_of(Ok(None)),
{
}

/// A busy mark says busy until it is stale; no mark says idle.
pub proof fn busy_mark_is_read(since: Seq<char>, now: Seq<char>)
    ensures
        state::busy_of(Ok(state::stored_value(held(state::busy_doc(since)))), now) == (
        time::seconds(since, now) matches Some(age) && age < 1800),
        !state::busy_of(Ok(None), now),
{
    names_differ();
}

/// A standing grant that was written is read as one.
pub proof fn standing_grant_is_read()
    ensures
        authorize::grants_always(state::stored_value(held(authorize::grant_doc()))),
        !authorize::grants_always(None),
{
}

/// The token of a question that waits is read as it was written.
pub proof fn waiting_question_is_read(token: Seq<char>, target: Seq<char>, action: Seq<char>)
    ensures
        state::stored_value(held(authorize::pending_doc(token, target, action))) matches Some(doc)
            && doc.text_at("token"@) == Some(token),
{
    names_differ();
}

// ── Order of records ──────────────────────────────────────────────────

/// Of three texts in order, the first is not after the last.
proof fn order_is_transitive(a: Seq<char>, b: Seq<char>, c: Seq<char>)
    requires
        !text::precedes(b, a),
        !text::precedes(c, b),
    ensures
        !text::precedes(c, a),
    decreases a.len(),
{
    if a.len() > 0 && b.len() > 0 && c.len() > 0 {
        if a[0] == b[0] && b[0] == c[0] {
            order_is_transitive(a.skip(1), b.skip(1), c.skip(1));
        }
    }
}

/// No text is before one that is before it.
proof fn order_is_strict(a: Seq<char>, b: Seq<char>)
    requires
        text::precedes(a, b),
    ensures
        !text::precedes(b, a),
    decreases a.len(),
{
    if a.len() > 0 && b.len() > 0 && a[0] == b[0] {
        order_is_strict(a.skip(1), b.skip(1));
    }
}

/// No record is younger than one after it.
pub open spec fn in_order(v: Seq<OrchestratorView>) -> bool {
    forall|i: int, j: int|
        0 <= i < j < v.len() ==> !text::precedes(
            (#[trigger] v[j]).created_at,
            (#[trigger] v[i]).created_at,
        )
}

/// The records created at a given time, in order.
pub open spec fn created_when(v: Seq<OrchestratorView>, at: Seq<char>) -> Seq<OrchestratorView>
    decreases v.len(),
{
    if v.len() == 0 {
        v
    } else if v.last().created_at == at {
        created_when(v.drop_last(), at).push(v.last())
    } else {
        created_when(v.drop_last(), at)
    }
}

/// Settling a record keeps the order, the other records, and the order of
/// those created at the same time.
proof fn settled_keeps_order(v: Seq<OrchestratorView>, o: OrchestratorView, at: Seq<char>)
    requires
        in_order(v),
    ensures
        in_order(state::settled(v, o)),
        state::settled(v, o).to_multiset() == v.to_multiset().insert(o),
        created_when(state::settled(v, o), at) == created_when(v.push(o), at),
        forall|k: int|
            0 <= k < state::settled(v, o).len() ==> (#[trigger] state::settled(v, o)[k]) == o
                || v.contains(state::settled(v, o)[k]),
    decreases v.len(),
{
    broadcast use vstd::seq_lib::group_to_multiset_ensures;

    let r = state::settled(v, o);
    if v.len() > 0 && text::precedes(o.created_at, v.last().created_at) {
        let front = v.drop_last();
        let last = v.last();
        assert(in_order(front)) by {
            assert forall|i: int, j: int| 0 <= i < j < front.len() implies !text::precedes(
                (#[trigger] front[j]).created_at,
                (#[trigger] front[i]).created_at,
            ) by {
                assert(front[j] == v[j] && front[i] == v[i]);
            }
        }
        settled_keeps_order(front, o, at);
        let inner = state::settled(front, o);
        assert(r == inner.push(last));
        assert forall|i: int, j: int| 0 <= i < j < r.len() implies !text::precedes(
            (#[trigger] r[j]).created_at,
            (#[trigger] r[i]).created_at,
        ) by {
            if j < inner.len() {
                assert(r[i] == inner[i] && r[j] == inner[j]);
            } else {
                assert(r[j] == last && r[i] == inner[i]);
                if inner[i] == o {
                    order_is_strict(o.created_at, last.created_at);
                } else {
                    let k = choose|k: int| 0 <= k < front.len() && front[k] == inner[i];
                    assert(v[k] == r[i] && v[v.len() - 1] == last);
                }
            }
        }
        assert(v =~= front.push(last));
        assert(r.to_multiset() == inner.to_multiset().insert(last));
        assert(v.to_multiset() == front.to_multiset().insert(last));
        assert(r.to_multiset() =~= v.to_multiset().insert(o));
        assert(r.drop_last() == inner);
        assert(v.push(o).drop_last() == v);
        assert(front.push(o).drop_last() == front);
        if o.created_at == last.created_at {
            order_is_strict(o.created_at, last.created_at);
        }
        assert(r.last() == last && v.push(o).last() == o && front.push(o).last() == o);
        let f = created_when(front, at);
        assert(created_when(front.push(o), at) == if o.created_at == at {
            f.push(o)
        } else {
            f
        });
        assert(created_when(v, at) == if last.created_at == at {
            f.push(last)
        } else {
            f
        });
        assert forall|k: int| 0 <= k < r.len() implies (#[trigger] r[k]) == o || v.contains(r[k]) by {
            if k < inner.len() {
                assert(r[k] == inner[k]);
                if inner[k] != o {
                    let m = choose|m: int| 0 <= m < front.len() && front[m] == inner[k];
                    assert(v[m] == r[k]);
                }
            } else {
                assert(v[v.len() - 1] == r[k]);
            }
        }
    } else {
        assert(r == v.push(o));
        assert forall|i: int, j: int| 0 <= i < j < r.len() implies !text::precedes(
            (#[trigger] r[j]).created_at,
            (#[trigger] r[i]).created_at,
        ) by {
            if j < v.len() {
                assert(r[i] == v[i] && r[j] == v[j]);
            } else {
                assert(r[i] == v[i] && r[j] == o);
                if i < v.len() - 1 {
                    assert(!text::precedes(v[v.len() - 1].created_at, v[i].created_at));
                    order_is_transitive(v[i].created_at, v.last().created_at, o.created_at);
                }
            }
        }
        assert forall|k: int| 0 <= k < r.len() implies (#[trigger] r[k]) == o || v.contains(r[k]) by {
            if k < v.len() {
                assert(r[k] == v[k]);
            }
        }
    }
}

/// Records are listed by the time of their creation: the list is in order, has
/// exactly the records there are, and leaves those created at the same time as
/// they were.
pub proof fn listing_is_a_stable_sort(v: Seq<OrchestratorView>, at: Seq<char>)
    ensures
        in_order(state::by_creation(v)),
        state::by_creation(v).to_multiset() == v.to_multiset(),
        created_when(state::by_creation(v), at) == created_when(v, at),
    decreases v.len(),
{
    broadcast use vstd::seq_lib::group_to_multiset_ensures;

    if v.len() > 0 {
        let front = v.drop_last();
        listing_is_a_stable_sort(front, at);
        let sorted = state::by_creation(front);
        settled_keeps_order(sorted, v.last(), at);
        assert(v =~= front.push(v.last()));
        assert(sorted.push(v.last()).drop_last() == sorted);
    }
}

} // verus!

//! What a computation may ask of the outside, as a set of kinds of requests.

use vstd::prelude::*;

use crate::host::{HostFn, RequestView, Script};
use crate::json::JsonView;
use crate::state;

verus! {

/// The kinds of requests.
pub enum Kind {
    Call(HostFn),
    Decode,
    NextToken,
    NextId,
    AcquireLease,
    ReleaseLease,
    Abort,
}

impl RequestView {
    /// The kind of a request.
    pub open spec fn kind(self) -> Kind {
        match self {
            RequestView::Call(f, _) => Kind::Call(f),
            RequestView::Decode(_) => Kind::Decode,
            RequestView::NextToken => Kind::NextToken,
            RequestView::NextId => Kind::NextId,
            RequestView::AcquireLease => Kind::AcquireLease,
            RequestView::ReleaseLease => Kind::ReleaseLease,
            RequestView::Abort(_) => Kind::Abort,
        }
    }
}

/// From `s` to `t` requests were added, none taken back, and each one added is
/// of one of the kinds.
pub open spec fn only(s: Script, t: Script, kinds: Set<Kind>) -> bool {
    &&& s.asked.len() <= t.asked.len()
    &&& forall|i: int| 0 <= i < s.asked.len() ==> #[trigger] t.asked[i] == s.asked[i]
    &&& forall|i: int|
        s.asked.len() <= i < t.asked.len() ==> kinds.contains((#[trigger] t.asked[i]).kind())
}

/// What holds of two stretches holds of both together.
pub proof fn only_both(s: Script, t: Script, u: Script, kinds: Set<Kind>)
    requires
        only(s, t, kinds),
        only(t, u, kinds),
    ensures
        only(s, u, kinds),
{
    assert forall|i: int| 0 <= i < s.asked.len() implies #[trigger] u.asked[i] == s.asked[i] by {
        assert(t.asked[i] == s.asked[i]);
    }
    assert forall|i: int| s.asked.len() <= i < u.asked.len() implies kinds.contains(
        (#[trigger] u.asked[i]).kind(),
    ) by {
        if i < t.asked.len() {
            assert(u.asked[i] == t.asked[i]);
        }
    }
}

/// More kinds allow what fewer allow.
pub proof fn only_more(s: Script, t: Script, fewer: Set<Kind>, more: Set<Kind>)
    requires
        only(s, t, fewer),
        fewer.subset_of(more),
    ensures
        only(s, t, more),
{
}

/// A request adds itself.
pub proof fn only_ask(s: Script, q: RequestView, kinds: Set<Kind>)
    requires
        kinds.contains(q.kind()),
    ensures
        only(s, s.ask(q).0, kinds),
        s.ask(q).0.asked == s.asked.push(q),
{
}

/// A call of a host function adds itself.
pub proof fn only_call(s: Script, f: HostFn, input: JsonView, kinds: Set<Kind>)
    requires
        kinds.contains(Kind::Call(f)),
    ensures
        only(s, s.call(f, input).0, kinds),
        s.call(f, input).0.asked == s.asked.push(RequestView::Call(f, input)),
{
    only_ask(s, RequestView::Call(f, input), kinds);
}

/// Work under the lease that comes to a result gives the lease back last; its
/// result is what it was.
pub proof fn lease_is_given_back<T>(run: (Script, Option<T>))
    ensures
        state::released(run).1 is Some ==> state::released(run).0.asked == run.0.asked.push(
            RequestView::ReleaseLease,
        ) && state::released(run).1 == run.1,
        run.1 is Some ==> state::released(run).0.asked == run.0.asked.push(
            RequestView::ReleaseLease,
        ),
        run.1 is None ==> state::released(run) == run,
{
}

/// Giving the lease back is all that is added.
pub proof fn only_released<T>(s: Script, run: (Script, Option<T>), kinds: Set<Kind>)
    requires
        only(s, run.0, kinds),
        kinds.contains(Kind::ReleaseLease),
    ensures
        only(s, state::released(run).0, kinds),
{
    if run.1 is Some {
        only_ask(run.0, RequestView::ReleaseLease, kinds);
        only_both(s, run.0, state::released(run).0, kinds);
    }
}

/// Reading documents and records.
pub open spec fn reading() -> Set<Kind> {
    set![Kind::Call(HostFn::StoreGet), Kind::Call(HostFn::StoreList), Kind::Decode]
}

/// Loading a record only reads.
pub proof fn loading_reads(id: Seq<char>, s: Script)
    ensures
        only(s, state::load_orchestrator_run(id, s).0, reading()),
{
    let input = state::place(state::ORCH_COLLECTION@, id);
    only_call(s, HostFn::StoreGet, input, reading());
    let (t, r) = state::store_get_run(state::ORCH_COLLECTION@, id, s);
    if let Some(Ok(Some(doc))) = r {
        only_ask(t, RequestView::Decode(doc), reading());
        only_both(s, t, t.decode(doc).0, reading());
    }
}

/// Reading documents as records only reads.
proof fn decoding_reads(
    docs: Seq<(Seq<char>, JsonView)>,
    done: Seq<crate::records::OrchestratorView>,
    s: Script,
)
    ensures
        only(s, state::decode_all_run(docs, done, s).0, reading()),
    decreases docs.len(),
{
    if docs.len() > 0 {
        only_ask(s, RequestView::Decode(docs[0].1), reading());
        let (t, o) = s.decode(docs[0].1);
        match o {
            None => {},
            Some(None) => {
                decoding_reads(docs.skip(1), done, t);
                only_both(s, t, state::decode_all_run(docs.skip(1), done, t).0, reading());
            },
            Some(Some(o)) => {
                decoding_reads(docs.skip(1), done.push(o), t);
                only_both(s, t, state::decode_all_run(docs.skip(1), done.push(o), t).0, reading());
            },
        }
    }
}

/// Listing the records only reads.
pub proof fn listing_reads(s: Script)
    ensures
        only(s, state::list_orchestrators_run(s).0, reading()),
{
    let input = JsonView::Object(
        map!["collection"@ => JsonView::Text(state::ORCH_COLLECTION@)],
    );
    only_call(s, HostFn::StoreList, input, reading());
    let (t, r) = state::store_list_run(state::ORCH_COLLECTION@, s);
    if let Some(Ok(docs)) = r {
        decoding_reads(docs, Seq::empty(), t);
        only_both(s, t, state::decode_all_run(docs, Seq::empty(), t).0, reading());
    }
}

} // verus!

//! Laws of cross-folder approval.

use vstd::prelude::*;

use crate::authorize::{self, GateView};
use crate::control;
use crate::host::{HostFn, ReplyView, RequestView, Script};
use crate::host_laws::{self, Kind};
use crate::json::JsonView;
use crate::record_laws;
use crate::state;
use crate::text;
use crate::text_laws;

verus! {

/// The request for who calls.
pub open spec fn scope_request() -> RequestView {
    RequestView::Call(HostFn::CallerScope, JsonView::Object(Map::empty()))
}

/// The request for the target.
pub open spec fn target_request(target_id: Seq<char>) -> RequestView {
    RequestView::Call(HostFn::ListSessions, authorize::query(target_id))
}

/// The host answers who calls and that the target exists.
pub open spec fn knows(
    s: Script,
    scope: JsonView,
    listed: JsonView,
    target_id: Seq<char>,
    target: JsonView,
) -> bool {
    &&& s.left.len() >= 2
    &&& s.left[0] == ReplyView::Host(Ok(scope))
    &&& s.left[1] == ReplyView::Host(Ok(listed))
    &&& authorize::find_session(authorize::sessions_in(listed), target_id) == Some(target)
}

/// The session itself and the sessions of the caller's folder are acted on
/// immediately: nothing but caller and target is looked at.
pub proof fn own_folder_is_free(
    target_id: Seq<char>,
    action: Seq<char>,
    s: Script,
    scope: JsonView,
    listed: JsonView,
    target: JsonView,
)
    requires
        knows(s, scope, listed, target_id, target),
        authorize::near(scope, target_id, target),
    ensures
        authorize::ensure_cross_folder_allowed_run(target_id, action, s) == (
            Script {
                left: s.left.skip(2),
                asked: s.asked.push(scope_request()).push(target_request(target_id)),
            },
            Some(Ok::<GateView, Seq<char>>(GateView::Ready)),
        ),
{
    assert(s.left.skip(1).skip(1) =~= s.left.skip(2));
}

/// Another folder is out of reach for a caller without a session.
pub proof fn foreign_folder_needs_a_calling_session(
    target_id: Seq<char>,
    action: Seq<char>,
    s: Script,
    scope: JsonView,
    listed: JsonView,
    target: JsonView,
)
    requires
        knows(s, scope, listed, target_id, target),
        !authorize::near(scope, target_id, target),
        authorize::non_empty(scope.text_at("session_id"@)) is None,
    ensures
        authorize::ensure_cross_folder_allowed_run(target_id, action, s) == (
            Script {
                left: s.left.skip(2),
                asked: s.asked.push(scope_request()).push(target_request(target_id)),
            },
            Some(Err::<GateView, Seq<char>>(authorize::NO_CALLER@)),
        ),
{
    assert(s.left.skip(1).skip(1) =~= s.left.skip(2));
}

/// Another folder needs approval, whoever the calling session is.
pub proof fn foreign_folder_needs_approval(
    target_id: Seq<char>,
    action: Seq<char>,
    s: Script,
    scope: JsonView,
    listed: JsonView,
    target: JsonView,
    caller: Seq<char>,
)
    requires
        knows(s, scope, listed, target_id, target),
        !authorize::near(scope, target_id, target),
        authorize::non_empty(scope.text_at("session_id"@)) == Some(caller),
    ensures
        authorize::ensure_cross_folder_allowed_run(target_id, action, s)
            == authorize::approval_run(
            caller,
            target_id,
            text::or_else(target.text_at("name"@), target_id),
            action,
            Script {
                left: s.left.skip(2),
                asked: s.asked.push(scope_request()).push(target_request(target_id)),
            },
        ),
{
    assert(s.left.skip(1).skip(1) =~= s.left.skip(2));
}

/// After *Approve always* the session acts on any session without asking
/// again: the grant is read, and that is all.
pub proof fn always_is_remembered(
    caller: Seq<char>,
    target_id: Seq<char>,
    name: Seq<char>,
    action: Seq<char>,
    s: Script,
)
    requires
        s.left.len() >= 1,
        s.left[0] == ReplyView::Host(Ok(record_laws::held(authorize::grant_doc()))),
    ensures
        authorize::approval_run(caller, target_id, name, action, s) == (
            Script {
                left: s.left.skip(1),
                asked: s.asked.push(
                    RequestView::Call(
                        HostFn::StoreGet,
                        state::place(authorize::ALWAYS_COLLECTION@, caller),
                    ),
                ),
            },
            Some(Ok::<GateView, Seq<char>>(GateView::Ready)),
        ),
{
    record_laws::standing_grant_is_read();
}

/// An answer that allows the action.
pub open spec fn approves(ans: JsonView) -> bool {
    let answer = text::or_else(ans.text_at("answer"@), ""@);
    &&& ans.text_at("status"@) == Some("answered"@)
    &&& !authorize::denies(ans)
    &&& text::begins(answer, authorize::APPROVE_ALWAYS@) || text::begins(
        answer,
        authorize::APPROVE_ONCE@,
    )
}

/// The request that writes a grant down.
pub open spec fn grant_request(collection: Seq<char>, key: Seq<char>) -> RequestView {
    RequestView::Call(
        HostFn::StorePut,
        state::placed(collection, key, authorize::grant_doc()),
    )
}

/// The first answer is a standing grant.
pub open spec fn standing_grant(s: Script) -> bool {
    &&& s.left.len() > 0
    &&& s.left[0] matches ReplyView::Host(Ok(out))
    &&& authorize::grants_always(state::stored_value(out))
}

/// The third answer is the user's approval, and the last request of `t` writes
/// the grant that goes with it.
pub open spec fn user_approved(
    caller: Seq<char>,
    target_id: Seq<char>,
    s: Script,
    t: Script,
) -> bool {
    &&& s.left.len() > 2
    &&& s.left[2] matches ReplyView::Host(Ok(ans))
    &&& approves(ans)
    &&& t.asked.last() == if text::begins(
        text::or_else(ans.text_at("answer"@), ""@),
        authorize::APPROVE_ALWAYS@,
    ) {
        grant_request(authorize::ALWAYS_COLLECTION@, caller)
    } else {
        grant_request(authorize::ONCE_COLLECTION@, authorize::pair_key(caller, target_id))
    }
}

/// Nothing but a standing grant or the user's approval lets an action on
/// another folder go ahead. On approval the grant has been written for the
/// host to see: for every session after *Approve always*, else for this pair.
pub proof fn foreign_folder_goes_ahead_only_with_a_grant(
    caller: Seq<char>,
    target_id: Seq<char>,
    name: Seq<char>,
    action: Seq<char>,
    s: Script,
)
    requires
        authorize::approval_run(caller, target_id, name, action, s).1 == Some(
            Ok::<GateView, Seq<char>>(GateView::Ready),
        ),
    ensures
        standing_grant(s) || user_approved(
            caller,
            target_id,
            s,
            authorize::approval_run(caller, target_id, name, action, s).0,
        ),
{
    reveal_strlit("");
    reveal_strlit("answered");
    assert(""@ != "answered"@) by {
        assert(""@.len() != "answered"@.len());
    }
    if s.left.len() >= 2 {
        assert(s.left.skip(1).skip(1) =~= s.left.skip(2));
    }
}

/// A denial is refused, whatever the answer says besides, and settles the
/// question: no grant is written.
pub proof fn denial_is_a_refusal(
    caller: Seq<char>,
    target_id: Seq<char>,
    name: Seq<char>,
    action: Seq<char>,
    ans: JsonView,
    s: Script,
)
    requires
        authorize::denies(ans),
        s.left.len() >= 1,
        s.left[0] is Host,
    ensures
        authorize::settle_run(caller, target_id, name, action, ans, s) == (
            Script {
                left: s.left.skip(1),
                asked: s.asked.push(
                    RequestView::Call(
                        HostFn::StoreDelete,
                        state::place(
                            authorize::PENDING_COLLECTION@,
                            authorize::pair_key(caller, target_id),
                        ),
                    ),
                ),
            },
            Some(
                Err::<GateView, Seq<char>>(
                    "the user denied "@ + action + " on cross-folder session \""@ + name + "\""@,
                ),
            ),
        ),
{
}

/// An answer that neither approves nor denies is a refusal too.
pub proof fn other_answers_are_refusals(
    caller: Seq<char>,
    target_id: Seq<char>,
    name: Seq<char>,
    action: Seq<char>,
    ans: JsonView,
    s: Script,
)
    requires
        ans.text_at("status"@) == Some("answered"@),
        !approves(ans),
        authorize::settle_run(caller, target_id, name, action, ans, s).1 is Some,
    ensures
        authorize::settle_run(caller, target_id, name, action, ans, s).1->0 is Err,
{
}

/// While the user has not answered, the tool says that it waits; no second
/// question is put.
pub proof fn no_answer_is_waited_for(
    caller: Seq<char>,
    target_id: Seq<char>,
    name: Seq<char>,
    action: Seq<char>,
    token: Seq<char>,
    pending: JsonView,
    ans: JsonView,
    s: Script,
)
    requires
        pending.text_at("token"@) == Some(token),
        s.left.len() >= 1,
        s.left[0] == ReplyView::Host(Ok(ans)),
        ans.text_at("status"@) != Some("answered"@),
    ensures
        authorize::answer_run(caller, target_id, name, action, pending, s) == (
            Script {
                left: s.left.skip(1),
                asked: s.asked.push(
                    RequestView::Call(
                        HostFn::GetAnswer,
                        JsonView::Object(map!["token"@ => JsonView::Text(token)]),
                    ),
                ),
            },
            Some(
                Ok::<GateView, Seq<char>>(
                    GateView::Awaiting(
                        authorize::awaiting_doc(
                            authorize::still_waiting_text(action, name),
                            target_id,
                        ),
                    ),
                ),
            ),
        ),
{
    reveal_strlit("");
    reveal_strlit("answered");
    assert(""@ != "answered"@) by {
        assert(""@.len() != "answered"@.len());
    }
}

/// What approval may ask of the outside: to look around, to put the question
/// and to keep the books. None of it acts on a session.
pub open spec fn approval_kinds() -> Set<Kind> {
    set![
        Kind::Call(HostFn::CallerScope),
        Kind::Call(HostFn::ListSessions),
        Kind::Call(HostFn::StoreGet),
        Kind::Call(HostFn::StorePut),
        Kind::Call(HostFn::StoreDelete),
        Kind::Call(HostFn::AskUser),
        Kind::Call(HostFn::GetAnswer),
        Kind::NextToken,
    ]
}

/// Approval acts on no session.
pub proof fn approval_acts_on_no_session(target_id: Seq<char>, action: Seq<char>, s: Script)
    ensures
        host_laws::only(
            s,
            authorize::ensure_cross_folder_allowed_run(target_id, action, s).0,
            approval_kinds(),
        ),
{
    let t = authorize::ensure_cross_folder_allowed_run(target_id, action, s).0;
    assert(t.asked.len() >= s.asked.len());
}

/// An action that needs approval is carried out exactly when approval was
/// given, and then once, last, and as it was asked for.
pub proof fn only_approved_actions_are_carried_out(
    target_id: Seq<char>,
    action: Seq<char>,
    f: HostFn,
    input: JsonView,
    s: Script,
)
    ensures
        ({
            let (t, gate) = authorize::ensure_cross_folder_allowed_run(target_id, action, s);
            let u = control::gated_action_run(target_id, action, f, input, s).0;
            if gate == Some(Ok::<GateView, Seq<char>>(GateView::Ready)) {
                u.asked == t.asked.push(RequestView::Call(f, input))
            } else {
                u.asked == t.asked
            }
        }),
        host_laws::only(
            s,
            authorize::ensure_cross_folder_allowed_run(target_id, action, s).0,
            approval_kinds(),
        ),
{
    approval_acts_on_no_session(target_id, action, s);
}

/// Discovery asks for no approval: one search, nothing else.
pub proof fn discovery_needs_no_approval(args: JsonView, s: Script)
    ensures
        control::find_session_run(args, s).0.asked == s.asked.push(
            RequestView::Call(
                HostFn::ListSessions,
                authorize::query(text::or_else(args.text_at("query"@), ""@)),
            ),
        ),
{
}

/// Tokens with different numbers are different, so the questions of one
/// process can be told apart.
pub proof fn tokens_tell_questions_apart(
    caller1: Seq<char>,
    target1: Seq<char>,
    n1: u64,
    caller2: Seq<char>,
    target2: Seq<char>,
    n2: u64,
)
    requires
        n1 != n2,
    ensures
        authorize::token_text(caller1, target1, n1) != authorize::token_text(caller2, target2, n2),
{
    if authorize::token_text(caller1, target1, n1) == authorize::token_text(caller2, target2, n2) {
        text_laws::number_behind_dash_is_unique(
            "sc-"@ + caller1 + "-"@ + target1,
            n1 as nat,
            "sc-"@ + caller2 + "-"@ + target2,
            n2 as nat,
        );
    }
}

} // verus!

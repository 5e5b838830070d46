//! Cross-folder approval for the session-control tools that change something.
//!
//! Targets in the caller's own folder proceed immediately. For targets in
//! another folder the caller's user is asked (*Approve once* / *Approve
//! always* / *Deny*). Grants are written into the document store, where the
//! host can see and enforce them.

use vstd::prelude::*;
use vstd::string::*;

use crate::host::{self, Host, HostFn, RequestView, Script};
use crate::json::{self, Fields, Json, JsonView};
use crate::state;
use crate::text::{self, same};

verus! {

/// The sessions that may control every session.
pub const ALWAYS_COLLECTION: &'static str = "cross_folder_always";

/// The pairs of caller and target that may act once.
pub const ONCE_COLLECTION: &'static str = "cross_folder_once";

/// The questions that wait for an answer.
pub const PENDING_COLLECTION: &'static str = "cross_folder_pending";

/// The answer that allows one action.
pub const APPROVE_ONCE: &'static str = "Approve once";

/// The answer that allows every action of the calling session.
pub const APPROVE_ALWAYS: &'static str = "Approve always";

/// The answer that refuses.
pub const DENY: &'static str = "Deny";

/// Whether an action may go ahead.
#[derive(Debug)]
pub enum Gate {
    /// The action may be carried out now.
    Ready,
    /// The user has been asked; this is the result of the tool.
    Awaiting(Json),
}

/// What a [`Gate`] holds.
#[verifier::ext_equal]
pub enum GateView {
    Ready,
    Awaiting(JsonView),
}

impl DeepView for Gate {
    type V = GateView;

    open spec fn deep_view(&self) -> GateView {
        match self {
            Gate::Ready => GateView::Ready,
            Gate::Awaiting(v) => GateView::Awaiting(v@),
        }
    }
}

/// The text, where it is not empty.
pub open spec fn non_empty(s: Option<Seq<char>>) -> Option<Seq<char>> {
    match s {
        Some(s) => if s.len() == 0 {
            None
        } else {
            Some(s)
        },
        None => None,
    }
}

/// The text, where it is not empty.
pub fn non_empty_str(s: Option<&str>) -> (r: Option<&str>)
    ensures
        r.deep_view() == non_empty(s.deep_view()),
{
    match s {
        Some(s) => if s.is_empty() {
            None
        } else {
            Some(s)
        },
        None => None,
    }
}

// ── The target ────────────────────────────────────────────────────────

/// The first session with the id.
pub open spec fn find_session(sessions: Seq<JsonView>, id: Seq<char>) -> Option<JsonView>
    decreases sessions.len(),
{
    if sessions.len() == 0 {
        None
    } else if sessions[0].text_at("session_id"@) == Some(id) {
        Some(sessions[0])
    } else {
        find_session(sessions.skip(1), id)
    }
}

/// The first session with the id.
pub fn find_in<'a>(sessions: &'a Vec<Json>, id: &str) -> (r: Option<&'a Json>)
    ensures
        r.deep_view() == find_session(sessions.deep_view(), id@),
{
    let ghost all = sessions.deep_view();
    let mut i: usize = 0;
    assert(all.skip(0) == all);
    while i < sessions.len()
        invariant
            all == sessions.deep_view(),
            0 <= i <= sessions@.len(),
            find_session(all, id@) == find_session(all.skip(i as int), id@),
        decreases sessions@.len() - i,
    {
        assert(all.skip(i as int).skip(1) == all.skip(i + 1));
        assert(all.skip(i as int)[0] == sessions@[i as int]@);
        if let Some(found) = sessions[i].text_at("session_id") {
            if same(found, id) {
                return Some(&sessions[i]);
            }
        }
        i = i + 1;
    }
    None
}

/// The search for sessions.
pub open spec fn query(q: Seq<char>) -> JsonView {
    JsonView::Object(map!["query"@ => JsonView::Text(q)])
}

/// The search for sessions.
pub fn query_json(q: &str) -> (r: Json)
    ensures
        r@ == query(q@),
{
    Fields::new().with("query", Json::text(q)).done()
}

/// The sessions in an answer.
pub open spec fn sessions_in(listed: JsonView) -> Seq<JsonView> {
    match listed.array_at("sessions"@) {
        Some(sessions) => sessions,
        None => Seq::empty(),
    }
}

/// Looks a session up by its id.
pub open spec fn lookup_session_run(id: Seq<char>, s: Script) -> (
    Script,
    Option<Result<JsonView, Seq<char>>>,
) {
    let (s, r) = s.call(HostFn::ListSessions, query(id));
    (
        s,
        match r {
            None => None,
            Some(Err(e)) => Some(Err(e)),
            Some(Ok(listed)) => match find_session(sessions_in(listed), id) {
                Some(found) => Some(Ok(found)),
                None => Some(Err("session not found: "@ + id)),
            },
        },
    )
}

/// Looks a session up by its id.
pub fn lookup_session(id: &str, host: &mut Host) -> (r: Option<Result<Json, String>>)
    ensures
        final(host)@ == lookup_session_run(id@, old(host)@).0,
        host::outcome(r) == lookup_session_run(id@, old(host)@).1,
{
    match host.call(HostFn::ListSessions, query_json(id))? {
        Err(e) => Some(Err(e)),
        Ok(listed) => {
            if let Some(sessions) = listed.array_at("sessions") {
                if let Some(found) = find_in(sessions, id) {
                    return Some(Ok(found.clone()));
                }
            }
            Some(Err("session not found: ".to_owned().concat(id)))
        },
    }
}

// ── Approval ──────────────────────────────────────────────────────────

/// Whether what was read of a standing grant allows the caller everything.
pub open spec fn grants_always(read: Option<JsonView>) -> bool {
    match read {
        Some(doc) => doc.bool_at("approved"@) != Some(false),
        None => false,
    }
}

/// Reads the standing grant of a caller.
pub open spec fn store_has_always_run(caller_id: Seq<char>, s: Script) -> (
    Script,
    Option<Result<bool, Seq<char>>>,
) {
    let (s, r) = state::store_get_run(ALWAYS_COLLECTION@, caller_id, s);
    (
        s,
        match r {
            None => None,
            Some(Err(e)) => Some(Err(e)),
            Some(Ok(read)) => Some(Ok(grants_always(read))),
        },
    )
}

/// Whether the caller may control every session.
pub fn store_has_always(caller_id: &str, host: &mut Host) -> (r: Option<Result<bool, String>>)
    ensures
        final(host)@ == store_has_always_run(caller_id@, old(host)@).0,
        host::outcome(r) == store_has_always_run(caller_id@, old(host)@).1,
{
    match state::store_get(ALWAYS_COLLECTION, caller_id, host)? {
        Err(e) => Some(Err(e)),
        Ok(None) => Some(Ok(false)),
        Ok(Some(doc)) => match doc.bool_at("approved") {
            Some(approved) => Some(Ok(approved)),
            None => Some(Ok(true)),
        },
    }
}

/// A token that ties an answer to its question.
pub open spec fn token_text(caller: Seq<char>, target: Seq<char>, n: u64) -> Seq<char> {
    "sc-"@ + caller + "-"@ + target + "-"@ + text::decimal(n as nat)
}

/// A new token.
pub open spec fn new_token_run(caller: Seq<char>, target: Seq<char>, s: Script) -> (
    Script,
    Option<Seq<char>>,
) {
    let (s, n) = s.count(RequestView::NextToken);
    (
        s,
        match n {
            Some(n) => Some(token_text(caller, target, n)),
            None => None,
        },
    )
}

/// A new token: caller, target and a number, which is enough to tell the
/// questions of one process apart.
pub fn new_token(caller: &str, target: &str, host: &mut Host) -> (r: Option<String>)
    ensures
        final(host)@ == new_token_run(caller@, target@, old(host)@).0,
        r.deep_view() == new_token_run(caller@, target@, old(host)@).1,
{
    let n: u64 = host.next_token()?;
    Some(
        "sc-".to_owned().concat(caller).concat("-").concat(target).concat("-").concat(
            text::decimal_text(n).as_str(),
        ),
    )
}

/// The caller and the target as one key.
pub open spec fn pair_key(caller: Seq<char>, target: Seq<char>) -> Seq<char> {
    caller + "|"@ + target
}

/// The caller and the target as one key.
fn pair_key_text(caller: &str, target: &str) -> (r: String)
    ensures
        r@ == pair_key(caller@, target@),
{
    caller.to_owned().concat("|").concat(target)
}

/// That the user has been asked.
pub open spec fn awaiting_doc(message: Seq<char>, target: Seq<char>) -> JsonView {
    JsonView::Object(
        map![
            "status"@ => JsonView::Text("awaiting_approval"@),
            "message"@ => JsonView::Text(message),
            "target_session_id"@ => JsonView::Text(target)
        ],
    )
}

/// That the user has been asked.
fn awaiting(message: String, target: &str) -> (r: Gate)
    ensures
        r.deep_view() == GateView::Awaiting(awaiting_doc(message@, target@)),
{
    Gate::Awaiting(
        Fields::new().with("status", Json::text("awaiting_approval")).with(
            "message",
            Json::Text(message),
        ).with("target_session_id", Json::text(target)).done(),
    )
}

/// A grant.
pub open spec fn grant_doc() -> JsonView {
    JsonView::Object(map!["approved"@ => JsonView::Bool(true)])
}

/// Writes a grant down; the action may go ahead once it is written.
pub open spec fn grant_run(collection: Seq<char>, key: Seq<char>, s: Script) -> (
    Script,
    Option<Result<GateView, Seq<char>>>,
) {
    let (s, r) = state::store_put_run(collection, key, grant_doc(), s);
    (
        s,
        match r {
            None => None,
            Some(Err(e)) => Some(Err(e)),
            Some(Ok(_)) => Some(Ok(GateView::Ready)),
        },
    )
}

/// Writes a grant down; the action may go ahead once it is written.
fn grant(collection: &str, key: &str, host: &mut Host) -> (r: Option<Result<Gate, String>>)
    ensures
        final(host)@ == grant_run(collection@, key@, old(host)@).0,
        host::outcome(r) == grant_run(collection@, key@, old(host)@).1,
{
    let doc = Fields::new().with("approved", Json::Bool(true)).done();
    match state::store_put(collection, key, doc, host)? {
        Err(e) => Some(Err(e)),
        Ok(_) => Some(Ok(Gate::Ready)),
    }
}

/// A question that waits for its answer.
pub open spec fn pending_doc(token: Seq<char>, target: Seq<char>, action: Seq<char>) -> JsonView {
    JsonView::Object(
        map![
            "token"@ => JsonView::Text(token),
            "target_id"@ => JsonView::Text(target),
            "action"@ => JsonView::Text(action)
        ],
    )
}

/// The question.
pub open spec fn question_text(
    action: Seq<char>,
    name: Seq<char>,
    target: Seq<char>,
) -> Seq<char> {
    "Allow this session to "@ + action + " session \""@ + name + "\" ("@ + target
        + ") in another folder?"@
}

/// The question with its answers.
pub open spec fn question_doc(question: Seq<char>, token: Seq<char>) -> JsonView {
    JsonView::Object(
        map![
            "question"@ => JsonView::Text(question),
            "options"@ => json::texts_view(seq![APPROVE_ONCE@, APPROVE_ALWAYS@, DENY@]),
            "token"@ => JsonView::Text(token)
        ],
    )
}

/// What the caller is told once the user has been asked.
pub open spec fn waiting_text(action: Seq<char>, name: Seq<char>) -> Seq<char> {
    "Waiting for user approval to "@ + action + " cross-folder session \""@ + name
        + "\". Re-call this tool after they answer (Approve once / Approve always / Deny)."@
}

/// What the caller is told while there is no answer.
pub open spec fn still_waiting_text(action: Seq<char>, name: Seq<char>) -> Seq<char> {
    "Still waiting for user approval to "@ + action + " cross-folder session \""@ + name + "\"."@
}

/// Asks the user; the question is written down before it is put.
pub open spec fn ask_run(
    caller: Seq<char>,
    target: Seq<char>,
    name: Seq<char>,
    action: Seq<char>,
    s: Script,
) -> (Script, Option<Result<GateView, Seq<char>>>) {
    let (s, token) = new_token_run(caller, target, s);
    match token {
        None => (s, None),
        Some(token) => {
            let (s, r) = state::store_put_run(
                PENDING_COLLECTION@,
                pair_key(caller, target),
                pending_doc(token, target, action),
                s,
            );
            match r {
                None => (s, None),
                Some(Err(e)) => (s, Some(Err(e))),
                Some(Ok(_)) => {
                    let (s, r) = s.call(
                        HostFn::AskUser,
                        question_doc(question_text(action, name, target), token),
                    );
                    (
                        s,
                        match r {
                            None => None,
                            Some(Err(e)) => Some(Err(e)),
                            Some(Ok(_)) => Some(
                                Ok(
                                    GateView::Awaiting(
                                        awaiting_doc(waiting_text(action, name), target),
                                    ),
                                ),
                            ),
                        },
                    )
                },
            }
        },
    }
}

/// Asks the user; the question is written down before it is put.
fn ask(caller: &str, target: &str, name: &str, action: &str, host: &mut Host) -> (r: Option<
    Result<Gate, String>,
>)
    ensures
        final(host)@ == ask_run(caller@, target@, name@, action@, old(host)@).0,
        host::outcome(r) == ask_run(caller@, target@, name@, action@, old(host)@).1,
{
    let token = new_token(caller, target, host)?;
    let doc = Fields::new().with("token", Json::text(token.as_str())).with(
        "target_id",
        Json::text(target),
    ).with("action", Json::text(action)).done();
    let key = pair_key_text(caller, target);
    if let Err(e) = state::store_put(PENDING_COLLECTION, key.as_str(), doc, host)? {
        return Some(Err(e));
    }
    let question = "Allow this session to ".to_owned().concat(action).concat(
        " session \"",
    ).concat(name).concat("\" (").concat(target).concat(") in another folder?");
    let mut options: Vec<String> = Vec::new();
    options.push(APPROVE_ONCE.to_owned());
    options.push(APPROVE_ALWAYS.to_owned());
    options.push(DENY.to_owned());
    assert(options.deep_view() =~= seq![APPROVE_ONCE@, APPROVE_ALWAYS@, DENY@]);
    let input = Fields::new().with("question", Json::Text(question)).with(
        "options",
        Json::texts(&options),
    ).with("token", Json::Text(token)).done();
    if let Err(e) = host.call(HostFn::AskUser, input)? {
        return Some(Err(e));
    }
    let message = "Waiting for user approval to ".to_owned().concat(action).concat(
        " cross-folder session \"",
    ).concat(name).concat(
        "\". Re-call this tool after they answer (Approve once / Approve always / Deny).",
    );
    Some(Ok(awaiting(message, target)))
}

/// Whether an answer refuses.
pub open spec fn denies(ans: JsonView) -> bool {
    ans.bool_at("rejected"@) == Some(true) || text::or_else(ans.text_at("answer"@), ""@) == DENY@
}

/// Acts on an answer that has come.
pub open spec fn settle_run(
    caller: Seq<char>,
    target: Seq<char>,
    name: Seq<char>,
    action: Seq<char>,
    ans: JsonView,
    s: Script,
) -> (Script, Option<Result<GateView, Seq<char>>>) {
    let answer = text::or_else(ans.text_at("answer"@), ""@);
    let (s, gone) = state::store_delete_run(PENDING_COLLECTION@, pair_key(caller, target), s);
    if gone is None {
        (s, None)
    } else if denies(ans) {
        (
            s,
            Some(
                Err(
                    "the user denied "@ + action + " on cross-folder session \""@ + name + "\""@,
                ),
            ),
        )
    } else if text::begins(answer, APPROVE_ALWAYS@) {
        grant_run(ALWAYS_COLLECTION@, caller, s)
    } else if text::begins(answer, APPROVE_ONCE@) {
        grant_run(ONCE_COLLECTION@, pair_key(caller, target), s)
    } else {
        (
            s,
            Some(
                Err(
                    "the user did not approve "@ + action + " on \""@ + name + "\" (answer: "@
                        + answer + ")"@,
                ),
            ),
        )
    }
}

/// Acts on an answer that has come: the question is settled, whatever it is.
fn settle(
    caller: &str,
    target: &str,
    name: &str,
    action: &str,
    ans: &Json,
    host: &mut Host,
) -> (r: Option<Result<Gate, String>>)
    ensures
        final(host)@ == settle_run(caller@, target@, name@, action@, ans@, old(host)@).0,
        host::outcome(r) == settle_run(caller@, target@, name@, action@, ans@, old(host)@).1,
{
    let rejected = match ans.bool_at("rejected") {
        Some(rejected) => rejected,
        None => false,
    };
    let answer = text::str_or(ans.text_at("answer"), "");
    let key = pair_key_text(caller, target);
    let _ = state::store_delete(PENDING_COLLECTION, key.as_str(), host)?;
    if rejected || same(answer, DENY) {
        return Some(
            Err(
                "the user denied ".to_owned().concat(action).concat(
                    " on cross-folder session \"",
                ).concat(name).concat("\""),
            ),
        );
    }
    if text::begins_with(answer, APPROVE_ALWAYS) {
        return grant(ALWAYS_COLLECTION, caller, host);
    }
    if text::begins_with(answer, APPROVE_ONCE) {
        return grant(ONCE_COLLECTION, key.as_str(), host);
    }
    Some(
        Err(
            "the user did not approve ".to_owned().concat(action).concat(" on \"").concat(
                name,
            ).concat("\" (answer: ").concat(answer).concat(")"),
        ),
    )
}

/// Asks for the answer to a question that waits.
pub open spec fn answer_run(
    caller: Seq<char>,
    target: Seq<char>,
    name: Seq<char>,
    action: Seq<char>,
    pending: JsonView,
    s: Script,
) -> (Script, Option<Result<GateView, Seq<char>>>) {
    match pending.text_at("token"@) {
        None => (s, Some(Err("corrupt pending approval record"@))),
        Some(token) => {
            let (s, r) = s.call(
                HostFn::GetAnswer,
                JsonView::Object(map!["token"@ => JsonView::Text(token)]),
            );
            match r {
                None => (s, None),
                Some(Err(e)) => (s, Some(Err(e))),
                Some(Ok(ans)) => if text::or_else(ans.text_at("status"@), ""@) != "answered"@ {
                    (
                        s,
                        Some(
                            Ok(
                                GateView::Awaiting(
                                    awaiting_doc(still_waiting_text(action, name), target),
                                ),
                            ),
                        ),
                    )
                } else {
                    settle_run(caller, target, name, action, ans, s)
                },
            }
        },
    }
}

/// Asks for the answer to a question that waits.
fn answer(
    caller: &str,
    target: &str,
    name: &str,
    action: &str,
    pending: &Json,
    host: &mut Host,
) -> (r: Option<Result<Gate, String>>)
    ensures
        final(host)@ == answer_run(caller@, target@, name@, action@, pending@, old(host)@).0,
        host::outcome(r) == answer_run(
            caller@,
            target@,
            name@,
            action@,
            pending@,
            old(host)@,
        ).1,
{
    let token = match pending.text_at("token") {
        None => {
            return Some(Err("corrupt pending approval record".to_owned()));
        },
        Some(token) => token,
    };
    let ans = match host.call(
        HostFn::GetAnswer,
        Fields::new().with("token", Json::text(token)).done(),
    )? {
        Err(e) => {
            return Some(Err(e));
        },
        Ok(ans) => ans,
    };
    if !same(text::str_or(ans.text_at("status"), ""), "answered") {
        let message = "Still waiting for user approval to ".to_owned().concat(action).concat(
            " cross-folder session \"",
        ).concat(name).concat("\".");
        return Some(Ok(awaiting(message, target)));
    }
    settle(caller, target, name, action, &ans, host)
}

/// Approval for a caller and a target in different folders: a standing grant
/// is enough, else the user decides.
pub open spec fn approval_run(
    caller: Seq<char>,
    target: Seq<char>,
    name: Seq<char>,
    action: Seq<char>,
    s: Script,
) -> (Script, Option<Result<GateView, Seq<char>>>) {
    let (s, r) = store_has_always_run(caller, s);
    match r {
        None => (s, None),
        Some(Err(e)) => (s, Some(Err(e))),
        Some(Ok(true)) => (s, Some(Ok(GateView::Ready))),
        Some(Ok(false)) => {
            let (s, r) = state::store_get_run(PENDING_COLLECTION@, pair_key(caller, target), s);
            match r {
                None => (s, None),
                Some(Err(e)) => (s, Some(Err(e))),
                Some(Ok(None)) => ask_run(caller, target, name, action, s),
                Some(Ok(Some(pending))) => answer_run(caller, target, name, action, pending, s),
            }
        },
    }
}

/// Approval for a caller and a target in different folders.
fn approval(caller: &str, target: &str, name: &str, action: &str, host: &mut Host) -> (r: Option<
    Result<Gate, String>,
>)
    ensures
        final(host)@ == approval_run(caller@, target@, name@, action@, old(host)@).0,
        host::outcome(r) == approval_run(caller@, target@, name@, action@, old(host)@).1,
{
    match store_has_always(caller, host)? {
        Err(e) => {
            return Some(Err(e));
        },
        Ok(true) => {
            return Some(Ok(Gate::Ready));
        },
        Ok(false) => {},
    }
    let key = pair_key_text(caller, target);
    match state::store_get(PENDING_COLLECTION, key.as_str(), host)? {
        Err(e) => Some(Err(e)),
        Ok(None) => ask(caller, target, name, action, host),
        Ok(Some(pending)) => answer(caller, target, name, action, &pending, host),
    }
}

/// The refusal of cross-folder control without a calling session.
pub const NO_CALLER: &'static str = "cross-folder session control requires a caller session \
(invoke from a session tool call)";

/// Whether a caller controls itself or a session of its own folder.
pub open spec fn near(scope: JsonView, target_id: Seq<char>, target: JsonView) -> bool {
    ||| non_empty(scope.text_at("session_id"@)) == Some(target_id)
    ||| non_empty(scope.text_at("folder_id"@)) == Some(
        text::or_else(target.text_at("folder_id"@), ""@),
    )
}

/// Approval, once caller and target are known.
pub open spec fn gate_run(
    scope: JsonView,
    target_id: Seq<char>,
    target: JsonView,
    action: Seq<char>,
    s: Script,
) -> (Script, Option<Result<GateView, Seq<char>>>) {
    if near(scope, target_id, target) {
        (s, Some(Ok(GateView::Ready)))
    } else {
        match non_empty(scope.text_at("session_id"@)) {
            None => (s, Some(Err(NO_CALLER@))),
            Some(caller) => approval_run(
                caller,
                target_id,
                text::or_else(target.text_at("name"@), target_id),
                action,
                s,
            ),
        }
    }
}

/// Approval before an action on a session.
pub open spec fn ensure_cross_folder_allowed_run(
    target_id: Seq<char>,
    action: Seq<char>,
    s: Script,
) -> (Script, Option<Result<GateView, Seq<char>>>) {
    let (s, r) = s.call(HostFn::CallerScope, JsonView::Object(Map::empty()));
    match r {
        None => (s, None),
        Some(Err(e)) => (s, Some(Err(e))),
        Some(Ok(scope)) => {
            let (s, r) = lookup_session_run(target_id, s);
            match r {
                None => (s, None),
                Some(Err(e)) => (s, Some(Err(e))),
                Some(Ok(target)) => gate_run(scope, target_id, target, action, s),
            }
        },
    }
}

/// Ensure cross-folder control is allowed (or ask). On `Ready`, any needed
/// grant has already been written for the host to see.
pub fn ensure_cross_folder_allowed(target_id: &str, action_label: &str, host: &mut Host) -> (r:
    Option<Result<Gate, String>>)
    ensures
        final(host)@ == ensure_cross_folder_allowed_run(target_id@, action_label@, old(host)@).0,
        host::outcome(r) == ensure_cross_folder_allowed_run(
            target_id@,
            action_label@,
            old(host)@,
        ).1,
{
    let scope = match host.call(HostFn::CallerScope, Fields::new().done())? {
        Err(e) => {
            return Some(Err(e));
        },
        Ok(scope) => scope,
    };
    let target = match lookup_session(target_id, host)? {
        Err(e) => {
            return Some(Err(e));
        },
        Ok(target) => target,
    };
    let caller = non_empty_str(scope.text_at("session_id"));
    // Self-control or same folder: free.
    if let Some(caller) = caller {
        if same(caller, target_id) {
            return Some(Ok(Gate::Ready));
        }
    }
    if let Some(folder) = non_empty_str(scope.text_at("folder_id")) {
        if same(folder, text::str_or(target.text_at("folder_id"), "")) {
            return Some(Ok(Gate::Ready));
        }
    }
    match caller {
        None => Some(Err(NO_CALLER.to_owned())),
        Some(caller) => approval(
            caller,
            target_id,
            text::str_or(target.text_at("name"), target_id),
            action_label,
            host,
        ),
    }
}

} // verus!

//! What the control tools ask of the host, and what approval puts to the user.

use vstd::prelude::*;

use crate::authorize::{self, GateView};
use crate::control;
use crate::dispatch_laws;
use crate::hooks;
use crate::host::{HostFn, ReplyView, RequestView, Script};
use crate::json::JsonView;
use crate::orch_tools;
use crate::store_laws;
use crate::text;

verus! {

// ── Arguments ─────────────────────────────────────────────────────────

/// A required argument is the text under its name, as it was given, where that
/// holds more than white space; else its absence is told by name.
pub proof fn arguments_are_taken_as_given(args: JsonView, key: Seq<char>)
    ensures
        match args.get(key) {
            Some(JsonView::Text(v)) => if text::trim(v).len() > 0 {
                control::required(args, key) == Ok::<Seq<char>, Seq<char>>(v) && control::filled(
                    args,
                    key,
                ) == Some(v)
            } else {
                control::required(args, key) == Err::<Seq<char>, Seq<char>>(
                    "'"@ + key + "' is required"@,
                ) && control::filled(args, key) is None
            },
            _ => control::required(args, key) == Err::<Seq<char>, Seq<char>>(
                "'"@ + key + "' is required"@,
            ) && control::filled(args, key) is None,
        },
{
    if let Some(JsonView::Text(v)) = args.get(key) {
        text::blank_iff_trimmed_empty(v);
    }
}

/// The argument is there, with more than white space.
pub open spec fn given(args: JsonView, key: Seq<char>, v: Seq<char>) -> bool {
    args.get(key) == Some(JsonView::Text(v)) && text::trim(v).len() > 0
}

/// The text under `key`, or `default` where there is none.
pub open spec fn text_or(args: JsonView, key: Seq<char>, default: Seq<char>) -> Seq<char> {
    match args.get(key) {
        Some(JsonView::Text(v)) => v,
        _ => default,
    }
}

// ── Tools ─────────────────────────────────────────────────────────────

/// What becomes of an action once approval has been sought: it is the one last
/// request where approval was given, and else nothing is asked any more.
pub open spec fn carried_out(
    approval: (Script, Option<Result<GateView, Seq<char>>>),
    run: (Script, Option<Result<JsonView, Seq<char>>>),
    f: HostFn,
    fields: Map<Seq<char>, JsonView>,
) -> bool {
    match approval.1 {
        None => run == (approval.0, None::<Result<JsonView, Seq<char>>>),
        Some(Err(e)) => run == (approval.0, Some(Err::<JsonView, Seq<char>>(e))),
        Some(Ok(GateView::Awaiting(doc))) => run == (
            approval.0,
            Some(Ok::<JsonView, Seq<char>>(doc)),
        ),
        Some(Ok(GateView::Ready)) => {
            &&& run.0.asked == approval.0.asked.push(store_laws::call_of(f, fields))
            &&& forall|r: Result<JsonView, Seq<char>>| #[trigger] store_laws::next_is(approval.0, r) ==> run
                == (store_laws::after(approval.0, store_laws::call_of(f, fields)), Some(r))
            &&& approval.0.left.len() == 0 ==> run.1 is None
        },
    }
}

/// Interrupting, terminating and clearing name the session to their host
/// function, and the approval to the user as what they do.
pub proof fn session_actions_name_their_session(args: JsonView, s: Script, id: Seq<char>)
    requires
        given(args, "session_id"@, id),
    ensures
        carried_out(
            authorize::ensure_cross_folder_allowed_run(id, "interrupt"@, s),
            hooks::tool_run("interrupt_session"@, args, s),
            HostFn::InterruptSession,
            map!["session_id"@ => JsonView::Text(id)],
        ),
        carried_out(
            authorize::ensure_cross_folder_allowed_run(id, "terminate the agent of"@, s),
            hooks::tool_run("terminate_agent"@, args, s),
            HostFn::TerminateAgent,
            map!["session_id"@ => JsonView::Text(id)],
        ),
        carried_out(
            authorize::ensure_cross_folder_allowed_run(id, "clear"@, s),
            hooks::tool_run("clear_session"@, args, s),
            HostFn::ClearSession,
            map!["session_id"@ => JsonView::Text(id)],
        ),
{
    arguments_are_taken_as_given(args, "session_id"@);
    tool_names_differ();
}

/// A message goes to its session with its text.
pub proof fn messages_carry_their_text(args: JsonView, s: Script, id: Seq<char>, message: Seq<char>)
    requires
        given(args, "session_id"@, id),
        given(args, "text"@, message),
    ensures
        carried_out(
            authorize::ensure_cross_folder_allowed_run(id, "send a message to"@, s),
            hooks::tool_run("send_message"@, args, s),
            HostFn::SendMessage,
            map!["session_id"@ => JsonView::Text(id), "text"@ => JsonView::Text(message)],
        ),
{
    arguments_are_taken_as_given(args, "session_id"@);
    arguments_are_taken_as_given(args, "text"@);
    tool_names_differ();
}

/// An image goes to its session as the one attachment of a message: the text is
/// the caption, empty where there is none, and the attachment has the name of
/// the file, `image` where there is none, the type and the data.
pub proof fn images_are_attached(
    args: JsonView,
    s: Script,
    id: Seq<char>,
    data: Seq<char>,
    mime_type: Seq<char>,
)
    requires
        given(args, "session_id"@, id),
        given(args, "image_base64"@, data),
        given(args, "mime_type"@, mime_type),
    ensures
        carried_out(
            authorize::ensure_cross_folder_allowed_run(id, "send an image to"@, s),
            hooks::tool_run("send_image"@, args, s),
            HostFn::SendMessage,
            map![
                "session_id"@ => JsonView::Text(id),
                "text"@ => JsonView::Text(text_or(args, "caption"@, ""@)),
                "attachments"@ => JsonView::Array(
                    seq![
                        JsonView::Object(
                            map![
                                "filename"@ => JsonView::Text(
                                    text_or(args, "filename"@, "image"@),
                                ),
                                "mime_type"@ => JsonView::Text(mime_type),
                                "data_base64"@ => JsonView::Text(data)
                            ],
                        ),
                    ],
                )
            ],
        ),
{
    arguments_are_taken_as_given(args, "session_id"@);
    arguments_are_taken_as_given(args, "image_base64"@);
    arguments_are_taken_as_given(args, "mime_type"@);
    tool_names_differ();
}

/// A missing argument of a control tool is told by name; of several the first
/// is told, and nothing is asked.
pub proof fn missing_arguments_are_told(args: JsonView, s: Script)
    ensures
        ({
            let no_session = control::filled(args, "session_id"@) is None;
            let refusal = |key: Seq<char>|
                (s, Some(Err::<JsonView, Seq<char>>("'"@ + key + "' is required"@)));
            &&& no_session ==> hooks::tool_run("interrupt_session"@, args, s) == refusal(
                "session_id"@,
            )
            &&& no_session ==> hooks::tool_run("terminate_agent"@, args, s) == refusal(
                "session_id"@,
            )
            &&& no_session ==> hooks::tool_run("clear_session"@, args, s) == refusal(
                "session_id"@,
            )
            &&& no_session ==> hooks::tool_run("send_message"@, args, s) == refusal("session_id"@)
            &&& no_session ==> hooks::tool_run("send_image"@, args, s) == refusal("session_id"@)
            &&& !no_session && control::filled(args, "text"@) is None ==> hooks::tool_run(
                "send_message"@,
                args,
                s,
            ) == refusal("text"@)
            &&& !no_session && control::filled(args, "image_base64"@) is None ==> hooks::tool_run(
                "send_image"@,
                args,
                s,
            ) == refusal("image_base64"@)
            &&& !no_session && control::filled(args, "image_base64"@) is Some && control::filled(
                args,
                "mime_type"@,
            ) is None ==> hooks::tool_run("send_image"@, args, s) == refusal("mime_type"@)
        }),
{
    tool_names_differ();
}

/// A search asks for the sessions that match its query, every session where it
/// has none, and hands on what the host says.
pub proof fn searches_hand_on_the_answer(
    args: JsonView,
    s: Script,
    r: Result<JsonView, Seq<char>>,
)
    ensures
        hooks::tool_run("find_session"@, args, s).0.asked == s.asked.push(
            store_laws::call_of(
                HostFn::ListSessions,
                map!["query"@ => JsonView::Text(text_or(args, "query"@, ""@))],
            ),
        ),
        store_laws::next_is(s, r) ==> hooks::tool_run("find_session"@, args, s).1 == Some(r),
{
    tool_names_differ();
}

/// The names of the tools differ.
pub proof fn tool_names_differ()
    ensures
        forall|i: int, j: int|
            0 <= i < j < dispatch_laws::names().len() ==> #[trigger] dispatch_laws::names()[i]
                != #[trigger] dispatch_laws::names()[j],
        dispatch_laws::names().len() == 13,
        "terminate_agent"@ != "interrupt_session"@,
        "clear_session"@ != "interrupt_session"@ && "clear_session"@ != "terminate_agent"@,
        forall|i: int|
            0 <= i < 3 ==> #[trigger] dispatch_laws::names()[i] != "send_message"@
                && dispatch_laws::names()[i] != "send_image"@,
        "send_image"@ != "send_message"@,
        forall|i: int| 0 <= i < 5 ==> #[trigger] dispatch_laws::names()[i] != "find_session"@,
        "send_message"@ != "interrupt_session"@ && "send_message"@ != "terminate_agent"@
            && "send_message"@ != "clear_session"@,
        "send_image"@ != "interrupt_session"@ && "send_image"@ != "terminate_agent"@
            && "send_image"@ != "clear_session"@,
        "find_session"@ != "interrupt_session"@ && "find_session"@ != "terminate_agent"@
            && "find_session"@ != "clear_session"@ && "find_session"@ != "send_message"@
            && "find_session"@ != "send_image"@,
{
    reveal_strlit("interrupt_session");
    reveal_strlit("terminate_agent");
    reveal_strlit("clear_session");
    reveal_strlit("send_message");
    reveal_strlit("send_image");
    reveal_strlit("find_session");
    reveal_strlit("create_session");
    reveal_strlit("assign_hat");
    reveal_strlit("watch_session");
    reveal_strlit("unwatch_session");
    reveal_strlit("list_managed_sessions");
    reveal_strlit("update_goal_status");
    reveal_strlit("orchestrator_report");
    assert("interrupt_session"@.len() == 17 && "terminate_agent"@.len() == 15);
    assert("clear_session"@.len() == 13 && "send_message"@.len() == 12);
    assert("send_image"@.len() == 10 && "find_session"@.len() == 12);
    assert("create_session"@.len() == 14 && "assign_hat"@.len() == 10);
    assert("watch_session"@.len() == 13 && "unwatch_session"@.len() == 15);
    assert("list_managed_sessions"@.len() == 21 && "update_goal_status"@.len() == 18);
    assert("orchestrator_report"@.len() == 19);
    assert("terminate_agent"@[0] == 't' && "unwatch_session"@[0] == 'u');
    assert("clear_session"@[0] == 'c' && "watch_session"@[0] == 'w');
    assert("send_message"@[0] == 's' && "find_session"@[0] == 'f');
    assert("send_image"@[0] == 's' && "assign_hat"@[0] == 'a');
}

/// Each tool for orchestrators is dispatched under its name.
pub proof fn orchestrator_tools_are_dispatched(args: JsonView, s: Script)
    ensures
        hooks::tool_run("create_session"@, args, s) == orch_tools::create_session_run(args, s),
        hooks::tool_run("assign_hat"@, args, s) == orch_tools::assign_hat_run(args, s),
        hooks::tool_run("watch_session"@, args, s) == orch_tools::watch_session_run(args, true, s),
        hooks::tool_run("unwatch_session"@, args, s) == orch_tools::watch_session_run(
            args,
            false,
            s,
        ),
        hooks::tool_run("list_managed_sessions"@, args, s)
            == orch_tools::list_managed_sessions_run(s),
        hooks::tool_run("update_goal_status"@, args, s) == orch_tools::update_goal_status_run(
            args,
            s,
        ),
        hooks::tool_run("orchestrator_report"@, args, s) == orch_tools::orchestrator_report_run(
            args,
            s,
        ),
{
    tool_names_differ();
    let n = dispatch_laws::names();
    assert(n[0] == "interrupt_session"@ && n[1] == "terminate_agent"@ && n[2] == "clear_session"@);
    assert(n[3] == "send_message"@ && n[4] == "send_image"@ && n[5] == "find_session"@);
    assert(n[6] == "create_session"@ && n[7] == "assign_hat"@ && n[8] == "watch_session"@);
    assert(n[9] == "unwatch_session"@ && n[10] == "list_managed_sessions"@);
    assert(n[11] == "update_goal_status"@ && n[12] == "orchestrator_report"@);
}

// ── The target ────────────────────────────────────────────────────────

/// The session that is found is the first with the id; none is found where none
/// has it.
pub proof fn found_session_is_the_first(sessions: Seq<JsonView>, id: Seq<char>)
    ensures
        match authorize::find_session(sessions, id) {
            Some(found) => exists|i: int|
                #![trigger sessions[i]]
                {
                    &&& 0 <= i < sessions.len() && sessions[i] == found
                    &&& found.get("session_id"@) == Some(JsonView::Text(id))
                    &&& forall|k: int|
                        0 <= k < i ==> (#[trigger] sessions[k]).get("session_id"@) != Some(
                            JsonView::Text(id),
                        )
                },
            None => forall|k: int|
                0 <= k < sessions.len() ==> (#[trigger] sessions[k]).get("session_id"@) != Some(
                    JsonView::Text(id),
                ),
        },
    decreases sessions.len(),
{
    if sessions.len() > 0 {
        if sessions[0].text_at("session_id"@) == Some(id) {
            assert(sessions[0].get("session_id"@) == Some(JsonView::Text(id)));
        } else {
            let rest = sessions.skip(1);
            found_session_is_the_first(rest, id);
            assert(sessions[0].get("session_id"@) != Some(JsonView::Text(id)));
            match authorize::find_session(rest, id) {
                Some(found) => {
                    let i = choose|i: int|
                        #![trigger rest[i]]
                        {
                            &&& 0 <= i < rest.len() && rest[i] == found
                            &&& found.get("session_id"@) == Some(JsonView::Text(id))
                            &&& forall|k: int|
                                0 <= k < i ==> (#[trigger] rest[k]).get("session_id"@) != Some(
                                    JsonView::Text(id),
                                )
                        };
                    assert(sessions[i + 1] == found);
                    assert forall|k: int| 0 <= k < i + 1 implies (#[trigger] sessions[k]).get(
                        "session_id"@,
                    ) != Some(JsonView::Text(id)) by {
                        if k > 0 {
                            assert(rest[k - 1] == sessions[k]);
                        }
                    }
                },
                None => {
                    assert forall|k: int| 0 <= k < sessions.len() implies (
                    #[trigger] sessions[k]).get("session_id"@) != Some(JsonView::Text(id)) by {
                        if k > 0 {
                            assert(rest[k - 1] == sessions[k]);
                        }
                    }
                },
            }
        }
    }
}

/// The target is looked for by its id in the array `sessions` of what the host
/// lists; that it does not exist is told with its id.
pub proof fn targets_are_looked_up(
    id: Seq<char>,
    s: Script,
    listed: JsonView,
    sessions: Seq<JsonView>,
    e: Seq<char>,
)
    ensures
        ({
            let q = store_laws::call_of(HostFn::ListSessions, map!["query"@ => JsonView::Text(id)]);
            let run = authorize::lookup_session_run(id, s);
            let none = (store_laws::after(s, q), Some(Err::<JsonView, Seq<char>>("session not found: "@ + id)));
            &&& run.0.asked == s.asked.push(q)
            &&& store_laws::next_is(s, Ok(listed)) && listed.get("sessions"@) == Some(JsonView::Array(sessions))
                ==> (match authorize::find_session(sessions, id) {
                Some(found) => run == (store_laws::after(s, q), Some(Ok::<JsonView, Seq<char>>(found))),
                None => run == none,
            })
            &&& store_laws::next_is(s, Ok(listed)) && !(listed.get("sessions"@) matches Some(
                JsonView::Array(_),
            )) ==> run == none
            &&& store_laws::next_is(s, Err(e)) ==> run == (store_laws::after(s, q), Some(Err::<JsonView, Seq<char>>(e)))
        }),
{
}

// ── Approval ──────────────────────────────────────────────────────────

/// The text under `key`, where it is there and not empty.
pub open spec fn said(doc: JsonView, key: Seq<char>) -> Option<Seq<char>> {
    match doc.get(key) {
        Some(JsonView::Text(v)) => if v.len() == 0 {
            None
        } else {
            Some(v)
        },
        _ => None,
    }
}

/// An action is free on the caller itself and on a target in the caller's
/// folder; a caller without a session may not act elsewhere, and one with a
/// session needs approval. Caller and target are asked for first, in this order.
pub proof fn folders_decide_on_approval(
    id: Seq<char>,
    action: Seq<char>,
    s: Script,
    scope: JsonView,
    target: JsonView,
    e: Seq<char>,
)
    ensures
        ({
            let q = RequestView::Call(HostFn::CallerScope, JsonView::Object(Map::empty()));
            let run = authorize::ensure_cross_folder_allowed_run(id, action, s);
            let (t, found) = authorize::lookup_session_run(id, store_laws::after(s, q));
            &&& store_laws::next_is(s, Err(e)) ==> run == (store_laws::after(s, q), Some(Err::<GateView, Seq<char>>(e)))
            &&& store_laws::next_is(s, Ok(scope)) && found == Some(Err::<JsonView, Seq<char>>(e)) ==> run == (
                t,
                Some(Err::<GateView, Seq<char>>(e)),
            )
            &&& store_laws::next_is(s, Ok(scope)) && found == Some(Ok::<JsonView, Seq<char>>(target)) ==> {
                let folder = text_or(target, "folder_id"@, ""@);
                if said(scope, "session_id"@) == Some(id) || said(scope, "folder_id"@) == Some(
                    folder,
                ) {
                    run == (t, Some(Ok::<GateView, Seq<char>>(GateView::Ready)))
                } else {
                    match said(scope, "session_id"@) {
                        None => run.0 == t && run.1 matches Some(Err(_)),
                        Some(caller) => run == authorize::approval_run(
                            caller,
                            id,
                            text_or(target, "name"@, id),
                            action,
                            t,
                        ),
                    }
                }
            }
        }),
{
}

/// The place of a caller's standing grant, and of the pair's question.
pub open spec fn read_of(collection: Seq<char>, key: Seq<char>) -> RequestView {
    store_laws::call_of(
        HostFn::StoreGet,
        map!["collection"@ => JsonView::Text(collection), "key"@ => JsonView::Text(key)],
    )
}

/// A document that the store is asked to keep.
pub open spec fn write_of(collection: Seq<char>, key: Seq<char>, data: JsonView) -> RequestView {
    store_laws::call_of(
        HostFn::StorePut,
        map![
            "collection"@ => JsonView::Text(collection),
            "key"@ => JsonView::Text(key),
            "data"@ => data
        ],
    )
}

/// A document other than null.
pub open spec fn document_in(out: JsonView) -> Option<JsonView> {
    match out.get("value"@) {
        None => None,
        Some(JsonView::Null) => None,
        Some(doc) => Some(doc),
    }
}

/// A standing grant of the caller lets it act at once, unless it says that it
/// is not approved.
pub proof fn standing_grants_are_read(
    caller: Seq<char>,
    id: Seq<char>,
    name: Seq<char>,
    action: Seq<char>,
    s: Script,
    out: JsonView,
)
    requires
        store_laws::next_is(s, Ok(out)),
        document_in(out) matches Some(doc) && doc.get("approved"@) != Some(JsonView::Bool(false)),
    ensures
        authorize::approval_run(caller, id, name, action, s) == (
            store_laws::after(s, read_of("cross_folder_always"@, caller)),
            Some(Ok::<GateView, Seq<char>>(GateView::Ready)),
        ),
{
}

/// Without a standing grant, and without a question that waits, the user is
/// asked: the question is written down under caller and target with the token
/// that it is asked with, names action and target, and offers the three
/// answers. The tool's result says that approval is awaited.
pub proof fn first_call_asks_the_user(
    caller: Seq<char>,
    id: Seq<char>,
    name: Seq<char>,
    action: Seq<char>,
    s: Script,
    grant: JsonView,
    pending: JsonView,
    n: u64,
    put: JsonView,
    asked: JsonView,
)
    requires
        s.left.len() >= 5,
        s.left[0] == ReplyView::Host(Ok(grant)),
        document_in(grant) is None,
        s.left[1] == ReplyView::Host(Ok(pending)),
        document_in(pending) is None,
        s.left[2] == ReplyView::Count(n),
        s.left[3] == ReplyView::Host(Ok(put)),
        s.left[4] == ReplyView::Host(Ok(asked)),
    ensures
        ({
            let run = authorize::approval_run(caller, id, name, action, s);
            let token = "sc-"@ + caller + "-"@ + id + "-"@ + text::decimal(n as nat);
            &&& run.0.left == s.left.skip(5)
            &&& run.0.asked == s.asked.push(read_of("cross_folder_always"@, caller)).push(
                read_of("cross_folder_pending"@, caller + "|"@ + id),
            ).push(RequestView::NextToken).push(
                write_of(
                    "cross_folder_pending"@,
                    caller + "|"@ + id,
                    JsonView::Object(
                        map![
                            "token"@ => JsonView::Text(token),
                            "target_id"@ => JsonView::Text(id),
                            "action"@ => JsonView::Text(action)
                        ],
                    ),
                ),
            ).push(
                store_laws::call_of(
                    HostFn::AskUser,
                    map![
                        "question"@ => JsonView::Text(
                            "Allow this session to "@ + action + " session \""@ + name + "\" ("@
                                + id + ") in another folder?"@,
                        ),
                        "options"@ => JsonView::Array(
                            seq![
                                JsonView::Text("Approve once"@),
                                JsonView::Text("Approve always"@),
                                JsonView::Text("Deny"@),
                            ],
                        ),
                        "token"@ => JsonView::Text(token)
                    ],
                ),
            )
            &&& run.1 == Some(
                Ok::<GateView, Seq<char>>(
                    GateView::Awaiting(
                        JsonView::Object(
                            map![
                                "status"@ => JsonView::Text("awaiting_approval"@),
                                "message"@ => JsonView::Text(
                                    "Waiting for user approval to "@ + action
                                        + " cross-folder session \""@ + name
                                        + "\". Re-call this tool after they answer (Approve once / Approve always / Deny)."@,
                                ),
                                "target_session_id"@ => JsonView::Text(id)
                            ],
                        ),
                    ),
                ),
            )
        }),
{
    chained(s.left);
    let options = seq![
        JsonView::Text("Approve once"@),
        JsonView::Text("Approve always"@),
        JsonView::Text("Deny"@),
    ];
    assert(crate::json::texts_view(seq!["Approve once"@, "Approve always"@, "Deny"@])->Array_0
        =~= options);
}

/// Using up one answer after the other.
pub proof fn chained<T>(left: Seq<T>)
    ensures
        forall|k: int| 0 <= k < left.len() ==> #[trigger] left.skip(k).skip(1) == left.skip(k + 1),
        left.skip(0) == left,
{
    assert forall|k: int| 0 <= k < left.len() implies #[trigger] left.skip(k).skip(1) == left.skip(
        k + 1,
    ) by {
        assert(left.skip(k).skip(1) =~= left.skip(k + 1));
    }
    assert(left.skip(0) =~= left);
}

/// A question that waits is asked about by its token. Until there is an answer
/// the tool's result says so. An answer settles the question: a rejection or
/// *Deny* refuses, *Approve always* is kept for the caller, *Approve once* for
/// caller and target, and anything else refuses.
pub proof fn answers_are_acted_on(
    caller: Seq<char>,
    id: Seq<char>,
    name: Seq<char>,
    action: Seq<char>,
    s: Script,
    grant: JsonView,
    pending: JsonView,
    question: JsonView,
    token: Seq<char>,
    ans: JsonView,
    gone: Result<JsonView, Seq<char>>,
    put: JsonView,
)
    requires
        s.left.len() >= 5,
        s.left[0] == ReplyView::Host(Ok(grant)),
        document_in(grant) is None,
        s.left[1] == ReplyView::Host(Ok(pending)),
        document_in(pending) == Some(question),
        question.get("token"@) == Some(JsonView::Text(token)),
        s.left[2] == ReplyView::Host(Ok(ans)),
        s.left[3] == ReplyView::Host(gone),
        s.left[4] == ReplyView::Host(Ok(put)),
    ensures
        ({
            let run = authorize::approval_run(caller, id, name, action, s);
            let pair = caller + "|"@ + id;
            let asked = s.asked.push(read_of("cross_folder_always"@, caller)).push(
                read_of("cross_folder_pending"@, pair),
            ).push(store_laws::call_of(HostFn::GetAnswer, map!["token"@ => JsonView::Text(token)]));
            let settled = asked.push(
                store_laws::call_of(
                    HostFn::StoreDelete,
                    map![
                        "collection"@ => JsonView::Text("cross_folder_pending"@),
                        "key"@ => JsonView::Text(pair)
                    ],
                ),
            );
            let yes = JsonView::Object(map!["approved"@ => JsonView::Bool(true)]);
            let answer = text_or(ans, "answer"@, ""@);
            if ans.get("status"@) != Some(JsonView::Text("answered"@)) {
                &&& run.0.asked == asked
                &&& run.1 == Some(
                    Ok::<GateView, Seq<char>>(
                        GateView::Awaiting(
                            JsonView::Object(
                                map![
                                    "status"@ => JsonView::Text("awaiting_approval"@),
                                    "message"@ => JsonView::Text(
                                        "Still waiting for user approval to "@ + action
                                            + " cross-folder session \""@ + name + "\"."@,
                                    ),
                                    "target_session_id"@ => JsonView::Text(id)
                                ],
                            ),
                        ),
                    ),
                )
            } else if ans.get("rejected"@) == Some(JsonView::Bool(true)) || answer == "Deny"@ {
                &&& run.0.asked == settled
                &&& run.1 == Some(
                    Err::<GateView, Seq<char>>(
                        "the user denied "@ + action + " on cross-folder session \""@ + name
                            + "\""@,
                    ),
                )
            } else if text::begins(answer, "Approve always"@) {
                &&& run.0.asked == settled.push(write_of("cross_folder_always"@, caller, yes))
                &&& run.1 == Some(Ok::<GateView, Seq<char>>(GateView::Ready))
            } else if text::begins(answer, "Approve once"@) {
                &&& run.0.asked == settled.push(write_of("cross_folder_once"@, pair, yes))
                &&& run.1 == Some(Ok::<GateView, Seq<char>>(GateView::Ready))
            } else {
                &&& run.0.asked == settled
                &&& run.1 == Some(
                    Err::<GateView, Seq<char>>(
                        "the user did not approve "@ + action + " on \""@ + name + "\" (answer: "@
                            + answer + ")"@,
                    ),
                )
            }
        }),
{
    chained(s.left);
    reveal_strlit("");
    reveal_strlit("answered");
    assert(""@.len() != "answered"@.len());
}

/// A grant that cannot be written lets nothing go ahead, nor does a question
/// without a token.
pub proof fn unwritten_grants_do_not_count(
    collection: Seq<char>,
    key: Seq<char>,
    s: Script,
    e: Seq<char>,
    caller: Seq<char>,
    id: Seq<char>,
    name: Seq<char>,
    action: Seq<char>,
    question: JsonView,
)
    ensures
        store_laws::next_is(s, Err(e)) ==> authorize::grant_run(collection, key, s).1 == Some(
            Err::<GateView, Seq<char>>(e),
        ),
        !(question.get("token"@) matches Some(JsonView::Text(_))) ==> authorize::answer_run(
            caller,
            id,
            name,
            action,
            question,
            s,
        ) == (s, Some(Err::<GateView, Seq<char>>("corrupt pending approval record"@))),
{
}

} // verus!

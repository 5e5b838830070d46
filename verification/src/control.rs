//! Session-control tools. Those that change something need the approval
//! of [`crate::authorize`] before the host is called.

use vstd::prelude::*;
use vstd::string::*;

use crate::authorize::{self, Gate, GateView};
use crate::engine;
use crate::host::{self, Host, HostFn, Script};
use crate::json::{self, Fields, Json, JsonView};
use crate::text;

verus! {

/// The text under `key`, where it is not blank.
pub open spec fn filled(args: JsonView, key: Seq<char>) -> Option<Seq<char>> {
    match args.text_at(key) {
        Some(v) => if text::blank(v) {
            None
        } else {
            Some(v)
        },
        None => None,
    }
}

/// The refusal where an argument is missing or blank.
pub open spec fn missing(key: Seq<char>) -> Seq<char> {
    "'"@ + key + "' is required"@
}

/// The argument under `key`, which has to be there.
pub open spec fn required(args: JsonView, key: Seq<char>) -> Result<Seq<char>, Seq<char>> {
    match filled(args, key) {
        Some(v) => Ok(v),
        None => Err(missing(key)),
    }
}

/// Pull a required, non-empty string argument.
pub fn require_str(args: &Json, key: &str) -> (r: Result<String, String>)
    ensures
        json::result_view(r) == required(args@, key@),
{
    if let Some(v) = args.text_at(key) {
        if !text::is_blank(v) {
            return Ok(v.to_owned());
        }
    }
    Err("'".to_owned().concat(key).concat("' is required"))
}

/// Optional string argument, defaulting to `default`.
pub fn opt_str(args: &Json, key: &str, default: &str) -> (r: String)
    ensures
        r@ == text::or_else(args@.text_at(key@), default@),
{
    text::str_or(args.text_at(key), default).to_owned()
}

/// Calls a host function once the action is approved.
pub open spec fn gated_action_run(
    target_id: Seq<char>,
    action: Seq<char>,
    f: HostFn,
    input: JsonView,
    s: Script,
) -> (Script, Option<Result<JsonView, Seq<char>>>) {
    let (s, r) = authorize::ensure_cross_folder_allowed_run(target_id, action, s);
    match r {
        None => (s, None),
        Some(Err(e)) => (s, Some(Err(e))),
        Some(Ok(GateView::Awaiting(payload))) => (s, Some(Ok(payload))),
        Some(Ok(GateView::Ready)) => s.call(f, input),
    }
}

/// Calls a host function once the action is approved; while the user has not
/// answered, the result says so.
pub fn gated_action(
    target_id: &str,
    action_label: &str,
    f: HostFn,
    input: Json,
    host: &mut Host,
) -> (r: Option<Result<Json, String>>)
    ensures
        final(host)@ == gated_action_run(target_id@, action_label@, f, input@, old(host)@).0,
        host::outcome(r) == gated_action_run(
            target_id@,
            action_label@,
            f,
            input@,
            old(host)@,
        ).1,
{
    match authorize::ensure_cross_folder_allowed(target_id, action_label, host)? {
        Err(e) => Some(Err(e)),
        Ok(Gate::Awaiting(payload)) => Some(Ok(payload)),
        Ok(Gate::Ready) => host.call(f, input),
    }
}

/// An action that is about the session alone.
pub open spec fn session_action_run(
    args: JsonView,
    action: Seq<char>,
    f: HostFn,
    s: Script,
) -> (Script, Option<Result<JsonView, Seq<char>>>) {
    match required(args, "session_id"@) {
        Err(e) => (s, Some(Err(e))),
        Ok(id) => gated_action_run(id, action, f, engine::about_session(id), s),
    }
}

/// An action that is about the session alone.
fn session_action(args: &Json, action: &str, f: HostFn, host: &mut Host) -> (r: Option<
    Result<Json, String>,
>)
    ensures
        final(host)@ == session_action_run(args@, action@, f, old(host)@).0,
        host::outcome(r) == session_action_run(args@, action@, f, old(host)@).1,
{
    match require_str(args, "session_id") {
        Err(e) => Some(Err(e)),
        Ok(id) => {
            let input = engine::about_session_json(id.as_str());
            gated_action(id.as_str(), action, f, input, host)
        },
    }
}

/// `interrupt_session`: stop the turn that is under way.
pub fn interrupt_session_tool(args: &Json, host: &mut Host) -> (r: Option<Result<Json, String>>)
    ensures
        final(host)@ == session_action_run(
            args@,
            "interrupt"@,
            HostFn::InterruptSession,
            old(host)@,
        ).0,
        host::outcome(r) == session_action_run(
            args@,
            "interrupt"@,
            HostFn::InterruptSession,
            old(host)@,
        ).1,
{
    session_action(args, "interrupt", HostFn::InterruptSession, host)
}

/// `terminate_agent`: end the agent of a session.
pub fn terminate_agent_tool(args: &Json, host: &mut Host) -> (r: Option<Result<Json, String>>)
    ensures
        final(host)@ == session_action_run(
            args@,
            "terminate the agent of"@,
            HostFn::TerminateAgent,
            old(host)@,
        ).0,
        host::outcome(r) == session_action_run(
            args@,
            "terminate the agent of"@,
            HostFn::TerminateAgent,
            old(host)@,
        ).1,
{
    session_action(args, "terminate the agent of", HostFn::TerminateAgent, host)
}

/// `clear_session`: clear the history of a session.
pub fn clear_session_tool(args: &Json, host: &mut Host) -> (r: Option<Result<Json, String>>)
    ensures
        final(host)@ == session_action_run(
            args@,
            "clear"@,
            HostFn::ClearSession,
            old(host)@,
        ).0,
        host::outcome(r) == session_action_run(
            args@,
            "clear"@,
            HostFn::ClearSession,
            old(host)@,
        ).1,
{
    session_action(args, "clear", HostFn::ClearSession, host)
}

/// `send_message`.
pub open spec fn send_message_run(args: JsonView, s: Script) -> (
    Script,
    Option<Result<JsonView, Seq<char>>>,
) {
    match (required(args, "session_id"@), required(args, "text"@)) {
        (Err(e), _) => (s, Some(Err(e))),
        (_, Err(e)) => (s, Some(Err(e))),
        (Ok(id), Ok(message)) => gated_action_run(
            id,
            "send a message to"@,
            HostFn::SendMessage,
            JsonView::Object(
                map!["session_id"@ => JsonView::Text(id), "text"@ => JsonView::Text(message)],
            ),
            s,
        ),
    }
}

/// `send_message`: deliver a text to a session.
pub fn send_message_tool(args: &Json, host: &mut Host) -> (r: Option<Result<Json, String>>)
    ensures
        final(host)@ == send_message_run(args@, old(host)@).0,
        host::outcome(r) == send_message_run(args@, old(host)@).1,
{
    let id = match require_str(args, "session_id") {
        Err(e) => {
            return Some(Err(e));
        },
        Ok(id) => id,
    };
    let message = match require_str(args, "text") {
        Err(e) => {
            return Some(Err(e));
        },
        Ok(message) => message,
    };
    let input = Fields::new().with("session_id", Json::text(id.as_str())).with(
        "text",
        Json::Text(message),
    ).done();
    gated_action(id.as_str(), "send a message to", HostFn::SendMessage, input, host)
}

/// `find_session`.
pub open spec fn find_session_run(args: JsonView, s: Script) -> (
    Script,
    Option<Result<JsonView, Seq<char>>>,
) {
    s.call(HostFn::ListSessions, authorize::query(text::or_else(args.text_at("query"@), ""@)))
}

/// `find_session`: look sessions up in every folder. Looking asks for no
/// approval.
pub fn find_session_tool(args: &Json, host: &mut Host) -> (r: Option<Result<Json, String>>)
    ensures
        final(host)@ == find_session_run(args@, old(host)@).0,
        host::outcome(r) == find_session_run(args@, old(host)@).1,
{
    let query = opt_str(args, "query", "");
    host.call(HostFn::ListSessions, authorize::query_json(query.as_str()))
}

/// A message that carries an image.
pub open spec fn image_message(
    id: Seq<char>,
    caption: Seq<char>,
    filename: Seq<char>,
    mime_type: Seq<char>,
    data: Seq<char>,
) -> JsonView {
    JsonView::Object(
        map![
            "session_id"@ => JsonView::Text(id),
            "text"@ => JsonView::Text(caption),
            "attachments"@ => JsonView::Array(
                seq![
                    JsonView::Object(
                        map![
                            "filename"@ => JsonView::Text(filename),
                            "mime_type"@ => JsonView::Text(mime_type),
                            "data_base64"@ => JsonView::Text(data)
                        ],
                    ),
                ],
            )
        ],
    )
}

/// `send_image`.
pub open spec fn send_image_run(args: JsonView, s: Script) -> (
    Script,
    Option<Result<JsonView, Seq<char>>>,
) {
    match (
        required(args, "session_id"@),
        required(args, "image_base64"@),
        required(args, "mime_type"@),
    ) {
        (Err(e), _, _) => (s, Some(Err(e))),
        (_, Err(e), _) => (s, Some(Err(e))),
        (_, _, Err(e)) => (s, Some(Err(e))),
        (Ok(id), Ok(data), Ok(mime_type)) => gated_action_run(
            id,
            "send an image to"@,
            HostFn::SendMessage,
            image_message(
                id,
                text::or_else(args.text_at("caption"@), ""@),
                text::or_else(args.text_at("filename"@), "image"@),
                mime_type,
                data,
            ),
            s,
        ),
    }
}

/// `send_image`: deliver an image to a session, with a caption where there is
/// one.
pub fn send_image_tool(args: &Json, host: &mut Host) -> (r: Option<Result<Json, String>>)
    ensures
        final(host)@ == send_image_run(args@, old(host)@).0,
        host::outcome(r) == send_image_run(args@, old(host)@).1,
{
    let id = match require_str(args, "session_id") {
        Err(e) => {
            return Some(Err(e));
        },
        Ok(id) => id,
    };
    let data = match require_str(args, "image_base64") {
        Err(e) => {
            return Some(Err(e));
        },
        Ok(data) => data,
    };
    let mime_type = match require_str(args, "mime_type") {
        Err(e) => {
            return Some(Err(e));
        },
        Ok(mime_type) => mime_type,
    };
    let filename = opt_str(args, "filename", "image");
    let caption = opt_str(args, "caption", "");
    let attachment = Fields::new().with("filename", Json::Text(filename)).with(
        "mime_type",
        Json::Text(mime_type),
    ).with("data_base64", Json::Text(data)).done();
    let ghost view = attachment@;
    let mut attachments: Vec<Json> = Vec::new();
    attachments.push(attachment);
    assert(json::items_view(attachments@) =~= seq![view]);
    let input = Fields::new().with("session_id", Json::text(id.as_str())).with(
        "text",
        Json::Text(caption),
    ).with("attachments", Json::Array(attachments)).done();
    gated_action(id.as_str(), "send an image to", HostFn::SendMessage, input, host)
}

} // verus!

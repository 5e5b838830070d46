//! The hooks: which part of the plugin answers, and the verdict.

use vstd::prelude::*;
use vstd::string::*;

use crate::control;
use crate::engine;
use crate::host::{Host, HostFn, Script};
use crate::json::{self, Fields, Json, JsonView};
use crate::orch_tools;
use crate::page;
use crate::text::{self, same};

verus! {

// ── Verdicts ──────────────────────────────────────────────────────────

/// The verdict that allows, with a payload.
pub open spec fn allowed(payload: JsonView) -> JsonView {
    JsonView::Object(map!["verdict"@ => JsonView::Text("allow"@), "payload"@ => payload])
}

/// The verdict that allows, with a payload.
pub fn allow(payload: Json) -> (r: Json)
    ensures
        r@ == allowed(payload@),
{
    Fields::new().with("verdict", Json::text("allow")).with("payload", payload).done()
}

/// The verdict that cancels, with a reason.
pub open spec fn cancelled(reason: Seq<char>) -> JsonView {
    JsonView::Object(
        map!["verdict"@ => JsonView::Text("cancel"@), "reason"@ => JsonView::Text(reason)],
    )
}

/// The verdict that cancels, with a reason.
pub fn cancel(reason: &str) -> (r: Json)
    ensures
        r@ == cancelled(reason@),
{
    Fields::new().with("verdict", Json::text("cancel")).with("reason", Json::text(reason)).done()
}

/// The verdict that takes no part.
pub open spec fn skipped() -> JsonView {
    JsonView::Object(map!["verdict"@ => JsonView::Text("skip"@)])
}

/// The verdict that takes no part.
pub fn skip() -> (r: Json)
    ensures
        r@ == skipped(),
{
    Fields::new().with("verdict", Json::text("skip")).done()
}

/// The verdict on a notification: it allows, whatever came of it.
pub open spec fn notified(result: Result<JsonView, Seq<char>>) -> JsonView {
    match result {
        Ok(v) => allowed(v),
        Err(e) => allowed(
            JsonView::Object(
                map!["ok"@ => JsonView::Bool(false), "error"@ => JsonView::Text(e)],
            ),
        ),
    }
}

/// The verdict on a notification: it allows, whatever came of it.
pub fn notification(result: Result<Json, String>) -> (r: Json)
    ensures
        r@ == notified(json::result_view(result)),
{
    match result {
        Ok(v) => allow(v),
        Err(e) => allow(
            Fields::new().with("ok", Json::Bool(false)).with("error", Json::Text(e)).done(),
        ),
    }
}

/// The verdict on a request: a refusal cancels.
pub open spec fn decided(result: Result<JsonView, Seq<char>>) -> JsonView {
    match result {
        Ok(v) => allowed(v),
        Err(e) => cancelled(e),
    }
}

/// The verdict on a request: a refusal cancels.
pub fn decide(result: Result<Json, String>) -> (r: Json)
    ensures
        r@ == decided(json::result_view(result)),
{
    match result {
        Ok(v) => allow(v),
        Err(e) => cancel(e.as_str()),
    }
}

// ── Tools ─────────────────────────────────────────────────────────────

/// The refusal of a tool that the plugin does not have.
pub open spec fn unknown_tool(tool: Seq<char>) -> Seq<char> {
    "session-control does not provide tool '"@ + tool + "'"@
}

/// Runs a tool of session control or of the orchestrators.
pub open spec fn tool_run(tool: Seq<char>, args: JsonView, s: Script) -> (
    Script,
    Option<Result<JsonView, Seq<char>>>,
) {
    if tool == "interrupt_session"@ {
        control::session_action_run(args, "interrupt"@, HostFn::InterruptSession, s)
    } else if tool == "terminate_agent"@ {
        control::session_action_run(args, "terminate the agent of"@, HostFn::TerminateAgent, s)
    } else if tool == "clear_session"@ {
        control::session_action_run(args, "clear"@, HostFn::ClearSession, s)
    } else if tool == "send_message"@ {
        control::send_message_run(args, s)
    } else if tool == "send_image"@ {
        control::send_image_run(args, s)
    } else if tool == "find_session"@ {
        control::find_session_run(args, s)
    } else if tool == "create_session"@ {
        orch_tools::create_session_run(args, s)
    } else if tool == "assign_hat"@ {
        orch_tools::assign_hat_run(args, s)
    } else if tool == "watch_session"@ {
        orch_tools::watch_session_run(args, true, s)
    } else if tool == "unwatch_session"@ {
        orch_tools::watch_session_run(args, false, s)
    } else if tool == "list_managed_sessions"@ {
        orch_tools::list_managed_sessions_run(s)
    } else if tool == "update_goal_status"@ {
        orch_tools::update_goal_status_run(args, s)
    } else if tool == "orchestrator_report"@ {
        orch_tools::orchestrator_report_run(args, s)
    } else {
        (s, Some(Err(unknown_tool(tool))))
    }
}

/// Runs a tool.
fn run_tool(tool: &str, args: &Json, host: &mut Host) -> (r: Option<Result<Json, String>>)
    ensures
        final(host)@ == tool_run(tool@, args@, old(host)@).0,
        crate::host::outcome(r) == tool_run(tool@, args@, old(host)@).1,
{
    if same(tool, "interrupt_session") {
        control::interrupt_session_tool(args, host)
    } else if same(tool, "terminate_agent") {
        control::terminate_agent_tool(args, host)
    } else if same(tool, "clear_session") {
        control::clear_session_tool(args, host)
    } else if same(tool, "send_message") {
        control::send_message_tool(args, host)
    } else if same(tool, "send_image") {
        control::send_image_tool(args, host)
    } else if same(tool, "find_session") {
        control::find_session_tool(args, host)
    } else if same(tool, "create_session") {
        orch_tools::create_session_tool(args, host)
    } else if same(tool, "assign_hat") {
        orch_tools::assign_hat_tool(args, host)
    } else if same(tool, "watch_session") {
        orch_tools::watch_session_tool(args, true, host)
    } else if same(tool, "unwatch_session") {
        orch_tools::watch_session_tool(args, false, host)
    } else if same(tool, "list_managed_sessions") {
        orch_tools::list_managed_sessions_tool(args, host)
    } else if same(tool, "update_goal_status") {
        orch_tools::update_goal_status_tool(args, host)
    } else if same(tool, "orchestrator_report") {
        orch_tools::orchestrator_report_tool(args, host)
    } else {
        Some(
            Err("session-control does not provide tool '".to_owned().concat(tool).concat("'")),
        )
    }
}

/// Whether a tool of session control changes something.
pub open spec fn mutates(tool: Seq<char>) -> bool {
    tool == "interrupt_session"@ || tool == "terminate_agent"@ || tool == "clear_session"@ || tool
        == "send_message"@ || tool == "send_image"@
}

/// Whether a result says that the user has been asked.
pub open spec fn is_awaiting(value: JsonView) -> bool {
    value.text_at("status"@) == Some("awaiting_approval"@)
}

/// `mcp.tool.invoke`, once tool and arguments are known. What a control tool
/// did counts as an action of the calling brain; the orchestrator tools count
/// themselves, and a question to the user is no action.
pub open spec fn invoke_run(tool: Seq<char>, args: JsonView, s: Script) -> (
    Script,
    Option<JsonView>,
) {
    let (s, r) = tool_run(tool, args, s);
    match r {
        None => (s, None),
        Some(Err(reason)) => (s, Some(cancelled(reason))),
        Some(Ok(value)) => if mutates(tool) && !is_awaiting(value) {
            let (s, done) = orch_tools::attribute_action_run(tool, args.text_at("session_id"@), s);
            (
                s,
                match done {
                    Some(_) => Some(allowed(value)),
                    None => None,
                },
            )
        } else {
            (s, Some(allowed(value)))
        },
    }
}

/// The arguments of a call; null where there are none.
pub open spec fn arguments(payload: JsonView) -> JsonView {
    match payload.get("arguments"@) {
        Some(args) => args,
        None => JsonView::Null,
    }
}

/// `mcp.tool.invoke`.
pub open spec fn handle_invoke_run(payload: JsonView, s: Script) -> (Script, Option<JsonView>) {
    invoke_run(text::or_else(payload.text_at("tool"@), ""@), arguments(payload), s)
}

/// Runs a tool and counts what it did.
fn invoke(tool: &str, args: &Json, host: &mut Host) -> (r: Option<Json>)
    ensures
        final(host)@ == invoke_run(tool@, args@, old(host)@).0,
        r.deep_view() == invoke_run(tool@, args@, old(host)@).1,
{
    match run_tool(tool, args, host)? {
        Err(reason) => Some(cancel(reason.as_str())),
        Ok(value) => {
            let mutating = same(tool, "interrupt_session") || same(tool, "terminate_agent")
                || same(tool, "clear_session") || same(tool, "send_message") || same(
                tool,
                "send_image",
            );
            let awaiting = match value.text_at("status") {
                Some(status) => same(status, "awaiting_approval"),
                None => false,
            };
            if mutating && !awaiting {
                orch_tools::attribute_action(tool, args.text_at("session_id"), host)?;
            }
            Some(allow(value))
        },
    }
}

/// Dispatch an `mcp.tool.invoke` to the right tool. The refusal of a tool
/// cancels, and so does a tool that does not exist; success allows, with the
/// value.
pub fn handle_invoke(payload: &Json, host: &mut Host) -> (r: Option<Json>)
    ensures
        final(host)@ == handle_invoke_run(payload@, old(host)@).0,
        r.deep_view() == handle_invoke_run(payload@, old(host)@).1,
{
    let none = Json::Null;
    let args = match payload.get("arguments") {
        Some(args) => args,
        None => &none,
    };
    invoke(text::str_or(payload.text_at("tool"), ""), args, host)
}

// ── Dispatch ──────────────────────────────────────────────────────────

/// The verdict of what a run comes to.
pub open spec fn notified_run(run: (Script, Option<Result<JsonView, Seq<char>>>)) -> (
    Script,
    Option<JsonView>,
) {
    (
        run.0,
        match run.1 {
            Some(r) => Some(notified(r)),
            None => None,
        },
    )
}

/// The verdict of what a run comes to.
pub open spec fn decided_run(run: (Script, Option<Result<JsonView, Seq<char>>>)) -> (
    Script,
    Option<JsonView>,
) {
    (
        run.0,
        match run.1 {
            Some(r) => Some(decided(r)),
            None => None,
        },
    )
}

/// Routes one hook.
pub open spec fn dispatch_run(hook: Seq<char>, payload: JsonView, s: Script) -> (
    Script,
    Option<JsonView>,
) {
    if hook == "mcp.tool.invoke"@ {
        handle_invoke_run(payload, s)
    } else if hook == "timer.tick"@ {
        notified_run(engine::on_timer_tick_run(payload, s))
    } else if hook == "session.agent.ended"@ {
        notified_run(engine::on_agent_ended_run(payload, s))
    } else if hook == "session.message.before"@ {
        let (s, r) = engine::on_message_before_run(payload, s);
        (
            s,
            match r {
                Some(_) => Some(skipped()),
                None => None,
            },
        )
    } else if hook == "http.request.before"@ {
        (s, Some(allowed(page::page_response(payload))))
    } else if hook == "http.request.authed"@ {
        decided_run(page::serve_authed_run(payload, s))
    } else {
        (s, Some(skipped()))
    }
}

/// Routes one hook to its verdict. The engine's hooks are notifications: what
/// goes wrong in them is told in the payload, so that a hiccup never cancels
/// anything at the host.
pub fn dispatch(hook: &str, payload: &Json, host: &mut Host) -> (r: Option<Json>)
    ensures
        final(host)@ == dispatch_run(hook@, payload@, old(host)@).0,
        r.deep_view() == dispatch_run(hook@, payload@, old(host)@).1,
{
    if same(hook, "mcp.tool.invoke") {
        handle_invoke(payload, host)
    } else if same(hook, "timer.tick") {
        Some(notification(engine::on_timer_tick(payload, host)?))
    } else if same(hook, "session.agent.ended") {
        Some(notification(engine::on_agent_ended(payload, host)?))
    } else if same(hook, "session.message.before") {
        // Observed only (busy tracking): the message is never rewritten.
        let _ = engine::on_message_before(payload, host)?;
        Some(skip())
    } else if same(hook, "http.request.before") {
        Some(decide(page::serve_public(payload)))
    } else if same(hook, "http.request.authed") {
        Some(decide(page::serve_authed(payload, host)?))
    } else {
        Some(skip())
    }
}

/// Routes one hook; the verdict is given as text.
pub fn dispatch_hook(hook: &str, payload: &Json, host: &mut Host) -> (r: Option<String>)
    ensures
        final(host)@ == dispatch_run(hook@, payload@, old(host)@).0,
        r.deep_view() == (match dispatch_run(hook@, payload@, old(host)@).1 {
            Some(verdict) => Some(json::json_text(verdict)),
            None => None,
        }),
{
    Some(dispatch(hook, payload, host)?.to_text())
}

} // verus!

//! What the host sees of the plugin: hooks, verdicts and the manifest.

use vstd::prelude::*;

use crate::brain_laws;
use crate::control_laws;
use crate::dispatch_laws;
use crate::engine;
use crate::hooks;
use crate::host::Script;
use crate::json::{self, JsonView};
use crate::manifest;
use crate::orch_tools;
use crate::page;
use crate::page_html;

verus! {

// ── Verdicts ──────────────────────────────────────────────────────────

/// The verdict that allows, with a payload.
pub open spec fn allows(payload: JsonView) -> JsonView {
    JsonView::Object(map!["verdict"@ => JsonView::Text("allow"@), "payload"@ => payload])
}

/// The verdict that cancels, with a reason.
pub open spec fn cancels(reason: Seq<char>) -> JsonView {
    JsonView::Object(
        map!["verdict"@ => JsonView::Text("cancel"@), "reason"@ => JsonView::Text(reason)],
    )
}

/// The verdict that takes no part.
pub open spec fn skips() -> JsonView {
    JsonView::Object(map!["verdict"@ => JsonView::Text("skip"@)])
}

/// A notification allows whatever came of it, and says what went wrong; a
/// decision cancels where something did.
pub proof fn verdicts_have_a_shape(doc: JsonView, e: Seq<char>)
    ensures
        hooks::allowed(doc) == allows(doc),
        hooks::cancelled(e) == cancels(e),
        hooks::skipped() == skips(),
        hooks::notified(Ok(doc)) == allows(doc),
        hooks::notified(Err(e)) == allows(
            JsonView::Object(map!["ok"@ => JsonView::Bool(false), "error"@ => JsonView::Text(e)]),
        ),
        hooks::decided(Ok(doc)) == allows(doc),
        hooks::decided(Err(e)) == cancels(e),
{
}

/// The names of the hooks differ.
proof fn hook_names_differ()
    ensures
        "mcp.tool.invoke"@ != "timer.tick"@,
        "mcp.tool.invoke"@ != "session.agent.ended"@,
        "mcp.tool.invoke"@ != "session.message.before"@,
        "mcp.tool.invoke"@ != "http.request.before"@,
        "mcp.tool.invoke"@ != "http.request.authed"@,
        "timer.tick"@ != "session.agent.ended"@,
        "timer.tick"@ != "session.message.before"@,
        "timer.tick"@ != "http.request.before"@,
        "timer.tick"@ != "http.request.authed"@,
        "session.agent.ended"@ != "session.message.before"@,
        "session.agent.ended"@ != "http.request.before"@,
        "session.agent.ended"@ != "http.request.authed"@,
        "session.message.before"@ != "http.request.before"@,
        "session.message.before"@ != "http.request.authed"@,
        "http.request.before"@ != "http.request.authed"@,
{
    reveal_strlit("mcp.tool.invoke");
    reveal_strlit("timer.tick");
    reveal_strlit("session.agent.ended");
    reveal_strlit("session.message.before");
    reveal_strlit("http.request.before");
    reveal_strlit("http.request.authed");
    assert("mcp.tool.invoke"@.len() == 15 && "timer.tick"@.len() == 10);
    assert("session.agent.ended"@.len() == 19 && "session.message.before"@.len() == 22);
    assert("http.request.before"@.len() == 19 && "http.request.authed"@.len() == 19);
    assert("session.agent.ended"@[0] == 's' && "http.request.before"@[0] == 'h');
    assert("http.request.authed"@[0] == 'h');
    assert("http.request.before"@[13] == 'b' && "http.request.authed"@[13] == 'a');
}

/// A run of the engine is allowed with what it says, or with the error that came
/// of it.
pub open spec fn notification_of(
    run: (Script, Option<JsonView>),
    inner: (Script, Option<Result<JsonView, Seq<char>>>),
) -> bool {
    &&& run.0 == inner.0
    &&& inner.1 is None ==> run.1 is None
    &&& inner.1 matches Some(Ok(doc)) ==> run.1 == Some(allows(doc))
    &&& inner.1 matches Some(Err(e)) ==> run.1 == Some(
        allows(
            JsonView::Object(map!["ok"@ => JsonView::Bool(false), "error"@ => JsonView::Text(e)]),
        ),
    )
}

/// Ticks and ends of turns are notifications of the engine.
pub proof fn engine_hooks_are_notifications(payload: JsonView, s: Script)
    ensures
        notification_of(
            hooks::dispatch_run("timer.tick"@, payload, s),
            engine::on_timer_tick_run(payload, s),
        ),
        notification_of(
            hooks::dispatch_run("session.agent.ended"@, payload, s),
            engine::on_agent_ended_run(payload, s),
        ),
{
    hook_names_differ();
}

/// A message is looked at before it is sent, and takes its way.
pub proof fn messages_are_looked_at(payload: JsonView, s: Script)
    ensures
        ({
            let run = hooks::dispatch_run("session.message.before"@, payload, s);
            let inner = engine::on_message_before_run(payload, s);
            &&& run.0 == inner.0
            &&& inner.1 is Some ==> run.1 == Some(skips())
            &&& inner.1 is None ==> run.1 is None
        }),
{
    hook_names_differ();
}

/// An open request is answered with the page on its path, and with a page that
/// says there is none elsewhere.
pub proof fn open_requests_get_the_page(payload: JsonView, s: Script)
    ensures
        ({
            let found = payload.get("path"@) == Some(
                JsonView::Text("/plugin-api/v1/orchestrators"@),
            );
            hooks::dispatch_run("http.request.before"@, payload, s) == (
                s,
                Some(
                    allows(
                        JsonView::Object(
                            map![
                                "status"@ => json::uint_view(
                                    if found {
                                        200
                                    } else {
                                        404
                                    },
                                ),
                                "headers"@ => JsonView::Object(
                                    map![
                                        "content-type"@ => JsonView::Text(
                                            "text/html; charset=utf-8"@,
                                        )
                                    ],
                                ),
                                "body"@ => JsonView::Text(
                                    if found {
                                        page_html::page_text()
                                    } else {
                                        "<!doctype html><h1>404</h1>"@
                                    },
                                )
                            ],
                        ),
                    ),
                ),
            )
        }),
{
    hook_names_differ();
}

/// An authenticated request is allowed with the response of its route.
pub proof fn authenticated_requests_are_served(payload: JsonView, s: Script)
    ensures
        ({
            let run = hooks::dispatch_run("http.request.authed"@, payload, s);
            let inner = page::serve_authed_run(payload, s);
            &&& run.0 == inner.0
            &&& inner.1 is None ==> run.1 is None
            &&& inner.1 matches Some(Ok(doc)) ==> run.1 == Some(allows(doc))
            &&& inner.1 matches Some(Err(e)) ==> run.1 == Some(cancels(e))
        }),
{
    hook_names_differ();
}

/// A call of a tool hands on the tool's name and its arguments, which are null
/// where there are none.
pub proof fn calls_are_taken_apart(payload: JsonView, tool: Seq<char>, args: JsonView, s: Script)
    requires
        payload.get("tool"@) == Some(JsonView::Text(tool)),
    ensures
        payload.get("arguments"@) == Some(args) ==> hooks::dispatch_run(
            "mcp.tool.invoke"@,
            payload,
            s,
        ) == hooks::invoke_run(tool, args, s),
        payload.get("arguments"@) is None ==> hooks::dispatch_run("mcp.tool.invoke"@, payload, s)
            == hooks::invoke_run(tool, JsonView::Null, s),
{
}

/// What a tool says is allowed, and what it refuses is cancelled. What one of
/// the control tools did is attributed to the calling brain with the session
/// of the call; a question to the user, and every other tool, is not.
pub proof fn tools_decide_their_calls(
    tool: Seq<char>,
    args: JsonView,
    s: Script,
    t: Script,
    value: JsonView,
    reason: Seq<char>,
)
    ensures
        ({
            let run = hooks::invoke_run(tool, args, s);
            let acts = tool == "interrupt_session"@ || tool == "terminate_agent"@ || tool
                == "clear_session"@ || tool == "send_message"@ || tool == "send_image"@;
            let asks = value.get("status"@) == Some(JsonView::Text("awaiting_approval"@));
            let target = match args.get("session_id"@) {
                Some(JsonView::Text(id)) => Some(id),
                _ => None,
            };
            &&& hooks::tool_run(tool, args, s) == (t, Some(Err::<JsonView, Seq<char>>(reason)))
                ==> run == (t, Some(cancels(reason)))
            &&& hooks::tool_run(tool, args, s) == (t, Some(Ok::<JsonView, Seq<char>>(value)))
                ==> {
                let (u, done) = orch_tools::attribute_action_run(tool, target, t);
                &&& !acts || asks ==> run == (t, Some(allows(value)))
                &&& acts && !asks ==> run.0 == u
                &&& acts && !asks && done is Some ==> run.1 == Some(allows(value))
                &&& acts && !asks && done is None ==> run.1 is None
            }
        }),
{
}

// ── The manifest ──────────────────────────────────────────────────────

/// The hooks of the manifest are those that are handled: any other is skipped
/// without a request.
pub proof fn declared_hooks_are_handled(hook: Seq<char>, payload: JsonView, s: Script)
    ensures
        manifest::hooks().len() == 6,
        (forall|i: int| 0 <= i < 6 ==> #[trigger] manifest::hooks()[i] != JsonView::Text(hook))
            ==> hooks::dispatch_run(hook, payload, s) == (s, Some(skips())),
{
    let h = manifest::hooks();
    assert(h[0] == JsonView::Text("mcp.tool.invoke"@));
    assert(h[1] == JsonView::Text("timer.tick"@));
    assert(h[2] == JsonView::Text("session.agent.ended"@));
    assert(h[3] == JsonView::Text("session.message.before"@));
    assert(h[4] == JsonView::Text("http.request.before"@));
    assert(h[5] == JsonView::Text("http.request.authed"@));
}

/// The names in a schema differ.
proof fn schema_names_differ()
    ensures
        "input_schema"@ != "name"@,
        "input_schema"@ != "title"@,
        "input_schema"@ != "description"@,
        "required"@ != "type"@,
        "required"@ != "properties"@,
        "required"@ != "additionalProperties"@,
{
    reveal_strlit("input_schema");
    reveal_strlit("name");
    reveal_strlit("title");
    reveal_strlit("description");
    reveal_strlit("required");
    reveal_strlit("type");
    reveal_strlit("properties");
    reveal_strlit("additionalProperties");
    assert("input_schema"@.len() == 12 && "name"@.len() == 4 && "title"@.len() == 5);
    assert("description"@.len() == 11 && "required"@.len() == 8 && "type"@.len() == 4);
    assert("properties"@.len() == 10 && "additionalProperties"@.len() == 20);
}

/// The arguments that the manifest says the tool needs.
pub open spec fn needs(i: int) -> Option<Seq<JsonView>> {
    match manifest::tools()[i].get("input_schema"@) {
        Some(schema) => match schema.get("required"@) {
            Some(JsonView::Array(keys)) => Some(keys),
            _ => None,
        },
        None => None,
    }
}

/// The arguments that each tool needs.
proof fn needed_arguments()
    ensures
        needs(0) == Some(seq![JsonView::Text("session_id"@)]),
        needs(1) == Some(seq![JsonView::Text("session_id"@)]),
        needs(2) == Some(seq![JsonView::Text("session_id"@)]),
        needs(3) == Some(seq![JsonView::Text("session_id"@), JsonView::Text("text"@)]),
        needs(4) == Some(
            seq![
                JsonView::Text("session_id"@),
                JsonView::Text("image_base64"@),
                JsonView::Text("mime_type"@),
            ],
        ),
        needs(5) == Some(Seq::<JsonView>::empty()),
        needs(6) == Some(seq![JsonView::Text("name"@)]),
        needs(7) == Some(
            seq![
                JsonView::Text("session_id"@),
                JsonView::Text("hat"@),
                JsonView::Text("responsibilities"@),
            ],
        ),
        needs(8) == Some(seq![JsonView::Text("session_id"@)]),
        needs(9) == Some(seq![JsonView::Text("session_id"@)]),
        needs(10) == Some(Seq::<JsonView>::empty()),
        needs(11) == Some(seq![JsonView::Text("state"@)]),
        needs(12) == Some(seq![JsonView::Text("summary"@)]),
{
    schema_names_differ();
}

/// Every tool of the manifest lists the arguments that it needs, and is refused
/// where one is missing: the refusal names the first of them, and nothing is
/// asked.
pub proof fn needed_arguments_are_enforced(
    i: int,
    j: int,
    key: Seq<char>,
    args: JsonView,
    s: Script,
)
    requires
        0 <= i < dispatch_laws::names().len(),
        needs(i) matches Some(keys) && 0 <= j < keys.len() && keys[j] == JsonView::Text(key)
            && forall|k: int|
            0 <= k < j ==> ((#[trigger] keys[k]) matches JsonView::Text(other)
                && brain_laws::argument(args, other) is Some),
        brain_laws::argument(args, key) is None,
    ensures
        needs(i) is Some,
        hooks::tool_run(dispatch_laws::names()[i], args, s) == (s, brain_laws::missing(key)),
{
    needed_arguments();
    control_laws::tool_names_differ();
    control_laws::arguments_are_taken_as_given(args, "session_id"@);
    control_laws::arguments_are_taken_as_given(args, "text"@);
    control_laws::arguments_are_taken_as_given(args, "image_base64"@);
    control_laws::arguments_are_taken_as_given(args, "mime_type"@);
    control_laws::arguments_are_taken_as_given(args, "name"@);
    control_laws::arguments_are_taken_as_given(args, "hat"@);
    control_laws::arguments_are_taken_as_given(args, "responsibilities"@);
    control_laws::arguments_are_taken_as_given(args, "state"@);
    control_laws::arguments_are_taken_as_given(args, "summary"@);
    control_laws::missing_arguments_are_told(args, s);
    control_laws::orchestrator_tools_are_dispatched(args, s);
    let n = dispatch_laws::names();
    assert(n[0] == "interrupt_session"@ && n[1] == "terminate_agent"@ && n[2] == "clear_session"@);
    assert(n[3] == "send_message"@ && n[4] == "send_image"@ && n[5] == "find_session"@);
    assert(n[6] == "create_session"@ && n[7] == "assign_hat"@ && n[8] == "watch_session"@);
    assert(n[9] == "unwatch_session"@ && n[10] == "list_managed_sessions"@);
    assert(n[11] == "update_goal_status"@ && n[12] == "orchestrator_report"@);
    let keys = needs(i)->0;
    if j >= 1 {
        assert(keys[0] is Text);
    }
    if j >= 2 {
        assert(keys[1] is Text);
    }
}

/// The arguments that the manifest says the tool takes.
pub open spec fn takes(i: int) -> Option<Set<Seq<char>>> {
    match manifest::tools()[i].get("input_schema"@) {
        Some(schema) => match schema.get("properties"@) {
            Some(JsonView::Object(fields)) => Some(fields.dom()),
            _ => None,
        },
        None => None,
    }
}

/// The arguments that the manifest declares of each tool.
pub proof fn arguments_are_declared()
    ensures
        manifest::tools().len() == dispatch_laws::names().len(),
        takes(0) == Some(set!["session_id"@]),
        takes(1) == Some(set!["session_id"@]),
        takes(2) == Some(set!["session_id"@]),
        takes(3) == Some(set!["session_id"@, "text"@]),
        takes(4) == Some(set!["session_id"@, "image_base64"@, "mime_type"@, "filename"@, "caption"@]),
        takes(5) == Some(set!["query"@]),
        takes(6) == Some(set!["name"@, "model"@, "hat"@, "responsibilities"@]),
        takes(7) == Some(set!["session_id"@, "hat"@, "responsibilities"@]),
        takes(8) == Some(set!["session_id"@]),
        takes(9) == Some(set!["session_id"@]),
        takes(10) == Some(Set::<Seq<char>>::empty()),
        takes(11) == Some(set!["state"@, "note"@, "percent"@, "eta_minutes"@]),
        takes(12) == Some(set!["summary"@]),
{
    schema_names_differ();
    reveal_strlit("properties");
    reveal_strlit("type");
    reveal_strlit("required");
    reveal_strlit("additionalProperties");
    assert("properties"@.len() == 10 && "additionalProperties"@.len() == 20);
    assert("type"@.len() == 4 && "required"@.len() == 8);
    assert(takes(0)->0 =~= set!["session_id"@]);
    assert(takes(1)->0 =~= set!["session_id"@]);
    assert(takes(2)->0 =~= set!["session_id"@]);
    assert(takes(3)->0 =~= set!["session_id"@, "text"@]);
    assert(takes(4)->0 =~= set!["session_id"@, "image_base64"@, "mime_type"@, "filename"@, "caption"@]);
    assert(takes(5)->0 =~= set!["query"@]);
    assert(takes(6)->0 =~= set!["name"@, "model"@, "hat"@, "responsibilities"@]);
    assert(takes(7)->0 =~= set!["session_id"@, "hat"@, "responsibilities"@]);
    assert(takes(8)->0 =~= set!["session_id"@]);
    assert(takes(9)->0 =~= set!["session_id"@]);
    assert(takes(10)->0 =~= Set::<Seq<char>>::empty());
    assert(takes(11)->0 =~= set!["state"@, "note"@, "percent"@, "eta_minutes"@]);
    assert(takes(12)->0 =~= set!["summary"@]);
}

/// The manifest names the hooks, the tools, the page with its place in the
/// sidebar, the routes behind it, and what the plugin is permitted to do.
pub proof fn manifest_names_its_parts(
    description: Seq<char>,
    version: Seq<char>,
    repository: Seq<char>,
)
    ensures
        manifest::manifest_doc(description, version, repository) == JsonView::Object(
            map![
                "description"@ => JsonView::Text(description),
                "version"@ => JsonView::Text(version),
                "repository"@ => JsonView::Text(repository),
                "hooks"@ => JsonView::Array(manifest::hooks()),
                "mcp_tools"@ => JsonView::Array(manifest::tools()),
                "sidebar_items"@ => JsonView::Array(
                    seq![
                        JsonView::Object(
                            map![
                                "id"@ => JsonView::Text("orchestrators"@),
                                "label"@ => JsonView::Text("Orchestrators"@),
                                "icon"@ => JsonView::Text(manifest::ICON@),
                                "path"@ => JsonView::Text("/plugin-api/v1/orchestrators"@)
                            ],
                        ),
                    ],
                ),
                "http_routes"@ => JsonView::Array(
                    seq![JsonView::Text("GET "@ + "/plugin-api/v1/orchestrators"@)],
                ),
                "ui_routes"@ => json::texts_view(
                    seq![
                        "GET /api/plugin-ui/session-control/orchestrators"@,
                        "POST /api/plugin-ui/session-control/orchestrators"@,
                        "POST /api/plugin-ui/session-control/orchestrators/:id"@,
                        "POST /api/plugin-ui/session-control/orchestrators/:id/delete"@,
                        "POST /api/plugin-ui/session-control/orchestrators/:id/run"@,
                        "POST /api/plugin-ui/session-control/orchestrators/:id/dry-run"@,
                        "POST /api/plugin-ui/session-control/orchestrators/:id/pause"@,
                        "POST /api/plugin-ui/session-control/pause-all"@,
                        "GET /api/plugin-ui/session-control/pickers"@,
                    ],
                ),
                "permissions"@ => json::texts_view(
                    seq![
                        "provide_mcp_tools"@,
                        "session_control"@,
                        "ask_user"@,
                        "data_store"@,
                        "session_orchestrate"@,
                        "session_write"@,
                        "models_read"@,
                        "user_authority"@,
                        "contribute_sidebar"@,
                    ],
                )
            ],
        ),
{
    let routes = seq![
        "GET /api/plugin-ui/session-control/orchestrators"@,
        "POST /api/plugin-ui/session-control/orchestrators"@,
        "POST /api/plugin-ui/session-control/orchestrators/:id"@,
        "POST /api/plugin-ui/session-control/orchestrators/:id/delete"@,
        "POST /api/plugin-ui/session-control/orchestrators/:id/run"@,
        "POST /api/plugin-ui/session-control/orchestrators/:id/dry-run"@,
        "POST /api/plugin-ui/session-control/orchestrators/:id/pause"@,
        "POST /api/plugin-ui/session-control/pause-all"@,
        "GET /api/plugin-ui/session-control/pickers"@,
    ];
    let permissions = seq![
        "provide_mcp_tools"@,
        "session_control"@,
        "ask_user"@,
        "data_store"@,
        "session_orchestrate"@,
        "session_write"@,
        "models_read"@,
        "user_authority"@,
        "contribute_sidebar"@,
    ];
    assert(json::texts_view(routes)->Array_0 =~= manifest::ui_routes());
    assert(json::texts_view(permissions)->Array_0 =~= manifest::permissions());
}

} // verus!

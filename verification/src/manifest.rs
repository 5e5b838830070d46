//! Plugin manifest: identity, hooks, MCP tools, UI surfaces, and host
//! permissions.

use vstd::prelude::*;
use vstd::string::*;

use crate::json::{self, Fields, Items, Json, JsonView};
use crate::page;

verus! {

/// Inline SVG (lucide "network") for the sidebar entry; rendered sandboxed.
pub const ICON: &'static str = "<svg xmlns=\"http://www.w3.org/2000/svg\" viewBox=\"0 0 24 24\" fill=\"none\" \
stroke=\"currentColor\" stroke-width=\"2\" stroke-linecap=\"round\" stroke-linejoin=\"round\">\
<rect x=\"16\" y=\"16\" width=\"6\" height=\"6\" rx=\"1\"/><rect x=\"2\" y=\"16\" width=\"6\" height=\"6\" rx=\"1\"/>\
<rect x=\"9\" y=\"2\" width=\"6\" height=\"6\" rx=\"1\"/><path d=\"M5 16v-3a1 1 0 0 1 1-1h12a1 1 0 0 1 1 1v3\"/>\
<path d=\"M12 12V8\"/></svg>";

/// A parameter of a tool.
pub open spec fn parameter(kind: Seq<char>, about: Seq<char>) -> JsonView {
    JsonView::Object(
        map!["type"@ => JsonView::Text(kind), "description"@ => JsonView::Text(about)],
    )
}

/// A parameter of a tool.
fn parameter_json(kind: &str, about: &str) -> (r: Json)
    ensures
        r@ == parameter(kind@, about@),
{
    Fields::new().with("type", Json::text(kind)).with("description", Json::text(about)).done()
}

/// A tool: its name, title and description, its parameters, and which of them
/// are required.
pub open spec fn tool(
    name: Seq<char>,
    title: Seq<char>,
    about: Seq<char>,
    parameters: Map<Seq<char>, JsonView>,
    required: Seq<JsonView>,
) -> JsonView {
    JsonView::Object(
        map![
            "name"@ => JsonView::Text(name),
            "title"@ => JsonView::Text(title),
            "description"@ => JsonView::Text(about),
            "input_schema"@ => JsonView::Object(
                map![
                    "type"@ => JsonView::Text("object"@),
                    "properties"@ => JsonView::Object(parameters),
                    "required"@ => JsonView::Array(required),
                    "additionalProperties"@ => JsonView::Bool(false)
                ],
            )
        ],
    )
}

/// A tool.
fn tool_json(name: &str, title: &str, about: &str, parameters: Fields, required: Items) -> (r: Json)
    ensures
        r@ == tool(name@, title@, about@, parameters@, required@),
{
    let schema = Fields::new().with("type", Json::text("object")).with(
        "properties",
        parameters.done(),
    ).with("required", required.done()).with("additionalProperties", Json::Bool(false)).done();
    Fields::new().with("name", Json::text(name)).with("title", Json::text(title)).with(
        "description",
        Json::text(about),
    ).with("input_schema", schema).done()
}

/// What is said of `interrupt_session`.
pub const INTERRUPT_SESSION: &'static str =
    "Stop another session's in-flight agent turn (cancel the current run) without deleting the session or its history. Same-folder targets run immediately; cross-folder targets ask the user (Approve once / Approve always / Deny) and return status awaiting_approval until answered — then re-call with the same session_id. Discover ids with find_session / list_sessions.";

/// The tool `interrupt_session`.
pub open spec fn interrupt_session_doc() -> JsonView {
    tool(
        "interrupt_session"@,
        "Interrupt a session"@,
        INTERRUPT_SESSION@,
        map![
            "session_id"@ => parameter("string"@, "The session to interrupt."@)
        ],
        seq![JsonView::Text("session_id"@)],
    )
}

/// The tool `interrupt_session`.
fn interrupt_session() -> (r: Json)
    ensures
        r@ == interrupt_session_doc(),
{
    let parameters = Fields::new().with(
        "session_id",
        parameter_json("string", "The session to interrupt."),
    );
    tool_json("interrupt_session", "Interrupt a session", INTERRUPT_SESSION, parameters, Items::new().with(Json::text("session_id")))
}

/// What is said of `terminate_agent`.
pub const TERMINATE_AGENT: &'static str =
    "Kill another session's long-lived agent process. Unlike interrupt (which stops the current turn), this tears the process down entirely; the next message to that session starts a fresh agent. The transcript is preserved. Same-folder immediate; cross-folder asks Approve once / Always / Deny.";

/// The tool `terminate_agent`.
pub open spec fn terminate_agent_doc() -> JsonView {
    tool(
        "terminate_agent"@,
        "Terminate a session's agent"@,
        TERMINATE_AGENT@,
        map![
            "session_id"@ => parameter("string"@, "The session whose agent to terminate."@)
        ],
        seq![JsonView::Text("session_id"@)],
    )
}

/// The tool `terminate_agent`.
fn terminate_agent() -> (r: Json)
    ensures
        r@ == terminate_agent_doc(),
{
    let parameters = Fields::new().with(
        "session_id",
        parameter_json("string", "The session whose agent to terminate."),
    );
    tool_json("terminate_agent", "Terminate a session's agent", TERMINATE_AGENT, parameters, Items::new().with(Json::text("session_id")))
}

/// What is said of `clear_session`.
pub const CLEAR_SESSION: &'static str =
    "Wipe another session: cancel any running turn, delete its entire event history and todos, drop its attachments, and reset its conversation so it starts fresh. Destructive and irreversible. Same-folder immediate; cross-folder asks Approve once / Always / Deny.";

/// The tool `clear_session`.
pub open spec fn clear_session_doc() -> JsonView {
    tool(
        "clear_session"@,
        "Clear a session"@,
        CLEAR_SESSION@,
        map![
            "session_id"@ => parameter("string"@, "The session to clear."@)
        ],
        seq![JsonView::Text("session_id"@)],
    )
}

/// The tool `clear_session`.
fn clear_session() -> (r: Json)
    ensures
        r@ == clear_session_doc(),
{
    let parameters = Fields::new().with(
        "session_id",
        parameter_json("string", "The session to clear."),
    );
    tool_json("clear_session", "Clear a session", CLEAR_SESSION, parameters, Items::new().with(Json::text("session_id")))
}

/// What is said of `send_message`.
pub const SEND_MESSAGE: &'static str =
    "Deliver a text message to another session as if it were a user message, and resume that session. Same-folder immediate; cross-folder asks Approve once / Always / Deny (re-call after the user answers).";

/// The tool `send_message`.
pub open spec fn send_message_doc() -> JsonView {
    tool(
        "send_message"@,
        "Send a message to a session"@,
        SEND_MESSAGE@,
        map![
            "session_id"@ => parameter("string"@, "The session to message."@),
            "text"@ => parameter("string"@, "The message text to deliver."@)
        ],
        seq![JsonView::Text("session_id"@), JsonView::Text("text"@)],
    )
}

/// The tool `send_message`.
fn send_message() -> (r: Json)
    ensures
        r@ == send_message_doc(),
{
    let parameters = Fields::new().with(
        "session_id",
        parameter_json("string", "The session to message."),
    ).with(
        "text",
        parameter_json("string", "The message text to deliver."),
    );
    let required = Items::new().with(Json::text("session_id")).with(Json::text("text"));
    assert(required@ =~= seq![JsonView::Text("session_id"@), JsonView::Text("text"@)]);
    tool_json("send_message", "Send a message to a session", SEND_MESSAGE, parameters, required)
}

/// What is said of `send_image`.
pub const SEND_IMAGE: &'static str =
    "Deliver an image to another session as an attachment on a (resumed) user message, with an optional caption. Same-folder immediate; cross-folder asks Approve once / Always / Deny.";

/// The tool `send_image`.
pub open spec fn send_image_doc() -> JsonView {
    tool(
        "send_image"@,
        "Send an image to a session"@,
        SEND_IMAGE@,
        map![
            "session_id"@ => parameter("string"@, "The session to send the image to."@),
            "image_base64"@ => parameter("string"@, "The image bytes, base64-encoded (standard, not data-URL)."@),
            "mime_type"@ => parameter("string"@, "The image mime type, e.g. \"image/png\" or \"image/jpeg\"."@),
            "filename"@ => parameter("string"@, "Optional file name for the attachment (default \"image\")."@),
            "caption"@ => parameter("string"@, "Optional text delivered alongside the image."@)
        ],
        seq![JsonView::Text("session_id"@), JsonView::Text("image_base64"@), JsonView::Text("mime_type"@)],
    )
}

/// The tool `send_image`.
fn send_image() -> (r: Json)
    ensures
        r@ == send_image_doc(),
{
    let parameters = Fields::new().with(
        "session_id",
        parameter_json("string", "The session to send the image to."),
    ).with(
        "image_base64",
        parameter_json("string", "The image bytes, base64-encoded (standard, not data-URL)."),
    ).with(
        "mime_type",
        parameter_json("string", "The image mime type, e.g. \"image/png\" or \"image/jpeg\"."),
    ).with(
        "filename",
        parameter_json("string", "Optional file name for the attachment (default \"image\")."),
    ).with(
        "caption",
        parameter_json("string", "Optional text delivered alongside the image."),
    );
    let required = Items::new().with(Json::text("session_id")).with(Json::text("image_base64")).with(Json::text("mime_type"));
    assert(required@ =~= seq![JsonView::Text("session_id"@), JsonView::Text("image_base64"@), JsonView::Text("mime_type"@)]);
    tool_json("send_image", "Send an image to a session", SEND_IMAGE, parameters, required)
}

/// What is said of `find_session`.
pub const FIND_SESSION: &'static str =
    "List sessions anywhere in this Peckboard instance -- every folder and project -- so you can resolve a target for the other session-control tools. Discovery does not require approval; acting on a cross-folder match does. Returns session_id, name, folder_id, project_id, conversation_id, model, worker/expert flags, card_id, and last_activity, newest first. Optional 'query' filters by case-insensitive substring.";

/// The tool `find_session`.
pub open spec fn find_session_doc() -> JsonView {
    tool(
        "find_session"@,
        "Find sessions across all folders"@,
        FIND_SESSION@,
        map![
            "query"@ => parameter("string"@, "Optional case-insensitive substring to match against session id, name, conversation_id, model, or folder_id. Omit to list every session."@)
        ],
        Seq::empty(),
    )
}

/// The tool `find_session`.
fn find_session() -> (r: Json)
    ensures
        r@ == find_session_doc(),
{
    let parameters = Fields::new().with(
        "query",
        parameter_json("string", "Optional case-insensitive substring to match against session id, name, conversation_id, model, or folder_id. Omit to list every session."),
    );
    tool_json("find_session", "Find sessions across all folders", FIND_SESSION, parameters, Items::new())
}

/// What is said of `create_session`.
pub const CREATE_SESSION: &'static str =
    "Create a new session in your folder when more work is required, optionally wearing a hat (a named scope of responsibility written into its system prompt). When you are an orchestrator brain session the new session is auto-watched — you are re-engaged when its turns end — and it counts against your max_sessions_created cap. Send it work with send_message.";

/// The tool `create_session`.
pub open spec fn create_session_doc() -> JsonView {
    tool(
        "create_session"@,
        "Create a session for more work"@,
        CREATE_SESSION@,
        map![
            "name"@ => parameter("string"@, "Display name for the new session."@),
            "model"@ => parameter("string"@, "Optional model id (provider-prefixed, e.g. \"provider:...\"); defaults to the instance default."@),
            "hat"@ => parameter("string"@, "Optional hat name, e.g. \"QA\", \"Frontend\", \"Review\"."@),
            "responsibilities"@ => parameter("string"@, "What the hat covers — required to be meaningful when 'hat' is set."@)
        ],
        seq![JsonView::Text("name"@)],
    )
}

/// The tool `create_session`.
fn create_session() -> (r: Json)
    ensures
        r@ == create_session_doc(),
{
    let parameters = Fields::new().with(
        "name",
        parameter_json("string", "Display name for the new session."),
    ).with(
        "model",
        parameter_json("string", "Optional model id (provider-prefixed, e.g. \"provider:...\"); defaults to the instance default."),
    ).with(
        "hat",
        parameter_json("string", "Optional hat name, e.g. \"QA\", \"Frontend\", \"Review\"."),
    ).with(
        "responsibilities",
        parameter_json("string", "What the hat covers — required to be meaningful when 'hat' is set."),
    );
    tool_json("create_session", "Create a session for more work", CREATE_SESSION, parameters, Items::new().with(Json::text("name")))
}

/// What is said of `assign_hat`.
pub const ASSIGN_HAT: &'static str =
    "Give a session a hat: a named scope of responsibility written into its system prompt (takes effect on its next turn). Use it to divide a goal between sessions — e.g. \"Backend\", \"QA\", \"Docs\" — so each stays inside its mandate.";

/// The tool `assign_hat`.
pub open spec fn assign_hat_doc() -> JsonView {
    tool(
        "assign_hat"@,
        "Assign a hat to a session"@,
        ASSIGN_HAT@,
        map![
            "session_id"@ => parameter("string"@, "The session to assign the hat to."@),
            "hat"@ => parameter("string"@, "The hat name."@),
            "responsibilities"@ => parameter("string"@, "The scope of responsibility this hat covers."@)
        ],
        seq![JsonView::Text("session_id"@), JsonView::Text("hat"@), JsonView::Text("responsibilities"@)],
    )
}

/// The tool `assign_hat`.
fn assign_hat() -> (r: Json)
    ensures
        r@ == assign_hat_doc(),
{
    let parameters = Fields::new().with(
        "session_id",
        parameter_json("string", "The session to assign the hat to."),
    ).with(
        "hat",
        parameter_json("string", "The hat name."),
    ).with(
        "responsibilities",
        parameter_json("string", "The scope of responsibility this hat covers."),
    );
    let required = Items::new().with(Json::text("session_id")).with(Json::text("hat")).with(Json::text("responsibilities"));
    assert(required@ =~= seq![JsonView::Text("session_id"@), JsonView::Text("hat"@), JsonView::Text("responsibilities"@)]);
    tool_json("assign_hat", "Assign a hat to a session", ASSIGN_HAT, parameters, required)
}

/// What is said of `watch_session`.
pub const WATCH_SESSION: &'static str =
    "Orchestrator brains only: add a session to your watch list, so you are re-engaged whenever its agent turn ends.";

/// The tool `watch_session`.
pub open spec fn watch_session_doc() -> JsonView {
    tool(
        "watch_session"@,
        "Watch a session"@,
        WATCH_SESSION@,
        map![
            "session_id"@ => parameter("string"@, "The session to watch."@)
        ],
        seq![JsonView::Text("session_id"@)],
    )
}

/// The tool `watch_session`.
fn watch_session() -> (r: Json)
    ensures
        r@ == watch_session_doc(),
{
    let parameters = Fields::new().with(
        "session_id",
        parameter_json("string", "The session to watch."),
    );
    tool_json("watch_session", "Watch a session", WATCH_SESSION, parameters, Items::new().with(Json::text("session_id")))
}

/// What is said of `unwatch_session`.
pub const UNWATCH_SESSION: &'static str =
    "Orchestrator brains only: remove a session from your watch list (including auto-watched created sessions).";

/// The tool `unwatch_session`.
pub open spec fn unwatch_session_doc() -> JsonView {
    tool(
        "unwatch_session"@,
        "Stop watching a session"@,
        UNWATCH_SESSION@,
        map![
            "session_id"@ => parameter("string"@, "The session to stop watching."@)
        ],
        seq![JsonView::Text("session_id"@)],
    )
}

/// The tool `unwatch_session`.
fn unwatch_session() -> (r: Json)
    ensures
        r@ == unwatch_session_doc(),
{
    let parameters = Fields::new().with(
        "session_id",
        parameter_json("string", "The session to stop watching."),
    );
    tool_json("unwatch_session", "Stop watching a session", UNWATCH_SESSION, parameters, Items::new().with(Json::text("session_id")))
}

/// What is said of `list_managed_sessions`.
pub const LIST_MANAGED_SESSIONS: &'static str =
    "Orchestrator brains only: your watched + created sessions with their hats, busy state, and your current goal status. Use it to decide what needs attention before acting.";

/// The tool `list_managed_sessions`.
pub open spec fn list_managed_sessions_doc() -> JsonView {
    tool(
        "list_managed_sessions"@,
        "List managed sessions"@,
        LIST_MANAGED_SESSIONS@,
        Map::empty(),
        Seq::empty(),
    )
}

/// The tool `list_managed_sessions`.
fn list_managed_sessions() -> (r: Json)
    ensures
        r@ == list_managed_sessions_doc(),
{
    let parameters = Fields::new();
    tool_json("list_managed_sessions", "List managed sessions", LIST_MANAGED_SESSIONS, parameters, Items::new())
}

/// What is said of `update_goal_status`.
pub const UPDATE_GOAL_STATUS: &'static str =
    "Orchestrator brains only: report progress on your goal. 'state' is in_progress | blocked | done; 'eta_minutes' — your estimate of minutes until the ENTIRE requirements are implemented — is REQUIRED while not done (re-estimate on every call; it is shown to the user with drift over time). state=done stops the autonomy watchdog: call it only when every requirement is implemented and verified.";

/// The tool `update_goal_status`.
pub open spec fn update_goal_status_doc() -> JsonView {
    tool(
        "update_goal_status"@,
        "Update goal status + ETA"@,
        UPDATE_GOAL_STATUS@,
        map![
            "state"@ => JsonView::Object(
                map![
                    "type"@ => JsonView::Text("string"@),
                    "enum"@ => JsonView::Array(
                        seq![JsonView::Text("in_progress"@), JsonView::Text("blocked"@), JsonView::Text("done"@)],
                    ),
                    "description"@ => JsonView::Text("Goal state."@)
                ],
            ),
            "note"@ => parameter("string"@, "One-line status note shown on the Orchestrators page."@),
            "percent"@ => JsonView::Object(
                map![
                    "type"@ => JsonView::Text("integer"@),
                    "minimum"@ => json::uint_view(0),
                    "maximum"@ => json::uint_view(100),
                    "description"@ => JsonView::Text("Optional completion percentage."@)
                ],
            ),
            "eta_minutes"@ => JsonView::Object(
                map![
                    "type"@ => JsonView::Text("integer"@),
                    "minimum"@ => json::uint_view(0),
                    "description"@ => JsonView::Text("Estimated minutes until the entire goal is done. Required unless state=done."@)
                ],
            )
        ],
        seq![JsonView::Text("state"@)],
    )
}

/// The tool `update_goal_status`.
fn update_goal_status() -> (r: Json)
    ensures
        r@ == update_goal_status_doc(),
{
    let states = Items::new().with(Json::text("in_progress")).with(Json::text("blocked")).with(
        Json::text("done"),
    );
    assert(states@ =~= seq![
        JsonView::Text("in_progress"@),
        JsonView::Text("blocked"@),
        JsonView::Text("done"@),
    ]);
    let parameters = Fields::new().with(
        "state",
        Fields::new().with("type", Json::text("string")).with("enum", states.done()).with("description", Json::text("Goal state.")).done(),
    ).with(
        "note",
        parameter_json("string", "One-line status note shown on the Orchestrators page."),
    ).with(
        "percent",
        Fields::new().with("type", Json::text("integer")).with("minimum", Json::uint(0)).with("maximum", Json::uint(100)).with("description", Json::text("Optional completion percentage.")).done(),
    ).with(
        "eta_minutes",
        Fields::new().with("type", Json::text("integer")).with("minimum", Json::uint(0)).with("description", Json::text("Estimated minutes until the entire goal is done. Required unless state=done.")).done(),
    );
    tool_json("update_goal_status", "Update goal status + ETA", UPDATE_GOAL_STATUS, parameters, Items::new().with(Json::text("state")))
}

/// What is said of `orchestrator_report`.
pub const ORCHESTRATOR_REPORT: &'static str =
    "Orchestrator brains only: log a one-line summary of what you just did. Shown in the Orchestrators page activity feed — call it after every burst of work so the user can follow along.";

/// The tool `orchestrator_report`.
pub open spec fn orchestrator_report_doc() -> JsonView {
    tool(
        "orchestrator_report"@,
        "Report orchestrator activity"@,
        ORCHESTRATOR_REPORT@,
        map![
            "summary"@ => parameter("string"@, "What you did, one line."@)
        ],
        seq![JsonView::Text("summary"@)],
    )
}

/// The tool `orchestrator_report`.
fn orchestrator_report() -> (r: Json)
    ensures
        r@ == orchestrator_report_doc(),
{
    let parameters = Fields::new().with(
        "summary",
        parameter_json("string", "What you did, one line."),
    );
    tool_json("orchestrator_report", "Report orchestrator activity", ORCHESTRATOR_REPORT, parameters, Items::new().with(Json::text("summary")))
}

/// The hooks that the plugin handles.
pub open spec fn hooks() -> Seq<JsonView> {
    seq![
        JsonView::Text("mcp.tool.invoke"@),
        JsonView::Text("timer.tick"@),
        JsonView::Text("session.agent.ended"@),
        JsonView::Text("session.message.before"@),
        JsonView::Text("http.request.before"@),
        JsonView::Text("http.request.authed"@),
    ]
}

/// The hooks that the plugin handles.
fn hooks_items() -> (r: Items)
    ensures
        r@ == hooks(),
{
    Items::new().with(Json::text("mcp.tool.invoke")).with(Json::text("timer.tick")).with(Json::text("session.agent.ended")).with(Json::text("session.message.before")).with(Json::text("http.request.before")).with(Json::text("http.request.authed"))
}

/// The tools that the plugin offers.
pub open spec fn tools() -> Seq<JsonView> {
    seq![
        interrupt_session_doc(),
        terminate_agent_doc(),
        clear_session_doc(),
        send_message_doc(),
        send_image_doc(),
        find_session_doc(),
        create_session_doc(),
        assign_hat_doc(),
        watch_session_doc(),
        unwatch_session_doc(),
        list_managed_sessions_doc(),
        update_goal_status_doc(),
        orchestrator_report_doc(),
    ]
}

/// The tools that the plugin offers.
fn tools_items() -> (r: Items)
    ensures
        r@ == tools(),
{
    Items::new().with(interrupt_session()).with(terminate_agent()).with(clear_session()).with(send_message()).with(send_image()).with(find_session()).with(create_session()).with(assign_hat()).with(watch_session()).with(unwatch_session()).with(list_managed_sessions()).with(update_goal_status()).with(orchestrator_report())
}

/// The authenticated routes of the page.
pub open spec fn ui_routes() -> Seq<JsonView> {
    seq![
        JsonView::Text("GET /api/plugin-ui/session-control/orchestrators"@),
        JsonView::Text("POST /api/plugin-ui/session-control/orchestrators"@),
        JsonView::Text("POST /api/plugin-ui/session-control/orchestrators/:id"@),
        JsonView::Text("POST /api/plugin-ui/session-control/orchestrators/:id/delete"@),
        JsonView::Text("POST /api/plugin-ui/session-control/orchestrators/:id/run"@),
        JsonView::Text("POST /api/plugin-ui/session-control/orchestrators/:id/dry-run"@),
        JsonView::Text("POST /api/plugin-ui/session-control/orchestrators/:id/pause"@),
        JsonView::Text("POST /api/plugin-ui/session-control/pause-all"@),
        JsonView::Text("GET /api/plugin-ui/session-control/pickers"@),
    ]
}

/// The authenticated routes of the page.
fn ui_routes_items() -> (r: Items)
    ensures
        r@ == ui_routes(),
{
    Items::new().with(Json::text("GET /api/plugin-ui/session-control/orchestrators")).with(Json::text("POST /api/plugin-ui/session-control/orchestrators")).with(Json::text("POST /api/plugin-ui/session-control/orchestrators/:id")).with(Json::text("POST /api/plugin-ui/session-control/orchestrators/:id/delete")).with(Json::text("POST /api/plugin-ui/session-control/orchestrators/:id/run")).with(Json::text("POST /api/plugin-ui/session-control/orchestrators/:id/dry-run")).with(Json::text("POST /api/plugin-ui/session-control/orchestrators/:id/pause")).with(Json::text("POST /api/plugin-ui/session-control/pause-all")).with(Json::text("GET /api/plugin-ui/session-control/pickers"))
}

/// What the plugin is permitted to do.
pub open spec fn permissions() -> Seq<JsonView> {
    seq![
        JsonView::Text("provide_mcp_tools"@),
        JsonView::Text("session_control"@),
        JsonView::Text("ask_user"@),
        JsonView::Text("data_store"@),
        JsonView::Text("session_orchestrate"@),
        JsonView::Text("session_write"@),
        JsonView::Text("models_read"@),
        JsonView::Text("user_authority"@),
        JsonView::Text("contribute_sidebar"@),
    ]
}

/// What the plugin is permitted to do.
fn permissions_items() -> (r: Items)
    ensures
        r@ == permissions(),
{
    Items::new().with(Json::text("provide_mcp_tools")).with(Json::text("session_control")).with(Json::text("ask_user")).with(Json::text("data_store")).with(Json::text("session_orchestrate")).with(Json::text("session_write")).with(Json::text("models_read")).with(Json::text("user_authority")).with(Json::text("contribute_sidebar"))
}

/// The entry of the page in the sidebar.
pub open spec fn sidebar_item() -> JsonView {
    JsonView::Object(
        map![
            "id"@ => JsonView::Text("orchestrators"@),
            "label"@ => JsonView::Text("Orchestrators"@),
            "icon"@ => JsonView::Text(ICON@),
            "path"@ => JsonView::Text(page::PAGE_PATH@)
        ],
    )
}

/// The entry of the page in the sidebar.
fn sidebar_item_json() -> (r: Json)
    ensures
        r@ == sidebar_item(),
{
    Fields::new().with("id", Json::text("orchestrators")).with(
        "label",
        Json::text("Orchestrators"),
    ).with("icon", Json::text(ICON)).with("path", Json::text(page::PAGE_PATH)).done()
}

/// The manifest of a release with the given description, version and
/// repository.
pub open spec fn manifest_doc(
    description: Seq<char>,
    version: Seq<char>,
    repository: Seq<char>,
) -> JsonView {
    JsonView::Object(
        map![
            "description"@ => JsonView::Text(description),
            "version"@ => JsonView::Text(version),
            "repository"@ => JsonView::Text(repository),
            "hooks"@ => JsonView::Array(hooks()),
            "mcp_tools"@ => JsonView::Array(tools()),
            "sidebar_items"@ => JsonView::Array(seq![sidebar_item()]),
            "http_routes"@ => JsonView::Array(seq![JsonView::Text("GET "@ + page::PAGE_PATH@)]),
            "ui_routes"@ => JsonView::Array(ui_routes()),
            "permissions"@ => JsonView::Array(permissions())
        ],
    )
}

/// The manifest.
pub fn manifest(description: &str, version: &str, repository: &str) -> (r: Json)
    ensures
        r@ == manifest_doc(description@, version@, repository@),
{
    let page_route = "GET ".to_owned().concat(page::PAGE_PATH);
    Fields::new().with("description", Json::text(description)).with(
        "version",
        Json::text(version),
    ).with("repository", Json::text(repository)).with("hooks", hooks_items().done()).with(
        "mcp_tools",
        tools_items().done(),
    ).with("sidebar_items", Items::new().with(sidebar_item_json()).done()).with(
        "http_routes",
        Items::new().with(Json::Text(page_route)).done(),
    ).with("ui_routes", ui_routes_items().done()).with(
        "permissions",
        permissions_items().done(),
    ).done()
}

/// The manifest as the text that the `manifest` export returns.
pub fn manifest_json(description: &str, version: &str, repository: &str) -> (r: String)
    ensures
        r@ == json::json_text(manifest_doc(description@, version@, repository@)),
{
    manifest(description, version, repository).to_text()
}

} // verus!

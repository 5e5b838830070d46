//! What the manifest declares is what is dispatched.

use vstd::prelude::*;

use crate::control;
use crate::hooks;
use crate::host::Script;
use crate::json::JsonView;
use crate::manifest;
use crate::orch_tools;
use crate::replay_laws;

verus! {

/// Whether a manifest declares the tool.
pub open spec fn declares(doc: JsonView, tool: Seq<char>) -> bool {
    doc.array_at("mcp_tools"@) matches Some(tools) && exists|i: int|
        0 <= i < tools.len() && (#[trigger] tools[i]).text_at("name"@) == Some(tool)
}

/// The names behind the tools in a manifest differ from theirs.
proof fn manifest_names_differ()
    ensures
        "mcp_tools"@ != "sidebar_items"@,
        "mcp_tools"@ != "http_routes"@,
        "mcp_tools"@ != "ui_routes"@,
        "mcp_tools"@ != "permissions"@,
        "name"@ != "title"@,
        "name"@ != "description"@,
        "name"@ != "input_schema"@,
{
    reveal_strlit("mcp_tools");
    reveal_strlit("sidebar_items");
    reveal_strlit("http_routes");
    reveal_strlit("ui_routes");
    reveal_strlit("permissions");
    reveal_strlit("name");
    reveal_strlit("title");
    reveal_strlit("description");
    reveal_strlit("input_schema");
    assert("mcp_tools"@.len() == 9 && "sidebar_items"@.len() == 13);
    assert("http_routes"@.len() == 11 && "ui_routes"@.len() == 9);
    assert("permissions"@.len() == 11);
    assert("mcp_tools"@[0] == 'm' && "ui_routes"@[0] == 'u');
    assert("name"@.len() == 4 && "title"@.len() == 5);
    assert("description"@.len() == 11 && "input_schema"@.len() == 12);
}

/// A tool stands in the manifest under its name.
proof fn tool_has_its_name(
    name: Seq<char>,
    title: Seq<char>,
    about: Seq<char>,
    parameters: Map<Seq<char>, JsonView>,
    required: Seq<JsonView>,
)
    ensures
        manifest::tool(name, title, about, parameters, required).text_at("name"@) == Some(name),
{
    manifest_names_differ();
}

/// The names of the tools.
pub open spec fn names() -> Seq<Seq<char>> {
    seq![
        "interrupt_session"@,
        "terminate_agent"@,
        "clear_session"@,
        "send_message"@,
        "send_image"@,
        "find_session"@,
        "create_session"@,
        "assign_hat"@,
        "watch_session"@,
        "unwatch_session"@,
        "list_managed_sessions"@,
        "update_goal_status"@,
        "orchestrator_report"@,
    ]
}

/// The tools of the manifest have these names, in this order.
proof fn tools_have_names(i: int)
    requires
        0 <= i < names().len(),
    ensures
        manifest::tools().len() == names().len(),
        manifest::tools()[i].text_at("name"@) == Some(names()[i]),
{
    manifest_names_differ();
}

/// A manifest declares exactly the tools with these names.
proof fn declared_tools(
    description: Seq<char>,
    version: Seq<char>,
    repository: Seq<char>,
    tool: Seq<char>,
)
    ensures
        declares(manifest::manifest_doc(description, version, repository), tool)
            <==> names().contains(tool),
{
    manifest_names_differ();
    let doc = manifest::manifest_doc(description, version, repository);
    let tools = manifest::tools();
    assert(doc.array_at("mcp_tools"@) == Some(tools));
    tools_have_names(0);
    if names().contains(tool) {
        let i = choose|i: int| 0 <= i < names().len() && names()[i] == tool;
        tools_have_names(i);
        assert(tools[i].text_at("name"@) == Some(tool));
    }
    if declares(doc, tool) {
        let i = choose|i: int|
            0 <= i < tools.len() && (#[trigger] tools[i]).text_at("name"@) == Some(tool);
        tools_have_names(i);
    }
}

/// The refusals that need no request are about an argument; none of them says
/// that a tool does not exist.
proof fn refusals_differ(key: Seq<char>, tool: Seq<char>)
    ensures
        control::missing(key) != hooks::unknown_tool(tool),
        orch_tools::BAD_STATE@ != hooks::unknown_tool(tool),
        orch_tools::NO_ETA@ != hooks::unknown_tool(tool),
{
    reveal_strlit("'");
    reveal_strlit("session-control does not provide tool '");
    reveal_strlit("'state' must be one of: in_progress, blocked, done");
    reveal_strlit(
        "'eta_minutes' is required while the goal is not done — your current \
estimate of minutes until the entire requirements are implemented",
    );
    assert(orch_tools::BAD_STATE@[0] == '\'');
    assert(orch_tools::NO_ETA@[0] == '\'');
    assert(hooks::unknown_tool(tool)[0] == 's');
    assert(control::missing(key)[0] == '\'');
}

/// Without any answer a tool that exists stops at its first request, or refuses
/// an argument.
proof fn tools_ask_or_refuse(tool: Seq<char>, args: JsonView, s: Script)
    requires
        names().contains(tool),
        s.left.len() == 0,
    ensures
        ({
            let (t, r) = hooks::tool_run(tool, args, s);
            ||| r is None && t.asked.len() == s.asked.len() + 1
            ||| t == s && (r matches Some(Err(e)) && e != hooks::unknown_tool(tool))
        }),
{
    refusals_differ("session_id"@, tool);
    refusals_differ("text"@, tool);
    refusals_differ("image_base64"@, tool);
    refusals_differ("mime_type"@, tool);
    refusals_differ("name"@, tool);
    refusals_differ("hat"@, tool);
    refusals_differ("responsibilities"@, tool);
    refusals_differ("state"@, tool);
    refusals_differ("summary"@, tool);
}

/// Every tool that the manifest declares is dispatched, and no other: a call is
/// cancelled as one of a tool that does not exist, with nothing asked, exactly
/// where the manifest does not declare the tool.
pub proof fn declared_tools_are_dispatched(
    description: Seq<char>,
    version: Seq<char>,
    repository: Seq<char>,
    payload: JsonView,
    tool: Seq<char>,
    s: Script,
)
    requires
        payload.text_at("tool"@) == Some(tool),
    ensures
        !declares(manifest::manifest_doc(description, version, repository), tool)
            <==> hooks::handle_invoke_run(payload, s) == (
            s,
            Some(hooks::cancelled(hooks::unknown_tool(tool))),
        ),
{
    declared_tools(description, version, repository, tool);
    if names().contains(tool) {
        let start = Script { left: Seq::empty(), ..s };
        let args = hooks::arguments(payload);
        tools_ask_or_refuse(tool, args, start);
        replay_laws::handle_invoke_goes_on(payload, start);
        assert(replay_laws::later(start, s.left) =~= s);
        let first = hooks::handle_invoke_run(payload, start);
        let end = hooks::handle_invoke_run(payload, s);
        assert(replay_laws::goes_on(s.left, first, end));
        if let Some(Err(e)) = hooks::tool_run(tool, args, start).1 {
            assert(hooks::cancelled(e).text_at("reason"@) == Some(e));
            let unknown = hooks::unknown_tool(tool);
            assert(hooks::cancelled(unknown).text_at("reason"@) == Some(unknown));
        }
    } else {
        let ns = names();
        assert(ns[0] != tool && ns[1] != tool && ns[2] != tool && ns[3] != tool && ns[4] != tool);
        assert(ns[5] != tool && ns[6] != tool && ns[7] != tool && ns[8] != tool && ns[9] != tool);
        assert(ns[10] != tool && ns[11] != tool && ns[12] != tool);
    }
}

} // verus!

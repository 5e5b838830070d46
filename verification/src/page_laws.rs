//! Laws of the page and of the hooks.

use vstd::prelude::*;

use crate::engine;
use crate::hooks;
use crate::host::{HostFn, Script};
use crate::host_laws::{self, Kind};
use crate::json::JsonView;
use crate::orch_tools;
use crate::page;
use crate::page_html;
use crate::records::OrchestratorView;
use crate::state;
use crate::text;
use crate::text_laws;

verus! {

// ── Editing ───────────────────────────────────────────────────────────

/// What the body leaves out stays: an empty body changes nothing.
pub proof fn empty_body_changes_nothing(o: OrchestratorView)
    ensures
        page::edited(o, JsonView::Object(Map::empty())) == (o, Ok::<(), Seq<char>>(())),
        page::edited(o, JsonView::Null) == (o, Ok::<(), Seq<char>>(())),
{
}

/// An edit never touches the identity of a record, its brain, or its books.
pub proof fn edits_leave_the_books(o: OrchestratorView, body: JsonView)
    ensures
        ({
            let p = page::edited(o, body).0;
            &&& p.id == o.id && p.created_at == o.created_at && p.session_id == o.session_id
            &&& p.paused == o.paused && p.goal_status == o.goal_status
            &&& p.eta_history == o.eta_history && p.pending_triggers == o.pending_triggers
            &&& p.hats == o.hats && p.created_sessions == o.created_sessions && p.log == o.log
            &&& p.last_rendered_prompt == o.last_rendered_prompt
            &&& p.stats.fires == o.stats.fires && p.stats.actions == o.stats.actions
            &&& p.stats.last_fired_at == o.stats.last_fired_at
            &&& p.stats.fire_times == o.stats.fire_times
            &&& p.stats.sessions_created == o.stats.sessions_created
        }),
{
}

/// A blank name is refused and changes nothing; a blank folder is refused.
pub proof fn blank_names_are_refused(o: OrchestratorView, body: JsonView)
    ensures
        page::blank_at(body, "name"@) ==> page::edited(o, body) == (
            o,
            Err::<(), Seq<char>>("name must not be blank"@),
        ),
        page::blank_at(body, "folder_id"@) ==> page::edited(o, body).1 is Err,
        page::edited(o, body).1 is Err ==> page::blank_at(body, "name"@) || page::blank_at(
            body,
            "folder_id"@,
        ),
{
}

/// Switching an orchestrator on again forgets the failures.
pub proof fn switching_on_forgets_failures(o: OrchestratorView, body: JsonView)
    requires
        body.bool_at("enabled"@) == Some(true),
        page::edited(o, body).1 is Ok,
    ensures
        page::edited(o, body).0.enabled,
        page::edited(o, body).0.consecutive_failures == 0,
        page::edited(o, body).0.error is None,
{
}

/// The cap on fires floors at one, whatever number is given; a number that
/// fits its field is taken as it is, and a larger one as the largest that does.
pub proof fn fire_cap_floors_at_one(o: OrchestratorView, body: JsonView, n: u64)
    requires
        body.u64_at("max_fires_per_hour"@) == Some(n),
        page::edited(o, body).1 is Ok,
    ensures
        page::edited(o, body).0.caps.max_fires_per_hour >= 1,
        1 <= n <= u32::MAX ==> page::edited(o, body).0.caps.max_fires_per_hour == n,
        n > u32::MAX ==> page::edited(o, body).0.caps.max_fires_per_hour == u32::MAX,
{
}

/// A new schedule starts afresh: its slot is not set, so it is due at once.
pub proof fn new_schedule_is_due(o: OrchestratorView, body: JsonView, n: u64, now: Seq<char>)
    requires
        body.u64_at("every_minutes"@) == Some(n),
        page::edited(o, body).1 is Ok,
    ensures
        page::edited(o, body).0.stats.next_due_at is None,
        engine::slot_due(page::edited(o, body).0, now) == (n > 0),
{
}

/// Making the same edit again changes nothing more.
pub proof fn edits_are_idempotent(o: OrchestratorView, body: JsonView)
    requires
        page::edited(o, body).1 is Ok,
    ensures
        page::edited(page::edited(o, body).0, body) == page::edited(o, body),
{
    let p = page::edited(o, body).0;
    let q = page::edited(p, body).0;
    assert(q.caps == p.caps);
    assert(q =~= p);
}

/// Pausing the other way round twice leads back.
pub proof fn toggling_twice_leads_back(o: OrchestratorView)
    ensures
        page::toggled(page::toggled(o, JsonView::Null), JsonView::Null) == o,
{
}

// ── Creating ──────────────────────────────────────────────────────────

/// A text that is not blank leaves something when it is trimmed.
proof fn trimmed_names_are_not_empty(s: Seq<char>)
    ensures
        !text::blank(s) ==> text::trim(s).len() > 0,
{
    text::blank_iff_trimmed_empty(s);
}

/// A record is created exactly when the body names it and its folder; it has
/// the id and the time it was given, and one entry in its feed.
pub proof fn creation_needs_name_and_folder(id: Seq<char>, now: Seq<char>, body: JsonView)
    ensures
        page::created(id, now, body) is Ok <==> {
            &&& body.text_at("name"@) matches Some(name)
            &&& !text::blank(name)
            &&& body.text_at("folder_id"@) matches Some(folder)
            &&& !text::blank(folder)
        },
        page::created(id, now, body) matches Ok(o) ==> {
            &&& o.id == id
            &&& o.created_at == now
            &&& o.session_id is None
            &&& o.log.len() == 1
            &&& o.name == text::trim(body.text_at("name"@)->0)
            &&& o.folder_id == text::trim(body.text_at("folder_id"@)->0)
        },
{
    if let Some(name) = body.text_at("name"@) {
        trimmed_names_are_not_empty(name);
    }
    if let Some(folder) = body.text_at("folder_id"@) {
        trimmed_names_are_not_empty(folder);
    }
}

/// Ids with different numbers are different.
pub proof fn ids_tell_records_apart(now1: Seq<char>, n1: u64, now2: Seq<char>, n2: u64)
    requires
        n1 != n2,
    ensures
        page::id_text(now1, n1) != page::id_text(now2, n2),
{
    if page::id_text(now1, n1) == page::id_text(now2, n2) {
        text_laws::number_behind_dash_is_unique(
            "orch-"@ + text::digits(now1),
            n1 as nat,
            "orch-"@ + text::digits(now2),
            n2 as nat,
        );
    }
}

/// The id of a new record is one that the store has no record under.
pub proof fn new_ids_are_free(s: Script)
    requires
        page::free_id_run(s).1 matches Some(Ok(_)),
    ensures
        exists|t: Script|
            #[trigger] state::load_orchestrator_run(page::free_id_run(s).1->0->Ok_0, t) == (
                page::free_id_run(s).0,
                Some(Ok::<Option<OrchestratorView>, Seq<char>>(None)),
            ),
    decreases s.left.len(),
{
    let (t, id) = page::new_id_run(s);
    if let Some(id) = id {
        page::trying_an_id_uses_answers(s);
        let (u, r) = state::load_orchestrator_run(id, t);
        if let Some(Ok(Some(_))) = r {
            new_ids_are_free(u);
            assert(page::free_id_run(s) == page::free_id_run(u));
        } else {
            assert(page::free_id_run(s).1->0->Ok_0 == id);
            assert(state::load_orchestrator_run(page::free_id_run(s).1->0->Ok_0, t) == (u, r));
        }
    }
}

// ── Routing ───────────────────────────────────────────────────────────

/// What goes wrong in a route is a response, never a broken dispatch.
pub proof fn routes_always_respond(payload: JsonView, s: Script)
    ensures
        page::serve_authed_run(payload, s).1 matches Some(r) ==> r is Ok,
        hooks::dispatch_run("http.request.authed"@, payload, s).1 matches Some(verdict)
            ==> verdict == hooks::allowed(page::serve_authed_run(payload, s).1->0->Ok_0),
{
    hooks_differ();
}

/// The names of the hooks are different.
proof fn hooks_differ()
    ensures
        "http.request.authed"@ != "mcp.tool.invoke"@,
        "http.request.authed"@ != "timer.tick"@,
        "http.request.authed"@ != "session.agent.ended"@,
        "http.request.authed"@ != "session.message.before"@,
        "http.request.authed"@ != "http.request.before"@,
        "http.request.before"@ != "mcp.tool.invoke"@,
        "http.request.before"@ != "timer.tick"@,
        "http.request.before"@ != "session.agent.ended"@,
        "http.request.before"@ != "session.message.before"@,
        "session.message.before"@ != "mcp.tool.invoke"@,
        "session.message.before"@ != "timer.tick"@,
        "session.message.before"@ != "session.agent.ended"@,
        "session.agent.ended"@ != "mcp.tool.invoke"@,
        "session.agent.ended"@ != "timer.tick"@,
        "timer.tick"@ != "mcp.tool.invoke"@,
{
    reveal_strlit("mcp.tool.invoke");
    reveal_strlit("timer.tick");
    reveal_strlit("session.agent.ended");
    reveal_strlit("session.message.before");
    reveal_strlit("http.request.before");
    reveal_strlit("http.request.authed");
    assert("mcp.tool.invoke"@.len() == 15 && "timer.tick"@.len() == 10);
    assert("session.message.before"@.len() == 22 && "session.agent.ended"@.len() == 19);
    assert("http.request.before"@.len() == 19 && "http.request.authed"@.len() == 19);
    assert("http.request.authed"@[13] == 'a');
    assert("http.request.before"@[13] == 'b');
    assert("session.agent.ended"@[0] == 's');
    assert("http.request.before"@[0] == 'h');
    assert("http.request.authed"@[0] == 'h');
}

/// Outside the routes nothing is asked of the host, and the response is 404.
pub proof fn other_paths_are_not_found(method: Seq<char>, path: Seq<char>, body: JsonView, s: Script)
    requires
        page::route_segments(path).len() == 0 || page::route_segments(path).len() > 3 || (method
            != "GET"@ && method != "POST"@),
    ensures
        page::serve_route_run(method, path, body, s) == (
            s,
            Some(Ok::<JsonView, Seq<char>>(page::err_json(404, "no such route"@))),
        ),
{
}

/// The data of the dropdowns is read, and a failure leaves its list empty.
pub proof fn pickers_only_look(s: Script)
    ensures
        host_laws::only(
            s,
            page::pickers_route_run(s).0,
            set![
                Kind::Call(HostFn::ListSessions),
                Kind::Call(HostFn::ListFolders),
                Kind::Call(HostFn::ListModels),
            ],
        ),
        page::pickers_route_run(s).1 matches Some(r) ==> r is Ok,
        forall|e: Seq<char>, key: Seq<char>| #[trigger]
            page::picked(Err(e), key) == JsonView::Array(Seq::empty()),
{
}

/// Showing the records reads their busy marks.
proof fn showing_reads(
    orchs: Seq<OrchestratorView>,
    now: Seq<char>,
    done: Seq<JsonView>,
    s: Script,
)
    ensures
        host_laws::only(s, page::show_all_run(orchs, now, done, s).0, host_laws::reading()),
    decreases orchs.len(),
{
    if orchs.len() > 0 {
        let kinds = host_laws::reading();
        let (t, busy) = page::brain_busy_run(orchs[0], now, s);
        assert(host_laws::only(s, t, kinds));
        if let Some(busy) = busy {
            let next = done.push(page::shown(orchs[0], busy));
            showing_reads(orchs.skip(1), now, next, t);
            host_laws::only_both(
                s,
                t,
                page::show_all_run(orchs.skip(1), now, next, t).0,
                kinds,
            );
        }
    }
}

/// The list only reads.
pub proof fn list_only_reads(s: Script)
    ensures
        host_laws::only(s, page::list_route_run(s).0, host_laws::reading()),
{
    let kinds = host_laws::reading();
    let (s1, clock) = state::clock_run(s);
    assert(host_laws::only(s, s1, kinds));
    if let Some(clock) = clock {
        let now = text::or_else(clock, ""@);
        host_laws::listing_reads(s1);
        let (s2, r) = state::list_orchestrators_run(s1);
        host_laws::only_both(s, s1, s2, kinds);
        if let Some(Ok(orchs)) = r {
            showing_reads(orchs, now, Seq::empty(), s2);
            let (s3, docs) = page::show_all_run(orchs, now, Seq::empty(), s2);
            host_laws::only_both(s, s2, s3, kinds);
            if docs is Some {
                let s4 = state::global_paused_run(s3).0;
                assert(host_laws::only(s3, s4, kinds));
                host_laws::only_both(s, s3, s4, kinds);
            }
        }
    }
}

// ── Hooks ─────────────────────────────────────────────────────────────

/// The field `verdict` is the verdict.
proof fn verdicts_name_themselves(payload: JsonView, reason: Seq<char>)
    ensures
        hooks::allowed(payload).text_at("verdict"@) == Some("allow"@),
        hooks::cancelled(reason).text_at("verdict"@) == Some("cancel"@),
        hooks::skipped().text_at("verdict"@) == Some("skip"@),
{
    reveal_strlit("verdict");
    reveal_strlit("payload");
    reveal_strlit("reason");
    assert("verdict"@[0] == 'v' && "payload"@[0] == 'p' && "reason"@[0] == 'r');
}

/// The engine's hooks never cancel anything: whatever happens, they allow.
pub proof fn notifications_always_allow(payload: JsonView, s: Script)
    ensures
        hooks::dispatch_run("timer.tick"@, payload, s).1 matches Some(v) ==> v.text_at("verdict"@)
            == Some("allow"@),
        hooks::dispatch_run("session.agent.ended"@, payload, s).1 matches Some(v) ==> v.text_at(
            "verdict"@,
        ) == Some("allow"@),
{
    hooks_differ();
    let tick = engine::on_timer_tick_run(payload, s).1;
    let ended = engine::on_agent_ended_run(payload, s).1;
    if let Some(r) = tick {
        notified_allows(r);
    }
    if let Some(r) = ended {
        notified_allows(r);
    }
}

/// A notification allows.
proof fn notified_allows(r: Result<JsonView, Seq<char>>)
    ensures
        hooks::notified(r).text_at("verdict"@) == Some("allow"@),
{
    match r {
        Ok(v) => {
            verdicts_name_themselves(v, Seq::empty());
        },
        Err(e) => {
            verdicts_name_themselves(
                JsonView::Object(
                    map!["ok"@ => JsonView::Bool(false), "error"@ => JsonView::Text(e)],
                ),
                Seq::empty(),
            );
        },
    }
}

/// A message is observed, never rewritten: the verdict is to skip.
pub proof fn messages_are_only_observed(payload: JsonView, s: Script)
    ensures
        hooks::dispatch_run("session.message.before"@, payload, s).1 matches Some(v) ==> v
            == hooks::skipped(),
{
    hooks_differ();
}

/// A hook that the plugin does not know is skipped, and nothing is asked.
pub proof fn unknown_hooks_are_skipped(hook: Seq<char>, payload: JsonView, s: Script)
    requires
        hook != "mcp.tool.invoke"@,
        hook != "timer.tick"@,
        hook != "session.agent.ended"@,
        hook != "session.message.before"@,
        hook != "http.request.before"@,
        hook != "http.request.authed"@,
    ensures
        hooks::dispatch_run(hook, payload, s) == (s, Some(hooks::skipped())),
{
}

/// The page is served on its path without asking the host; every other path is
/// not found.
pub proof fn page_is_served_on_its_path(payload: JsonView, s: Script)
    ensures
        hooks::dispatch_run("http.request.before"@, payload, s) == (
            s,
            Some(
                hooks::allowed(
                    if payload.text_at("path"@) == Some(page::PAGE_PATH@) {
                        page::response(200, page::HTML@, page_html::page_text())
                    } else {
                        page::response(404, page::HTML@, "<!doctype html><h1>404</h1>"@)
                    },
                ),
            ),
        ),
{
    hooks_differ();
}

/// The names of the tools that are counted are none of the others.
pub open spec fn orchestrator_tool(tool: Seq<char>) -> bool {
    tool == "create_session"@ || tool == "assign_hat"@ || tool == "watch_session"@ || tool
        == "unwatch_session"@ || tool == "list_managed_sessions"@ || tool == "update_goal_status"@
        || tool == "orchestrator_report"@
}

/// A tool that the plugin does not have cancels, and nothing is asked.
pub proof fn unknown_tools_are_cancelled(tool: Seq<char>, args: JsonView, s: Script)
    requires
        !hooks::mutates(tool),
        !orchestrator_tool(tool),
        tool != "find_session"@,
    ensures
        hooks::invoke_run(tool, args, s) == (
            s,
            Some(hooks::cancelled(hooks::unknown_tool(tool))),
        ),
{
}

/// What a tool says is what the caller gets, and counting it afterwards never
/// fails it: a refusal cancels, anything else allows.
pub proof fn verdict_is_what_the_tool_says(tool: Seq<char>, args: JsonView, s: Script)
    requires
        hooks::invoke_run(tool, args, s).1 is Some,
    ensures
        hooks::tool_run(tool, args, s).1 matches Some(r) && hooks::invoke_run(tool, args, s).1->0
            == hooks::decided(r),
{
}

/// A question to the user counts as no action, nor does a refusal, nor does a
/// tool that changes no other session: nothing follows the tool itself.
pub proof fn questions_are_no_actions(tool: Seq<char>, args: JsonView, s: Script)
    requires
        hooks::tool_run(tool, args, s).1 matches Some(r) && (r matches Ok(v)
            ==> hooks::is_awaiting(v) || !hooks::mutates(tool)),
    ensures
        hooks::invoke_run(tool, args, s).0 == hooks::tool_run(tool, args, s).0,
{
}

/// An action that was carried out is attributed to the calling brain, with its
/// target.
pub proof fn actions_are_attributed(tool: Seq<char>, args: JsonView, s: Script, v: JsonView)
    requires
        hooks::mutates(tool),
        hooks::tool_run(tool, args, s).1 == Some(Ok::<JsonView, Seq<char>>(v)),
        !hooks::is_awaiting(v),
    ensures
        hooks::invoke_run(tool, args, s).0 == orch_tools::attribute_action_run(
            tool,
            args.text_at("session_id"@),
            hooks::tool_run(tool, args, s).0,
        ).0,
{
}

} // verus!

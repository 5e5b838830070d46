//! Tools for orchestrator brain sessions: creating sessions with hats, the
//! watch list, reporting on goal and estimate, and the activity feed.
//!
//! Every session may call them, but what they do to an orchestrator (watch
//! list, goal status, action count, activity feed) they do where the calling
//! session is an orchestrator's brain. Who calls is what the host says, never
//! an argument.

use vstd::prelude::*;
use vstd::string::*;

use crate::authorize;
use crate::control;
use crate::engine;
use crate::host::{self, Host, HostFn, Script};
use crate::json::{self, Fields, Json, JsonView};
use crate::records::{
    self, Eta, EtaView, GoalStatusView, HatAssignment, HatView, Orchestrator, OrchestratorView,
    StatsView, WatchView,
};
use crate::state;
use crate::text::{self, same};
use crate::time;

verus! {

/// Optional string argument; a blank one counts as none.
pub fn opt_str(args: &Json, key: &str) -> (r: Option<String>)
    ensures
        r.deep_view() == control::filled(args@, key@),
{
    if let Some(v) = args.text_at(key) {
        if !text::is_blank(v) {
            return Some(v.to_owned());
        }
    }
    None
}

// ── The caller ────────────────────────────────────────────────────────

/// Asks who calls.
pub open spec fn caller_session_run(s: Script) -> (
    Script,
    Option<Result<Option<Seq<char>>, Seq<char>>>,
) {
    let (s, r) = s.call(HostFn::CallerScope, JsonView::Object(Map::empty()));
    (
        s,
        match r {
            None => None,
            Some(Err(e)) => Some(Err(e)),
            Some(Ok(scope)) => Some(Ok(authorize::non_empty(scope.text_at("session_id"@)))),
        },
    )
}

/// The caller's session id, as the host has it.
pub fn caller_session(host: &mut Host) -> (r: Option<Result<Option<String>, String>>)
    ensures
        final(host)@ == caller_session_run(old(host)@).0,
        host::outcome(r) == caller_session_run(old(host)@).1,
{
    match host.call(HostFn::CallerScope, Fields::new().done())? {
        Err(e) => Some(Err(e)),
        Ok(scope) => match authorize::non_empty_str(scope.text_at("session_id")) {
            Some(id) => Some(Ok(Some(id.to_owned()))),
            None => Some(Ok(None)),
        },
    }
}

/// The first orchestrator whose brain is the session.
pub open spec fn with_brain(orchs: Seq<OrchestratorView>, brain: Seq<char>) -> Option<
    OrchestratorView,
>
    decreases orchs.len(),
{
    if orchs.len() == 0 {
        None
    } else if orchs[0].session_id == Some(brain) {
        Some(orchs[0])
    } else {
        with_brain(orchs.skip(1), brain)
    }
}

/// The first orchestrator whose brain is the session.
fn find_brain(orchs: Vec<Orchestrator>, brain: &str) -> (r: Option<Orchestrator>)
    ensures
        r.deep_view() == with_brain(orchs.deep_view(), brain@),
{
    let ghost all = orchs@;
    let ghost views = orchs.deep_view();
    assert(views.skip(0) == views);
    for o in it: orchs
        invariant
            it.seq() == all,
            views == orchs.deep_view(),
            views.len() == all.len(),
            forall|k: int| 0 <= k < all.len() ==> views[k] == (#[trigger] all[k])@,
            with_brain(views, brain@) == with_brain(views.skip(it.index() as int), brain@),
    {
        let ghost k = it.index() as int;
        assert(views.skip(k).skip(1) == views.skip(k + 1));
        assert(views.skip(k)[0] == o@);
        let found = match &o.session_id {
            Some(id) => same(id.as_str(), brain),
            None => false,
        };
        if found {
            return Some(o);
        }
    }
    None
}

/// Looks for the orchestrator whose brain calls.
pub open spec fn caller_orchestrator_run(s: Script) -> (
    Script,
    Option<Result<Option<OrchestratorView>, Seq<char>>>,
) {
    let (s, r) = caller_session_run(s);
    match r {
        None => (s, None),
        Some(Err(e)) => (s, Some(Err(e))),
        Some(Ok(None)) => (s, Some(Ok(None))),
        Some(Ok(Some(caller))) => {
            let (s, r) = state::list_orchestrators_run(s);
            (
                s,
                match r {
                    None => None,
                    Some(Err(e)) => Some(Err(e)),
                    Some(Ok(orchs)) => Some(Ok(with_brain(orchs, caller))),
                },
            )
        },
    }
}

/// The orchestrator whose brain is the calling session, if any.
pub fn caller_orchestrator(host: &mut Host) -> (r: Option<Result<Option<Orchestrator>, String>>)
    ensures
        final(host)@ == caller_orchestrator_run(old(host)@).0,
        host::outcome(r) == caller_orchestrator_run(old(host)@).1,
{
    match caller_session(host)? {
        Err(e) => Some(Err(e)),
        Ok(None) => Some(Ok(None)),
        Ok(Some(caller)) => match state::list_orchestrators(host)? {
            Err(e) => Some(Err(e)),
            Ok(orchs) => Some(Ok(find_brain(orchs, caller.as_str()))),
        },
    }
}

/// The refusal where the caller is no brain.
pub const NO_BRAIN: &'static str =
    "this tool is for orchestrator brain sessions; the calling session is not one";

/// Looks for the orchestrator whose brain calls; there has to be one.
pub open spec fn require_caller_orchestrator_run(s: Script) -> (
    Script,
    Option<Result<OrchestratorView, Seq<char>>>,
) {
    let (s, r) = caller_orchestrator_run(s);
    (
        s,
        match r {
            None => None,
            Some(Err(e)) => Some(Err(e)),
            Some(Ok(None)) => Some(Err(NO_BRAIN@)),
            Some(Ok(Some(o))) => Some(Ok(o)),
        },
    )
}

/// The orchestrator whose brain is the calling session.
pub fn require_caller_orchestrator(host: &mut Host) -> (r: Option<Result<Orchestrator, String>>)
    ensures
        final(host)@ == require_caller_orchestrator_run(old(host)@).0,
        host::outcome(r) == require_caller_orchestrator_run(old(host)@).1,
{
    match caller_orchestrator(host)? {
        Err(e) => Some(Err(e)),
        Ok(None) => Some(Err(NO_BRAIN.to_owned())),
        Ok(Some(o)) => Some(Ok(o)),
    }
}

/// Reads the clock.
pub open spec fn now_run(s: Script) -> (Script, Option<Seq<char>>) {
    let (s, clock) = state::clock_run(s);
    (
        s,
        match clock {
            None => None,
            Some(clock) => Some(text::or_else(clock, engine::EPOCH@)),
        },
    )
}

/// The clock, or the epoch before the first tick.
pub fn now(host: &mut Host) -> (r: Option<String>)
    ensures
        final(host)@ == now_run(old(host)@).0,
        r.deep_view() == now_run(old(host)@).1,
{
    match state::clock(host)? {
        Some(now) => Some(now),
        None => Some(engine::EPOCH.to_owned()),
    }
}

// ── Hats ──────────────────────────────────────────────────────────────

/// The prompt of a hat, before its name.
pub const HAT_NAME: &'static str = "You are wearing the \"";

/// The prompt of a hat, between its name and the responsibilities.
pub const HAT_SCOPE: &'static str =
    "\" hat — your assigned scope of responsibility.\nResponsibilities: ";

/// The prompt of a hat, after the responsibilities.
pub const HAT_RULES: &'static str =
    "\nStay inside this scope: do the work it covers well, and when you hit something \
outside it, report that back instead of expanding your own mandate. An orchestrator \
session manages you and reviews your output when your turn ends.";

/// The system prompt of a hat.
pub open spec fn hat_text(hat: Seq<char>, responsibilities: Seq<char>) -> Seq<char> {
    HAT_NAME@ + hat + HAT_SCOPE@ + responsibilities + HAT_RULES@
}

/// The system prompt that a session wearing the hat gets.
pub fn hat_prompt(hat: &str, responsibilities: &str) -> (r: String)
    ensures
        r@ == hat_text(hat@, responsibilities@),
{
    HAT_NAME.to_owned().concat(hat).concat(HAT_SCOPE).concat(responsibilities).concat(HAT_RULES)
}

/// The record once the session wears the hat.
pub open spec fn hatted(
    o: OrchestratorView,
    id: Seq<char>,
    hat: Seq<char>,
    responsibilities: Seq<char>,
    ts: Seq<char>,
) -> OrchestratorView {
    OrchestratorView {
        hats: o.hats.insert(id, HatView { hat, responsibilities, assigned_at: ts }),
        ..o
    }
}

// ── create_session ────────────────────────────────────────────────────

/// What is asked of the host to create a session.
pub open spec fn session_request(
    name: Seq<char>,
    model: Option<Seq<char>>,
    hat: Option<Seq<char>>,
    responsibilities: Seq<char>,
) -> JsonView {
    JsonView::Object(
        map![
            "name"@ => JsonView::Text(name),
            "model"@ => json::opt_text_view(model),
            "system_prompt"@ => match hat {
                Some(hat) => JsonView::Text(hat_text(hat, responsibilities)),
                None => JsonView::Null,
            }
        ],
    )
}

/// Whether the orchestrator may create no more sessions.
pub open spec fn sessions_capped(o: OrchestratorView) -> bool {
    o.stats.sessions_created >= o.caps.max_sessions_created
}

/// The refusal of one more session.
pub open spec fn cap_text(o: OrchestratorView) -> Seq<char> {
    "session cap reached ("@ + text::decimal(o.stats.sessions_created as nat)
        + " of max_sessions_created="@ + text::decimal(o.caps.max_sessions_created as nat)
        + ") — raise the cap on the Orchestrators page if more are truly needed"@
}

/// What the activity feed says of a created session.
pub open spec fn spawned_text(name: Seq<char>, id: Seq<char>, hat: Option<Seq<char>>) -> Seq<char> {
    "created session \""@ + name + "\" ("@ + id + ")"@ + match hat {
        Some(hat) => " wearing hat \""@ + hat + "\""@,
        None => Seq::empty(),
    }
}

/// The record of the brain that created a session.
pub open spec fn spawned(
    o: OrchestratorView,
    id: Seq<char>,
    name: Seq<char>,
    hat: Option<Seq<char>>,
    responsibilities: Seq<char>,
    ts: Seq<char>,
) -> OrchestratorView {
    let o = OrchestratorView {
        stats: StatsView {
            sessions_created: o.stats.sessions_created.wrapping_add(1),
            ..o.stats
        },
        created_sessions: if o.watch.auto_watch_created {
            o.created_sessions.push(id)
        } else {
            o.created_sessions
        },
        ..o
    }.acted();
    let o = match hat {
        Some(hat) => hatted(o, id, hat, responsibilities, ts),
        None => o,
    };
    o.logged(ts, "created_session"@, spawned_text(name, id, hat))
}

/// The answer to a created session.
pub open spec fn spawned_doc(id: Seq<char>, watched: bool) -> JsonView {
    JsonView::Object(
        map![
            "ok"@ => JsonView::Bool(true),
            "session_id"@ => JsonView::Text(id),
            "watched"@ => JsonView::Bool(watched)
        ],
    )
}

/// Writes the created session down in the record of its brain, if there is one.
pub open spec fn record_spawn_run(
    orch: Option<OrchestratorView>,
    id: Seq<char>,
    name: Seq<char>,
    hat: Option<Seq<char>>,
    responsibilities: Seq<char>,
    s: Script,
) -> (Script, Option<Result<JsonView, Seq<char>>>) {
    match orch {
        None => (s, Some(Ok(spawned_doc(id, false)))),
        Some(o) => {
            let (s, ts) = now_run(s);
            match ts {
                None => (s, None),
                Some(ts) => {
                    let (s, saved) = state::save_orchestrator_run(
                        spawned(o, id, name, hat, responsibilities, ts),
                        s,
                    );
                    (
                        s,
                        match saved {
                            None => None,
                            Some(Err(e)) => Some(Err(e)),
                            Some(Ok(_)) => Some(Ok(spawned_doc(id, true))),
                        },
                    )
                },
            }
        },
    }
}

/// Checks the cap, creates and records, under the lease.
pub open spec fn create_leased_run(
    name: Seq<char>,
    model: Option<Seq<char>>,
    hat: Option<Seq<char>>,
    responsibilities: Seq<char>,
    s: Script,
) -> (Script, Option<Result<JsonView, Seq<char>>>) {
    let (s, r) = caller_orchestrator_run(s);
    match r {
        None => (s, None),
        Some(Err(e)) => (s, Some(Err(e))),
        Some(Ok(orch)) => if orch is Some && sessions_capped(orch->0) {
            (s, Some(Err(cap_text(orch->0))))
        } else {
            let (s, r) = s.call(
                HostFn::CreateSession,
                session_request(name, model, hat, responsibilities),
            );
            match r {
                None => (s, None),
                Some(Err(e)) => (s, Some(Err(e))),
                Some(Ok(created)) => match engine::session_id_in(created) {
                    None => (s, Some(Err("create_session returned no session id"@))),
                    Some(id) => record_spawn_run(orch, id, name, hat, responsibilities, s),
                },
            }
        },
    }
}

/// `create_session`.
pub open spec fn create_session_run(args: JsonView, s: Script) -> (
    Script,
    Option<Result<JsonView, Seq<char>>>,
) {
    match control::required(args, "name"@) {
        Err(e) => (s, Some(Err(e))),
        Ok(name) => {
            let (s, taken) = s.acquire();
            match taken {
                None => (s, None),
                Some(false) => (s, Some(Err(state::BUSY_MSG@))),
                Some(true) => state::released(
                    create_leased_run(
                        name,
                        control::filled(args, "model"@),
                        control::filled(args, "hat"@),
                        text::or_else(control::filled(args, "responsibilities"@), Seq::empty()),
                        s,
                    ),
                ),
            }
        },
    }
}

/// Writes the created session down in the record of its brain, if there is one.
fn record_spawn(
    orch: Option<Orchestrator>,
    id: &str,
    name: &str,
    hat: &Option<String>,
    responsibilities: &str,
    host: &mut Host,
) -> (r: Option<Result<Json, String>>)
    ensures
        final(host)@ == record_spawn_run(
            orch.deep_view(),
            id@,
            name@,
            hat.deep_view(),
            responsibilities@,
            old(host)@,
        ).0,
        host::outcome(r) == record_spawn_run(
            orch.deep_view(),
            id@,
            name@,
            hat.deep_view(),
            responsibilities@,
            old(host)@,
        ).1,
{
    let watched = orch.is_some();
    if let Some(o) = orch {
        let mut o = o;
        let ts = now(host)?;
        o.stats.sessions_created = o.stats.sessions_created.wrapping_add(1);
        o.count_action();
        if o.watch.auto_watch_created {
            let ghost before = o.created_sessions.deep_view();
            o.created_sessions.push(id.to_owned());
            assert(o.created_sessions.deep_view() =~= before.push(id@));
        }
        let mut detail = "created session \"".to_owned().concat(name).concat("\" (").concat(
            id,
        ).concat(")");
        let ghost head = detail@;
        if let Some(h) = hat {
            o.put_hat(
                id,
                HatAssignment {
                    hat: h.clone(),
                    responsibilities: responsibilities.to_owned(),
                    assigned_at: ts.clone(),
                },
            );
            let worn = " wearing hat \"".to_owned().concat(h.as_str()).concat("\"");
            detail = detail.concat(worn.as_str());
        }
        assert(detail@ =~= spawned_text(name@, id@, hat.deep_view()));
        o.push_log(ts.as_str(), "created_session", detail);
        if let Err(e) = state::save_orchestrator(&o, host)? {
            return Some(Err(e));
        }
    }
    Some(
        Ok(
            Fields::new().with("ok", Json::Bool(true)).with("session_id", Json::text(id)).with(
                "watched",
                Json::Bool(watched),
            ).done(),
        ),
    )
}

/// Checks the cap, creates and records, under the lease.
fn create_leased(
    name: &str,
    model: &Option<String>,
    hat: &Option<String>,
    responsibilities: &str,
    host: &mut Host,
) -> (r: Option<Result<Json, String>>)
    ensures
        final(host)@ == create_leased_run(
            name@,
            model.deep_view(),
            hat.deep_view(),
            responsibilities@,
            old(host)@,
        ).0,
        host::outcome(r) == create_leased_run(
            name@,
            model.deep_view(),
            hat.deep_view(),
            responsibilities@,
            old(host)@,
        ).1,
{
    let orch = match caller_orchestrator(host)? {
        Err(e) => {
            return Some(Err(e));
        },
        Ok(orch) => orch,
    };
    if let Some(o) = &orch {
        if o.stats.sessions_created >= o.caps.max_sessions_created {
            return Some(
                Err(
                    "session cap reached (".to_owned().concat(
                        text::decimal_text(o.stats.sessions_created as u64).as_str(),
                    ).concat(" of max_sessions_created=").concat(
                        text::decimal_text(o.caps.max_sessions_created as u64).as_str(),
                    ).concat(
                        ") — raise the cap on the Orchestrators page if more are truly needed",
                    ),
                ),
            );
        }
    }
    let system_prompt = match hat {
        Some(h) => Json::Text(hat_prompt(h.as_str(), responsibilities)),
        None => Json::Null,
    };
    let input = Fields::new().with("name", Json::text(name)).with(
        "model",
        Json::opt_text(records::opt_str(model)),
    ).with("system_prompt", system_prompt).done();
    let created = match host.call(HostFn::CreateSession, input)? {
        Err(e) => {
            return Some(Err(e));
        },
        Ok(created) => created,
    };
    match engine::created_session_id(&created) {
        None => Some(Err("create_session returned no session id".to_owned())),
        Some(id) => record_spawn(orch, id.as_str(), name, hat, responsibilities, host),
    }
}

/// `create_session { name, model?, hat?, responsibilities? }`: spawn a session
/// for more work. Where the caller is a brain, the cap holds, the session is
/// watched, its hat recorded and the action counted. The whole of it holds the
/// lease, so that cap and counter see each other across instances.
pub fn create_session_tool(args: &Json, host: &mut Host) -> (r: Option<Result<Json, String>>)
    ensures
        final(host)@ == create_session_run(args@, old(host)@).0,
        host::outcome(r) == create_session_run(args@, old(host)@).1,
{
    let name = match control::require_str(args, "name") {
        Err(e) => {
            return Some(Err(e));
        },
        Ok(name) => name,
    };
    let model = opt_str(args, "model");
    let hat = opt_str(args, "hat");
    let responsibilities = match opt_str(args, "responsibilities") {
        Some(r) => r,
        None => String::new(),
    };
    if !host.acquire()? {
        return Some(Err(state::BUSY_MSG.to_owned()));
    }
    let r = create_leased(name.as_str(), &model, &hat, responsibilities.as_str(), host)?;
    host.release()?;
    Some(r)
}

// ── assign_hat ────────────────────────────────────────────────────────

/// The record of the brain that assigned a hat.
pub open spec fn hat_assigned(
    o: OrchestratorView,
    id: Seq<char>,
    hat: Seq<char>,
    responsibilities: Seq<char>,
    ts: Seq<char>,
) -> OrchestratorView {
    hatted(o.acted(), id, hat, responsibilities, ts).logged(
        ts,
        "hat_assigned"@,
        "hat \""@ + hat + "\" → session "@ + id,
    )
}

/// The answer to an assigned hat.
pub open spec fn hat_doc(id: Seq<char>, hat: Seq<char>) -> JsonView {
    JsonView::Object(
        map![
            "ok"@ => JsonView::Bool(true),
            "session_id"@ => JsonView::Text(id),
            "hat"@ => JsonView::Text(hat)
        ],
    )
}

/// Writes the hat down in the record of the calling brain, under the lease.
pub open spec fn hat_leased_run(
    id: Seq<char>,
    hat: Seq<char>,
    responsibilities: Seq<char>,
    s: Script,
) -> (Script, Option<Result<JsonView, Seq<char>>>) {
    let (s, r) = caller_orchestrator_run(s);
    match r {
        None => (s, None),
        Some(Err(e)) => (s, Some(Err(e))),
        Some(Ok(None)) => (s, Some(Ok(hat_doc(id, hat)))),
        Some(Ok(Some(o))) => {
            let (s, ts) = now_run(s);
            match ts {
                None => (s, None),
                Some(ts) => {
                    let (s, saved) = state::save_orchestrator_run(
                        hat_assigned(o, id, hat, responsibilities, ts),
                        s,
                    );
                    (
                        s,
                        match saved {
                            None => None,
                            Some(Err(e)) => Some(Err(e)),
                            Some(Ok(_)) => Some(Ok(hat_doc(id, hat))),
                        },
                    )
                },
            }
        },
    }
}

/// The request that writes a session's system prompt.
pub open spec fn set_prompt_request(id: Seq<char>, prompt: Seq<char>) -> JsonView {
    JsonView::Object(
        map!["session_id"@ => JsonView::Text(id), "system_prompt"@ => JsonView::Text(prompt)],
    )
}

/// The request that writes a session's system prompt.
pub fn set_prompt_json(id: &str, prompt: String) -> (r: Json)
    ensures
        r@ == set_prompt_request(id@, prompt@),
{
    Fields::new().with("session_id", Json::text(id)).with("system_prompt", Json::Text(prompt)).done()
}

/// `assign_hat`.
pub open spec fn assign_hat_run(args: JsonView, s: Script) -> (
    Script,
    Option<Result<JsonView, Seq<char>>>,
) {
    match (
        control::required(args, "session_id"@),
        control::required(args, "hat"@),
        control::required(args, "responsibilities"@),
    ) {
        (Err(e), _, _) => (s, Some(Err(e))),
        (_, Err(e), _) => (s, Some(Err(e))),
        (_, _, Err(e)) => (s, Some(Err(e))),
        (Ok(id), Ok(hat), Ok(responsibilities)) => {
            let (s, r) = s.call(
                HostFn::OrchestrateSetPrompt,
                set_prompt_request(id, hat_text(hat, responsibilities)),
            );
            match r {
                None => (s, None),
                Some(Err(e)) => (s, Some(Err(e))),
                Some(Ok(_)) => {
                    let (s, taken) = s.acquire();
                    match taken {
                        None => (s, None),
                        Some(false) => (s, Some(Err(state::BUSY_MSG@))),
                        Some(true) => state::released(hat_leased_run(id, hat, responsibilities, s)),
                    }
                },
            }
        },
    }
}

/// Writes the hat down in the record of the calling brain, under the lease.
fn hat_leased(id: &str, hat: &str, responsibilities: &str, host: &mut Host) -> (r: Option<
    Result<Json, String>,
>)
    ensures
        final(host)@ == hat_leased_run(id@, hat@, responsibilities@, old(host)@).0,
        host::outcome(r) == hat_leased_run(id@, hat@, responsibilities@, old(host)@).1,
{
    let orch = match caller_orchestrator(host)? {
        Err(e) => {
            return Some(Err(e));
        },
        Ok(orch) => orch,
    };
    if let Some(o) = orch {
        let mut o = o;
        let ts = now(host)?;
        o.count_action();
        o.put_hat(
            id,
            HatAssignment {
                hat: hat.to_owned(),
                responsibilities: responsibilities.to_owned(),
                assigned_at: ts.clone(),
            },
        );
        o.push_log(
            ts.as_str(),
            "hat_assigned",
            "hat \"".to_owned().concat(hat).concat("\" → session ").concat(id),
        );
        if let Err(e) = state::save_orchestrator(&o, host)? {
            return Some(Err(e));
        }
    }
    Some(
        Ok(
            Fields::new().with("ok", Json::Bool(true)).with("session_id", Json::text(id)).with(
                "hat",
                Json::text(hat),
            ).done(),
        ),
    )
}

/// `assign_hat { session_id, hat, responsibilities }`: write the hat as the
/// target session's system prompt (it takes effect on its next turn).
pub fn assign_hat_tool(args: &Json, host: &mut Host) -> (r: Option<Result<Json, String>>)
    ensures
        final(host)@ == assign_hat_run(args@, old(host)@).0,
        host::outcome(r) == assign_hat_run(args@, old(host)@).1,
{
    let id = match control::require_str(args, "session_id") {
        Err(e) => {
            return Some(Err(e));
        },
        Ok(id) => id,
    };
    let hat = match control::require_str(args, "hat") {
        Err(e) => {
            return Some(Err(e));
        },
        Ok(hat) => hat,
    };
    let responsibilities = match control::require_str(args, "responsibilities") {
        Err(e) => {
            return Some(Err(e));
        },
        Ok(responsibilities) => responsibilities,
    };
    let input = set_prompt_json(id.as_str(), hat_prompt(hat.as_str(), responsibilities.as_str()));
    if let Err(e) = host.call(HostFn::OrchestrateSetPrompt, input)? {
        return Some(Err(e));
    }
    if !host.acquire()? {
        return Some(Err(state::BUSY_MSG.to_owned()));
    }
    let r = hat_leased(id.as_str(), hat.as_str(), responsibilities.as_str(), host)?;
    host.release()?;
    Some(r)
}

// ── watch_session / unwatch_session ───────────────────────────────────

/// The record with the session watched, or no longer watched.
pub open spec fn rewatched(o: OrchestratorView, id: Seq<char>, watch: bool) -> OrchestratorView {
    if watch {
        OrchestratorView {
            watch: WatchView {
                sessions: if o.watch.sessions.contains(id) {
                    o.watch.sessions
                } else {
                    o.watch.sessions.push(id)
                },
                ..o.watch
            },
            ..o
        }
    } else {
        OrchestratorView {
            watch: WatchView { sessions: records::without(o.watch.sessions, id), ..o.watch },
            created_sessions: records::without(o.created_sessions, id),
            ..o
        }
    }
}

/// The record of the brain that changed its watch list.
pub open spec fn watch_changed(
    o: OrchestratorView,
    id: Seq<char>,
    watch: bool,
    ts: Seq<char>,
) -> OrchestratorView {
    rewatched(o, id, watch).acted().logged(
        ts,
        "watch_changed"@,
        (if watch {
            "now watching"@
        } else {
            "stopped watching"@
        }) + " "@ + id,
    )
}

/// The answer to a changed watch list.
pub open spec fn watch_doc(id: Seq<char>, watch: bool) -> JsonView {
    JsonView::Object(
        map![
            "ok"@ => JsonView::Bool(true),
            "watching"@ => JsonView::Bool(watch),
            "session_id"@ => JsonView::Text(id)
        ],
    )
}

/// Changes the watch list of the calling brain, under the lease.
pub open spec fn watch_leased_run(id: Seq<char>, watch: bool, s: Script) -> (
    Script,
    Option<Result<JsonView, Seq<char>>>,
) {
    let (s, r) = require_caller_orchestrator_run(s);
    match r {
        None => (s, None),
        Some(Err(e)) => (s, Some(Err(e))),
        Some(Ok(o)) => {
            let (s, ts) = now_run(s);
            match ts {
                None => (s, None),
                Some(ts) => {
                    let (s, saved) = state::save_orchestrator_run(
                        watch_changed(o, id, watch, ts),
                        s,
                    );
                    (
                        s,
                        match saved {
                            None => None,
                            Some(Err(e)) => Some(Err(e)),
                            Some(Ok(_)) => Some(Ok(watch_doc(id, watch))),
                        },
                    )
                },
            }
        },
    }
}

/// `watch_session` and `unwatch_session`.
pub open spec fn watch_session_run(args: JsonView, watch: bool, s: Script) -> (
    Script,
    Option<Result<JsonView, Seq<char>>>,
) {
    match control::required(args, "session_id"@) {
        Err(e) => (s, Some(Err(e))),
        Ok(id) => {
            let (s, taken) = s.acquire();
            match taken {
                None => (s, None),
                Some(false) => (s, Some(Err(state::BUSY_MSG@))),
                Some(true) => state::released(watch_leased_run(id, watch, s)),
            }
        },
    }
}

/// Changes the watch list of the calling brain, under the lease.
fn watch_leased(id: &str, watch: bool, host: &mut Host) -> (r: Option<Result<Json, String>>)
    ensures
        final(host)@ == watch_leased_run(id@, watch, old(host)@).0,
        host::outcome(r) == watch_leased_run(id@, watch, old(host)@).1,
{
    let mut o = match require_caller_orchestrator(host)? {
        Err(e) => {
            return Some(Err(e));
        },
        Ok(o) => o,
    };
    let ts = now(host)?;
    if watch {
        if !records::contains_text(&o.watch.sessions, id) {
            let ghost before = o.watch.sessions.deep_view();
            o.watch.sessions.push(id.to_owned());
            assert(o.watch.sessions.deep_view() =~= before.push(id@));
        }
    } else {
        records::remove_text(&mut o.watch.sessions, id);
        records::remove_text(&mut o.created_sessions, id);
    }
    o.count_action();
    let verb = if watch {
        "now watching"
    } else {
        "stopped watching"
    };
    o.push_log(ts.as_str(), "watch_changed", verb.to_owned().concat(" ").concat(id));
    if let Err(e) = state::save_orchestrator(&o, host)? {
        return Some(Err(e));
    }
    Some(
        Ok(
            Fields::new().with("ok", Json::Bool(true)).with("watching", Json::Bool(watch)).with(
                "session_id",
                Json::text(id),
            ).done(),
        ),
    )
}

/// `watch_session { session_id }` / `unwatch_session { session_id }`.
pub fn watch_session_tool(args: &Json, watch: bool, host: &mut Host) -> (r: Option<
    Result<Json, String>,
>)
    ensures
        final(host)@ == watch_session_run(args@, watch, old(host)@).0,
        host::outcome(r) == watch_session_run(args@, watch, old(host)@).1,
{
    let id = match control::require_str(args, "session_id") {
        Err(e) => {
            return Some(Err(e));
        },
        Ok(id) => id,
    };
    if !host.acquire()? {
        return Some(Err(state::BUSY_MSG.to_owned()));
    }
    let r = watch_leased(id.as_str(), watch, host)?;
    host.release()?;
    Some(r)
}

// ── list_managed_sessions ─────────────────────────────────────────────

/// The texts without those that repeat the one just before them.
pub open spec fn deduped(v: Seq<Seq<char>>) -> Seq<Seq<char>>
    decreases v.len(),
{
    if v.len() < 2 {
        v
    } else if v.last() == v[v.len() - 2] {
        deduped(v.drop_last())
    } else {
        deduped(v.drop_last()).push(v.last())
    }
}

/// The texts without those that repeat the one just before them.
fn dedup(v: &Vec<String>) -> (r: Vec<String>)
    ensures
        r.deep_view() == deduped(v.deep_view()),
{
    let mut out: Vec<String> = Vec::new();
    let ghost all = v.deep_view();
    let mut i: usize = 0;
    assert(out.deep_view() =~= deduped(all.take(0)));
    while i < v.len()
        invariant
            all == v.deep_view(),
            0 <= i <= v@.len(),
            out.deep_view() == deduped(all.take(i as int)),
        decreases v@.len() - i,
    {
        let ghost before = out.deep_view();
        assert(all.take(i + 1).drop_last() == all.take(i as int));
        assert(all.take(i + 1).last() == v@[i as int]@);
        assert(i > 0 ==> all.take(i + 1)[i - 1] == v@[i - 1]@);
        assert(i == 0 ==> all.take(1) =~= seq![v@[0]@]);
        if i == 0 || !same(v[i].as_str(), v[i - 1].as_str()) {
            out.push(v[i].clone());
            assert(out.deep_view() =~= before.push(v@[i as int]@));
        }
        i = i + 1;
    }
    assert(all.take(i as int) == all);
    out
}

/// The field of a session, or null.
pub open spec fn field_or_null(info: Option<JsonView>, key: Seq<char>) -> JsonView {
    match info {
        Some(info) => match info.get(key) {
            Some(v) => v,
            None => JsonView::Null,
        },
        None => JsonView::Null,
    }
}

/// The field of a session, or null.
fn field_json(info: Option<&Json>, key: &str) -> (r: Json)
    ensures
        r@ == field_or_null(info.deep_view(), key@),
{
    match info {
        Some(info) => match info.get(key) {
            Some(v) => v.clone(),
            None => Json::Null,
        },
        None => Json::Null,
    }
}

/// The hat of a session, or null.
pub open spec fn hat_or_null(hats: Map<Seq<char>, HatView>, id: Seq<char>) -> JsonView {
    if hats.dom().contains(id) {
        JsonView::Object(
            map![
                "hat"@ => JsonView::Text(hats[id].hat),
                "responsibilities"@ => JsonView::Text(hats[id].responsibilities)
            ],
        )
    } else {
        JsonView::Null
    }
}

/// What is told of a managed session.
pub open spec fn managed_doc(
    o: OrchestratorView,
    all: Seq<JsonView>,
    id: Seq<char>,
    busy: bool,
) -> JsonView {
    let info = authorize::find_session(all, id);
    JsonView::Object(
        map![
            "session_id"@ => JsonView::Text(id),
            "name"@ => field_or_null(info, "name"@),
            "folder_id"@ => field_or_null(info, "folder_id"@),
            "exists"@ => JsonView::Bool(info is Some),
            "busy"@ => JsonView::Bool(busy),
            "hat"@ => hat_or_null(o.hats, id),
            "created_by_orchestrator"@ => JsonView::Bool(o.created_sessions.contains(id))
        ],
    )
}

/// What is told of a managed session.
pub fn managed_json(o: &Orchestrator, all: &Vec<Json>, id: &str, busy: bool) -> (r: Json)
    ensures
        r@ == managed_doc(o@, all.deep_view(), id@, busy),
{
    let info = authorize::find_in(all, id);
    let hat = match records::hat_of(&o.hats, id) {
        Some(h) => Fields::new().with("hat", Json::text(h.hat.as_str())).with(
            "responsibilities",
            Json::text(h.responsibilities.as_str()),
        ).done(),
        None => Json::Null,
    };
    Fields::new().with("session_id", Json::text(id)).with("name", field_json(info, "name")).with(
        "folder_id",
        field_json(info, "folder_id"),
    ).with("exists", Json::Bool(info.is_some())).with("busy", Json::Bool(busy)).with(
        "hat",
        hat,
    ).with(
        "created_by_orchestrator",
        Json::Bool(records::contains_text(&o.created_sessions, id)),
    ).done()
}

/// Tells of the managed sessions, after those in `done`.
pub open spec fn managed_docs_run(
    o: OrchestratorView,
    all: Seq<JsonView>,
    ids: Seq<Seq<char>>,
    ts: Seq<char>,
    done: Seq<JsonView>,
    s: Script,
) -> (Script, Option<Seq<JsonView>>)
    decreases ids.len(),
{
    if ids.len() == 0 {
        (s, Some(done))
    } else {
        let (s, busy) = state::is_busy_run(ids[0], ts, s);
        match busy {
            None => (s, None),
            Some(busy) => managed_docs_run(
                o,
                all,
                ids.skip(1),
                ts,
                done.push(managed_doc(o, all, ids[0], busy)),
                s,
            ),
        }
    }
}

/// Tells of the managed sessions.
fn managed_docs(
    o: &Orchestrator,
    all: &Vec<Json>,
    ids: &Vec<String>,
    ts: &str,
    host: &mut Host,
) -> (r: Option<Vec<Json>>)
    ensures
        final(host)@ == managed_docs_run(
            o@,
            all.deep_view(),
            ids.deep_view(),
            ts@,
            Seq::empty(),
            old(host)@,
        ).0,
        r.deep_view() == managed_docs_run(
            o@,
            all.deep_view(),
            ids.deep_view(),
            ts@,
            Seq::empty(),
            old(host)@,
        ).1,
{
    let mut out: Vec<Json> = Vec::new();
    let ghost views = ids.deep_view();
    let mut i: usize = 0;
    assert(views.skip(0) == views);
    assert(out.deep_view() =~= Seq::empty());
    while i < ids.len()
        invariant
            views == ids.deep_view(),
            0 <= i <= ids@.len(),
            managed_docs_run(o@, all.deep_view(), views, ts@, Seq::empty(), old(host)@)
                == managed_docs_run(
                o@,
                all.deep_view(),
                views.skip(i as int),
                ts@,
                out.deep_view(),
                host@,
            ),
        decreases ids@.len() - i,
    {
        assert(views.skip(i as int).skip(1) == views.skip(i + 1));
        assert(views.skip(i as int)[0] == ids@[i as int]@);
        let busy = state::is_busy(ids[i].as_str(), ts, host)?;
        let ghost before = out.deep_view();
        let doc = managed_json(o, all, ids[i].as_str(), busy);
        let ghost view = doc@;
        out.push(doc);
        assert(out.deep_view() =~= before.push(view));
        i = i + 1;
    }
    Some(out)
}

/// The answer to `list_managed_sessions`.
pub open spec fn listing_doc(o: OrchestratorView, sessions: Seq<JsonView>) -> JsonView {
    JsonView::Object(
        map![
            "orchestrator"@ => JsonView::Text(o.name),
            "goal_status"@ => o.goal_status.to_json(),
            "sessions"@ => JsonView::Array(sessions)
        ],
    )
}

/// `list_managed_sessions`.
pub open spec fn list_managed_sessions_run(s: Script) -> (
    Script,
    Option<Result<JsonView, Seq<char>>>,
) {
    let (s, r) = require_caller_orchestrator_run(s);
    match r {
        None => (s, None),
        Some(Err(e)) => (s, Some(Err(e))),
        Some(Ok(o)) => {
            let (s, ts) = now_run(s);
            match ts {
                None => (s, None),
                Some(ts) => {
                    let (s, r) = s.call(HostFn::ListSessions, authorize::query(""@));
                    match r {
                        None => (s, None),
                        Some(Err(e)) => (s, Some(Err(e))),
                        Some(Ok(listed)) => {
                            let (s, docs) = managed_docs_run(
                                o,
                                authorize::sessions_in(listed),
                                deduped(engine::managed(o)),
                                ts,
                                Seq::empty(),
                                s,
                            );
                            (
                                s,
                                match docs {
                                    None => None,
                                    Some(docs) => Some(Ok(listing_doc(o, docs))),
                                },
                            )
                        },
                    }
                },
            }
        },
    }
}

/// `list_managed_sessions {}`: the watched and created sessions with hats and
/// best-effort busy state.
pub fn list_managed_sessions_tool(_args: &Json, host: &mut Host) -> (r: Option<
    Result<Json, String>,
>)
    ensures
        final(host)@ == list_managed_sessions_run(old(host)@).0,
        host::outcome(r) == list_managed_sessions_run(old(host)@).1,
{
    let o = match require_caller_orchestrator(host)? {
        Err(e) => {
            return Some(Err(e));
        },
        Ok(o) => o,
    };
    let ts = now(host)?;
    // Names and folders of all sessions, in one call.
    let listed = match host.call(HostFn::ListSessions, authorize::query_json(""))? {
        Err(e) => {
            return Some(Err(e));
        },
        Ok(listed) => listed,
    };
    let none: Vec<Json> = Vec::new();
    assert(none.deep_view() =~= Seq::empty());
    let all = match listed.array_at("sessions") {
        Some(sessions) => sessions,
        None => &none,
    };
    let ids = dedup(&engine::managed_ids(&o));
    let docs = managed_docs(&o, all, &ids, ts.as_str(), host)?;
    assert(json::items_view(docs@) =~= docs.deep_view());
    Some(
        Ok(
            Fields::new().with("orchestrator", Json::text(o.name.as_str())).with(
                "goal_status",
                o.goal_status.to_json(),
            ).with("sessions", Json::Array(docs)).done(),
        ),
    )
}

// ── update_goal_status ────────────────────────────────────────────────

/// The refusal of any other state.
pub const BAD_STATE: &'static str = "'state' must be one of: in_progress, blocked, done";

/// The refusal where the estimate is missing.
pub const NO_ETA: &'static str =
    "'eta_minutes' is required while the goal is not done — your current \
estimate of minutes until the entire requirements are implemented";

/// A report on the goal, checked.
pub struct Report {
    pub state: String,
    pub note: String,
    pub percent: Option<u8>,
    pub eta_minutes: u64,
}

/// What a [`Report`] holds.
#[verifier::ext_equal]
pub struct ReportView {
    pub state: Seq<char>,
    pub note: Seq<char>,
    pub percent: Option<u8>,
    pub eta_minutes: u64,
}

impl DeepView for Report {
    type V = ReportView;

    open spec fn deep_view(&self) -> ReportView {
        ReportView {
            state: self.state@,
            note: self.note@,
            percent: self.percent,
            eta_minutes: self.eta_minutes,
        }
    }
}

/// The states that a goal can be in.
pub open spec fn goal_state(state: Seq<char>) -> bool {
    state == "in_progress"@ || state == "blocked"@ || state == "done"@
}

/// A percentage; what is more than 100 counts as 100.
pub open spec fn percent_of(args: JsonView) -> Option<u8> {
    match args.u64_at("percent"@) {
        Some(p) => Some(
            if p > 100 {
                100
            } else {
                p as u8
            },
        ),
        None => None,
    }
}

/// The report that the arguments make. The estimate can be left out only where
/// the goal is done.
pub open spec fn report_of(args: JsonView) -> Result<ReportView, Seq<char>> {
    match control::required(args, "state"@) {
        Err(e) => Err(e),
        Ok(state) => if !goal_state(state) {
            Err(BAD_STATE@)
        } else if state != "done"@ && args.u64_at("eta_minutes"@) is None {
            Err(NO_ETA@)
        } else {
            Ok(
                ReportView {
                    state,
                    note: text::or_else(control::filled(args, "note"@), Seq::empty()),
                    percent: percent_of(args),
                    eta_minutes: match args.u64_at("eta_minutes"@) {
                        Some(m) => m,
                        None => 0,
                    },
                },
            )
        },
    }
}

/// Checks the arguments of a report.
pub fn check_report(args: &Json) -> (r: Result<Report, String>)
    ensures
        json::result_view(r) == report_of(args@),
{
    let state = match control::require_str(args, "state") {
        Err(e) => {
            return Err(e);
        },
        Ok(state) => state,
    };
    let done = same(state.as_str(), "done");
    if !same(state.as_str(), "in_progress") && !same(state.as_str(), "blocked") && !done {
        return Err(BAD_STATE.to_owned());
    }
    let note = match opt_str(args, "note") {
        Some(note) => note,
        None => String::new(),
    };
    let percent = match args.u64_at("percent") {
        Some(p) => Some(
            if p > 100 {
                100u8
            } else {
                p as u8
            },
        ),
        None => None,
    };
    let eta_minutes: u64 = match args.u64_at("eta_minutes") {
        Some(m) => m,
        None => {
            if !done {
                return Err(NO_ETA.to_owned());
            }
            0
        },
    };
    Ok(Report { state, note, percent, eta_minutes })
}

/// What the activity feed says of a report.
pub open spec fn report_text(r: ReportView) -> Seq<char> {
    "state="@ + r.state + match r.percent {
        Some(p) => " "@ + text::decimal(p as nat) + "%"@,
        None => Seq::empty(),
    } + " eta="@ + text::decimal(r.eta_minutes as nat) + "min"@ + if r.note.len() == 0 {
        Seq::empty()
    } else {
        " — "@ + r.note
    }
}

/// What the activity feed says of a report.
fn report_string(r: &Report) -> (d: String)
    ensures
        d@ == report_text(r.deep_view()),
{
    let percent = match r.percent {
        Some(p) => " ".to_owned().concat(text::decimal_text(p as u64).as_str()).concat("%"),
        None => String::new(),
    };
    let note = if r.note.as_str().is_empty() {
        String::new()
    } else {
        " — ".to_owned().concat(r.note.as_str())
    };
    "state=".to_owned().concat(r.state.as_str()).concat(percent.as_str()).concat(" eta=").concat(
        text::decimal_text(r.eta_minutes).as_str(),
    ).concat("min").concat(note.as_str())
}

/// The record of the brain that reported, with the estimate projected onto the
/// clock.
pub open spec fn reported(
    o: OrchestratorView,
    r: ReportView,
    projected_at: Seq<char>,
    ts: Seq<char>,
) -> OrchestratorView {
    let o = OrchestratorView {
        goal_status: GoalStatusView {
            state: r.state,
            note: r.note,
            percent: r.percent,
            updated_at: ts,
            eta: Some(
                EtaView { minutes_remaining: r.eta_minutes, projected_at, updated_at: ts },
            ),
        },
        ..o
    };
    engine::sampled(o, ts, r.eta_minutes).acted().logged(ts, "goal_update"@, report_text(r))
}

/// The answer to a report.
pub open spec fn report_doc(r: ReportView) -> JsonView {
    JsonView::Object(
        map![
            "ok"@ => JsonView::Bool(true),
            "state"@ => JsonView::Text(r.state),
            "eta_minutes"@ => json::uint_view(r.eta_minutes)
        ],
    )
}

/// Writes a report down in the record of the calling brain, under the lease.
pub open spec fn report_leased_run(report: ReportView, s: Script) -> (
    Script,
    Option<Result<JsonView, Seq<char>>>,
) {
    let (s, r) = require_caller_orchestrator_run(s);
    match r {
        None => (s, None),
        Some(Err(e)) => (s, Some(Err(e))),
        Some(Ok(o)) => {
            let (s, ts) = now_run(s);
            match ts {
                None => (s, None),
                Some(ts) => {
                    let minutes = report.eta_minutes as i64;
                    if !time::minutes_fit(ts, minutes as int) {
                        (s.abort(engine::TIME_OVERFLOW@), None)
                    } else {
                        let (s, saved) = state::save_orchestrator_run(
                            reported(o, report, time::later_text(ts, minutes as int), ts),
                            s,
                        );
                        (
                            s,
                            match saved {
                                None => None,
                                Some(Err(e)) => Some(Err(e)),
                                Some(Ok(_)) => Some(Ok(report_doc(report))),
                            },
                        )
                    }
                },
            }
        },
    }
}

/// `update_goal_status`.
pub open spec fn update_goal_status_run(args: JsonView, s: Script) -> (
    Script,
    Option<Result<JsonView, Seq<char>>>,
) {
    match report_of(args) {
        Err(e) => (s, Some(Err(e))),
        Ok(report) => {
            let (s, taken) = s.acquire();
            match taken {
                None => (s, None),
                Some(false) => (s, Some(Err(state::BUSY_MSG@))),
                Some(true) => state::released(report_leased_run(report, s)),
            }
        },
    }
}

/// Writes a report down in a record.
pub fn apply_report(o: &mut Orchestrator, report: &Report, projected_at: String, ts: &str)
    ensures
        final(o)@ == reported(old(o)@, report.deep_view(), projected_at@, ts@),
{
    o.goal_status.state = report.state.clone();
    o.goal_status.note = report.note.clone();
    o.goal_status.percent = report.percent;
    o.goal_status.updated_at = ts.to_owned();
    o.goal_status.eta = Some(
        Eta {
            minutes_remaining: report.eta_minutes,
            projected_at,
            updated_at: ts.to_owned(),
        },
    );
    engine::push_eta_history(o, ts, report.eta_minutes);
    o.count_action();
    o.push_log(ts, "goal_update", report_string(report));
}

/// Writes a report down in the record of the calling brain, under the lease.
fn report_leased(report: &Report, host: &mut Host) -> (r: Option<Result<Json, String>>)
    ensures
        final(host)@ == report_leased_run(report.deep_view(), old(host)@).0,
        host::outcome(r) == report_leased_run(report.deep_view(), old(host)@).1,
{
    let mut o = match require_caller_orchestrator(host)? {
        Err(e) => {
            return Some(Err(e));
        },
        Ok(o) => o,
    };
    let ts = now(host)?;
    let projected_at = match time::checked_add_minutes(ts.as_str(), report.eta_minutes as i64) {
        Some(t) => t,
        None => {
            host.abort(engine::TIME_OVERFLOW);
            return None;
        },
    };
    apply_report(&mut o, report, projected_at, ts.as_str());
    if let Err(e) = state::save_orchestrator(&o, host)? {
        return Some(Err(e));
    }
    Some(
        Ok(
            Fields::new().with("ok", Json::Bool(true)).with(
                "state",
                Json::text(report.state.as_str()),
            ).with("eta_minutes", Json::uint(report.eta_minutes)).done(),
        ),
    )
}

/// `update_goal_status { state, note?, percent?, eta_minutes }`: progress and
/// the estimate for the ENTIRE requirements. `eta_minutes` is required while
/// not done; `state=done` stops the autonomy watchdog.
pub fn update_goal_status_tool(args: &Json, host: &mut Host) -> (r: Option<Result<Json, String>>)
    ensures
        final(host)@ == update_goal_status_run(args@, old(host)@).0,
        host::outcome(r) == update_goal_status_run(args@, old(host)@).1,
{
    let report = match check_report(args) {
        Err(e) => {
            return Some(Err(e));
        },
        Ok(report) => report,
    };
    if !host.acquire()? {
        return Some(Err(state::BUSY_MSG.to_owned()));
    }
    let r = report_leased(&report, host)?;
    host.release()?;
    Some(r)
}

// ── orchestrator_report ───────────────────────────────────────────────

/// The record of a brain that acted, with a line in its feed.
pub open spec fn noted(
    o: OrchestratorView,
    ts: Seq<char>,
    kind: Seq<char>,
    detail: Seq<char>,
) -> OrchestratorView {
    o.acted().logged(ts, kind, detail)
}

/// Writes a line into the feed of the calling brain, under the lease.
pub open spec fn summary_leased_run(summary: Seq<char>, s: Script) -> (
    Script,
    Option<Result<JsonView, Seq<char>>>,
) {
    let (s, r) = require_caller_orchestrator_run(s);
    match r {
        None => (s, None),
        Some(Err(e)) => (s, Some(Err(e))),
        Some(Ok(o)) => {
            let (s, ts) = now_run(s);
            match ts {
                None => (s, None),
                Some(ts) => {
                    let (s, saved) = state::save_orchestrator_run(
                        noted(o, ts, "report"@, summary),
                        s,
                    );
                    (
                        s,
                        match saved {
                            None => None,
                            Some(Err(e)) => Some(Err(e)),
                            Some(Ok(_)) => Some(Ok(engine::ok_doc())),
                        },
                    )
                },
            }
        },
    }
}

/// `orchestrator_report`.
pub open spec fn orchestrator_report_run(args: JsonView, s: Script) -> (
    Script,
    Option<Result<JsonView, Seq<char>>>,
) {
    match control::required(args, "summary"@) {
        Err(e) => (s, Some(Err(e))),
        Ok(summary) => {
            let (s, taken) = s.acquire();
            match taken {
                None => (s, None),
                Some(false) => (s, Some(Err(state::BUSY_MSG@))),
                Some(true) => state::released(summary_leased_run(summary, s)),
            }
        },
    }
}

/// Writes a line into the feed of the calling brain, under the lease.
fn summary_leased(summary: String, host: &mut Host) -> (r: Option<Result<Json, String>>)
    ensures
        final(host)@ == summary_leased_run(summary@, old(host)@).0,
        host::outcome(r) == summary_leased_run(summary@, old(host)@).1,
{
    let mut o = match require_caller_orchestrator(host)? {
        Err(e) => {
            return Some(Err(e));
        },
        Ok(o) => o,
    };
    let ts = now(host)?;
    o.count_action();
    o.push_log(ts.as_str(), "report", summary);
    if let Err(e) = state::save_orchestrator(&o, host)? {
        return Some(Err(e));
    }
    Some(Ok(engine::ok_doc_json()))
}

/// `orchestrator_report { summary }`: a one-line activity entry for the page.
pub fn orchestrator_report_tool(args: &Json, host: &mut Host) -> (r: Option<Result<Json, String>>)
    ensures
        final(host)@ == orchestrator_report_run(args@, old(host)@).0,
        host::outcome(r) == orchestrator_report_run(args@, old(host)@).1,
{
    let summary = match control::require_str(args, "summary") {
        Err(e) => {
            return Some(Err(e));
        },
        Ok(summary) => summary,
    };
    if !host.acquire()? {
        return Some(Err(state::BUSY_MSG.to_owned()));
    }
    let r = summary_leased(summary, host)?;
    host.release()?;
    Some(r)
}

// ── Attribution ───────────────────────────────────────────────────────

/// What the activity feed says of a tool call.
pub open spec fn call_text(tool: Seq<char>, target: Option<Seq<char>>) -> Seq<char> {
    match target {
        Some(target) => tool + " → "@ + target,
        None => tool,
    }
}

/// Attributes a tool call to the calling brain, under the lease.
pub open spec fn attribute_leased_run(tool: Seq<char>, target: Option<Seq<char>>, s: Script) -> (
    Script,
    Option<()>,
) {
    let (s, r) = caller_orchestrator_run(s);
    match r {
        None => (s, None),
        Some(Ok(Some(o))) => {
            let (s, ts) = now_run(s);
            match ts {
                None => (s, None),
                Some(ts) => {
                    let (s, saved) = state::save_orchestrator_run(
                        noted(o, ts, "tool_call"@, call_text(tool, target)),
                        s,
                    );
                    (
                        s,
                        match saved {
                            None => None,
                            Some(_) => Some(()),
                        },
                    )
                },
            }
        },
        Some(_) => (s, Some(())),
    }
}

/// Attributes a tool call to the calling brain.
pub open spec fn attribute_action_run(tool: Seq<char>, target: Option<Seq<char>>, s: Script) -> (
    Script,
    Option<()>,
) {
    let (s, taken) = s.acquire();
    match taken {
        None => (s, None),
        Some(false) => (s, Some(())),
        Some(true) => state::released(attribute_leased_run(tool, target, s)),
    }
}

/// Attributes a tool call to the calling brain, under the lease.
fn attribute_leased(tool: &str, target: Option<&str>, host: &mut Host) -> (r: Option<()>)
    ensures
        final(host)@ == attribute_leased_run(tool@, target.deep_view(), old(host)@).0,
        r == attribute_leased_run(tool@, target.deep_view(), old(host)@).1,
{
    if let Ok(Some(o)) = caller_orchestrator(host)? {
        let mut o = o;
        let ts = now(host)?;
        o.count_action();
        let detail = match target {
            Some(target) => tool.to_owned().concat(" → ").concat(target),
            None => tool.to_owned(),
        };
        o.push_log(ts.as_str(), "tool_call", detail);
        let _ = state::save_orchestrator(&o, host)?;
    }
    Some(())
}

/// Attribute a successful control-tool call to the calling brain's action
/// count and feed. Best-effort: it never fails the call it decorates, and is
/// dropped where another instance holds the lease.
pub fn attribute_action(tool: &str, target_session: Option<&str>, host: &mut Host) -> (r: Option<()>)
    ensures
        final(host)@ == attribute_action_run(tool@, target_session.deep_view(), old(host)@).0,
        r == attribute_action_run(tool@, target_session.deep_view(), old(host)@).1,
{
    if !host.acquire()? {
        return Some(());
    }
    attribute_leased(tool, target_session, host)?;
    host.release()?;
    Some(())
}

} // verus!

//! The Orchestrators management page: the public HTML shell (served on
//! `GET /plugin-api/v1/orchestrators`) and the authenticated JSON routes under
//! `/api/plugin-ui/session-control/*`. The page runs in a sandboxed iframe and
//! reaches the JSON routes through the parent's `plugin-ui-fetch` bridge; it
//! polls every 5 s, so state stays live without a websocket.

use vstd::prelude::*;
use vstd::string::*;

use crate::authorize;
use crate::engine;
use crate::host::{self, Host, HostFn, RequestView, Script};
use crate::json::{self, Fields, Json, JsonView};
use crate::orch_tools;
use crate::page_html;
use crate::records::{
    self, Caps, Orchestrator, OrchestratorView, Schedule, StandardsView, StatsView, WatchView,
};
use crate::state;
use crate::text::{self, same};

verus! {

/// The path of the page.
pub const PAGE_PATH: &'static str = "/plugin-api/v1/orchestrators";

/// What the paths of the JSON routes begin with.
pub const API_PREFIX: &'static str = "/api/plugin-ui/session-control";

// ── Public page (http.request.before) ─────────────────────────────────

/// A response.
pub open spec fn response(status: u64, content_type: Seq<char>, body: Seq<char>) -> JsonView {
    JsonView::Object(
        map![
            "status"@ => json::uint_view(status),
            "headers"@ => JsonView::Object(map!["content-type"@ => JsonView::Text(content_type)]),
            "body"@ => JsonView::Text(body)
        ],
    )
}

/// A response.
fn respond(status: u64, content_type: &str, body: String) -> (r: Json)
    ensures
        r@ == response(status, content_type@, body@),
{
    Fields::new().with("status", Json::uint(status)).with(
        "headers",
        Fields::new().with("content-type", Json::text(content_type)).done(),
    ).with("body", Json::Text(body)).done()
}

/// The media type of the page.
pub const HTML: &'static str = "text/html; charset=utf-8";

/// The response to a request for the page, or for anything else.
pub open spec fn page_response(payload: JsonView) -> JsonView {
    if payload.text_at("path"@) == Some(PAGE_PATH@) {
        response(200, HTML@, page_html::page_text())
    } else {
        response(404, HTML@, "<!doctype html><h1>404</h1>"@)
    }
}

/// Serves the page on its path.
pub fn serve_public(payload: &Json) -> (r: Result<Json, String>)
    ensures
        json::result_view(r) == Ok::<JsonView, Seq<char>>(page_response(payload@)),
{
    if let Some(path) = payload.text_at("path") {
        if same(path, PAGE_PATH) {
            return Ok(respond(200, HTML, page_html::page_html()));
        }
    }
    Ok(respond(404, HTML, "<!doctype html><h1>404</h1>".to_owned()))
}

// ── Authenticated JSON routes (http.request.authed) ───────────────────

/// The response that carries a document.
pub open spec fn json_response(status: u64, body: JsonView) -> JsonView {
    response(status, "application/json"@, json::json_text(body))
}

/// The response that carries the document.
pub fn json_respond(status: u64, body: Json) -> (r: Json)
    ensures
        r@ == json_response(status, body@),
{
    respond(status, "application/json", body.to_text())
}

/// The response of a route that went well.
pub open spec fn ok_json(body: JsonView) -> JsonView {
    json_response(200, body)
}

/// A refusal.
pub open spec fn error_doc(msg: Seq<char>) -> JsonView {
    JsonView::Object(map!["error"@ => JsonView::Text(msg)])
}

/// The response that carries a refusal.
pub open spec fn err_json(status: u64, msg: Seq<char>) -> JsonView {
    json_response(status, error_doc(msg))
}

/// The response that carries a refusal.
fn err_respond(status: u64, msg: &str) -> (r: Json)
    ensures
        r@ == err_json(status, msg@),
{
    json_respond(status, Fields::new().with("error", Json::text(msg)).done())
}

// ── Editing ───────────────────────────────────────────────────────────

/// The texts among the items, in order.
pub open spec fn texts_in(items: Seq<JsonView>) -> Seq<Seq<char>>
    decreases items.len(),
{
    if items.len() == 0 {
        Seq::empty()
    } else {
        match items.last().as_text() {
            Some(s) => texts_in(items.drop_last()).push(s),
            None => texts_in(items.drop_last()),
        }
    }
}

/// The texts among the items, in order.
fn texts_of(items: &Vec<Json>) -> (r: Vec<String>)
    ensures
        r.deep_view() == texts_in(items.deep_view()),
{
    let mut out: Vec<String> = Vec::new();
    let ghost all = items.deep_view();
    let mut i: usize = 0;
    assert(out.deep_view() =~= texts_in(all.take(0)));
    while i < items.len()
        invariant
            all == items.deep_view(),
            0 <= i <= items@.len(),
            out.deep_view() == texts_in(all.take(i as int)),
        decreases items@.len() - i,
    {
        let ghost before = out.deep_view();
        assert(all.take(i + 1).drop_last() == all.take(i as int));
        assert(all.take(i + 1).last() == items@[i as int]@);
        if let Some(s) = items[i].as_str() {
            out.push(s.to_owned());
            assert(out.deep_view() =~= before.push(s@));
        }
        i = i + 1;
    }
    assert(all.take(i as int) == all);
    out
}

/// The record with name, goal and prompt as the body has them; what the body
/// leaves out stays.
pub open spec fn retitled(o: OrchestratorView, body: JsonView) -> OrchestratorView {
    OrchestratorView {
        name: match body.text_at("name"@) {
            Some(v) => text::trim(v),
            None => o.name,
        },
        goal: text::or_else(body.text_at("goal"@), o.goal),
        prompt: text::or_else(body.text_at("prompt"@), o.prompt),
        ..o
    }
}

/// The record with folder and model as the body has them. A model that is no
/// text, or empty, stands for none.
pub open spec fn rehoused(o: OrchestratorView, body: JsonView) -> OrchestratorView {
    OrchestratorView {
        folder_id: match body.text_at("folder_id"@) {
            Some(v) => text::trim(v),
            None => o.folder_id,
        },
        model: match body.get("model"@) {
            Some(v) => match v.as_text() {
                Some(m) => if m.len() == 0 {
                    None
                } else {
                    Some(m)
                },
                None => None,
            },
            None => o.model,
        },
        ..o
    }
}

/// The record switched on or off; switching it on forgets the failures.
pub open spec fn switched(o: OrchestratorView, body: JsonView) -> OrchestratorView {
    match body.bool_at("enabled"@) {
        Some(true) => OrchestratorView {
            enabled: true,
            consecutive_failures: 0,
            error: None,
            ..o
        },
        Some(false) => OrchestratorView { enabled: false, ..o },
        None => o,
    }
}

/// The record with a new schedule, whose slot is not set yet. What is no
/// positive number switches the schedule off.
pub open spec fn rescheduled(o: OrchestratorView, body: JsonView) -> OrchestratorView {
    match body.get("every_minutes"@) {
        Some(v) => OrchestratorView {
            schedule: Schedule {
                every_minutes: match v.as_u64() {
                    Some(m) => if m > 0 {
                        Some(m)
                    } else {
                        None
                    },
                    None => None,
                },
            },
            stats: StatsView { next_due_at: None, ..o.stats },
            ..o
        },
        None => o,
    }
}

/// The number, or `default` where there is none.
pub open spec fn number_or(n: Option<u64>, default: u64) -> u64 {
    match n {
        Some(n) => n,
        None => default,
    }
}

/// The cap on fires that a number stands for: at least one, and at most what
/// the field holds.
pub open spec fn fire_cap(v: u64) -> u32 {
    if v == 0 {
        1
    } else if v > u32::MAX {
        u32::MAX
    } else {
        v as u32
    }
}

/// The record with the limits as the body has them. The fires per hour are at
/// least one; the number of sessions is cut to the width of its field.
pub open spec fn limited(o: OrchestratorView, body: JsonView) -> OrchestratorView {
    OrchestratorView {
        watchdog_minutes: number_or(body.u64_at("watchdog_minutes"@), o.watchdog_minutes),
        cooldown_secs: number_or(body.u64_at("cooldown_secs"@), o.cooldown_secs),
        caps: Caps {
            max_fires_per_hour: match body.u64_at("max_fires_per_hour"@) {
                Some(v) => fire_cap(v),
                None => o.caps.max_fires_per_hour,
            },
            max_sessions_created: match body.u64_at("max_sessions_created"@) {
                Some(v) => v as u32,
                None => o.caps.max_sessions_created,
            },
        },
        ..o
    }
}

/// The switch, or `default` where there is none.
pub open spec fn switch_or(b: Option<bool>, default: bool) -> bool {
    match b {
        Some(b) => b,
        None => default,
    }
}

/// The record with the watch lists as the body has them.
pub open spec fn redirected(o: OrchestratorView, body: JsonView) -> OrchestratorView {
    OrchestratorView {
        watch: WatchView {
            sessions: match body.array_at("watch_sessions"@) {
                Some(items) => texts_in(items),
                None => o.watch.sessions,
            },
            folders: match body.array_at("watch_folders"@) {
                Some(items) => texts_in(items),
                None => o.watch.folders,
            },
            auto_watch_created: switch_or(
                body.bool_at("auto_watch_created"@),
                o.watch.auto_watch_created,
            ),
        },
        ..o
    }
}

/// The record with the standards as the body has them.
pub open spec fn restandardised(o: OrchestratorView, body: JsonView) -> OrchestratorView {
    match body.get("standards"@) {
        Some(v) => OrchestratorView {
            standards: StandardsView {
                dev: switch_or(v.bool_at("dev"@), o.standards.dev),
                testing: switch_or(v.bool_at("testing"@), o.standards.testing),
                ux: switch_or(v.bool_at("ux"@), o.standards.ux),
                custom: text::or_else(v.text_at("custom"@), o.standards.custom),
            },
            ..o
        },
        None => o,
    }
}

/// Whether the text under `key` is there and blank.
pub open spec fn blank_at(body: JsonView, key: Seq<char>) -> bool {
    body.text_at(key) matches Some(v) && text::blank(v)
}

/// The record with the fields that the page may set, or the refusal of a blank
/// name or folder. At a refusal the fields before it have been set.
pub open spec fn edited(o: OrchestratorView, body: JsonView) -> (
    OrchestratorView,
    Result<(), Seq<char>>,
) {
    if blank_at(body, "name"@) {
        (o, Err("name must not be blank"@))
    } else if blank_at(body, "folder_id"@) {
        (retitled(o, body), Err("folder_id must not be blank"@))
    } else {
        let o = rehoused(retitled(o, body), body);
        let o = limited(rescheduled(switched(o, body), body), body);
        (restandardised(redirected(o, body), body), Ok(()))
    }
}

/// Sets name, goal, prompt, folder and model.
fn apply_identity(o: &mut Orchestrator, body: &Json) -> (r: Result<(), String>)
    ensures
        (final(o)@, json::result_view(r)) == (if blank_at(body@, "name"@) {
            (old(o)@, Err("name must not be blank"@))
        } else if blank_at(body@, "folder_id"@) {
            (retitled(old(o)@, body@), Err("folder_id must not be blank"@))
        } else {
            (rehoused(retitled(old(o)@, body@), body@), Ok::<(), Seq<char>>(()))
        }),
{
    if let Some(v) = body.text_at("name") {
        if text::is_blank(v) {
            return Err("name must not be blank".to_owned());
        }
        o.name = text::trim_text(v);
    }
    if let Some(v) = body.text_at("goal") {
        o.goal = v.to_owned();
    }
    if let Some(v) = body.text_at("prompt") {
        o.prompt = v.to_owned();
    }
    if let Some(v) = body.text_at("folder_id") {
        if text::is_blank(v) {
            return Err("folder_id must not be blank".to_owned());
        }
        o.folder_id = text::trim_text(v);
    }
    if let Some(v) = body.get("model") {
        o.model = match v.as_str() {
            Some(m) => if m.is_empty() {
                None
            } else {
                Some(m.to_owned())
            },
            None => None,
        };
    }
    Ok(())
}

/// Sets switch, schedule and limits.
fn apply_limits(o: &mut Orchestrator, body: &Json)
    ensures
        final(o)@ == limited(rescheduled(switched(old(o)@, body@), body@), body@),
{
    if let Some(v) = body.bool_at("enabled") {
        o.enabled = v;
        if v {
            // Switching it on again forgets the failures.
            o.consecutive_failures = 0;
            o.error = None;
        }
    }
    if let Some(v) = body.get("every_minutes") {
        o.schedule.every_minutes = match v.as_u64() {
            Some(m) => if m > 0 {
                Some(m)
            } else {
                None
            },
            None => None,
        };
        o.stats.next_due_at = None;
    }
    if let Some(v) = body.u64_at("watchdog_minutes") {
        o.watchdog_minutes = v;
    }
    if let Some(v) = body.u64_at("cooldown_secs") {
        o.cooldown_secs = v;
    }
    if let Some(v) = body.u64_at("max_fires_per_hour") {
        o.caps.max_fires_per_hour = if v == 0 {
            1
        } else if v > u32::MAX as u64 {
            u32::MAX
        } else {
            v as u32
        };
    }
    if let Some(v) = body.u64_at("max_sessions_created") {
        o.caps.max_sessions_created = v as u32;
    }
}

/// Sets the watch lists.
fn apply_watch(o: &mut Orchestrator, body: &Json)
    ensures
        final(o)@ == redirected(old(o)@, body@),
{
    if let Some(v) = body.array_at("watch_sessions") {
        o.watch.sessions = texts_of(v);
    }
    if let Some(v) = body.array_at("watch_folders") {
        o.watch.folders = texts_of(v);
    }
    if let Some(v) = body.bool_at("auto_watch_created") {
        o.watch.auto_watch_created = v;
    }
}

/// Sets the standards.
fn apply_standards(o: &mut Orchestrator, body: &Json)
    ensures
        final(o)@ == restandardised(old(o)@, body@),
{
    if let Some(s) = body.get("standards") {
        if let Some(b) = s.bool_at("dev") {
            o.standards.dev = b;
        }
        if let Some(b) = s.bool_at("testing") {
            o.standards.testing = b;
        }
        if let Some(b) = s.bool_at("ux") {
            o.standards.ux = b;
        }
        if let Some(c) = s.text_at("custom") {
            o.standards.custom = c.to_owned();
        }
    }
}

/// Sets the fields that the page may set on create and update.
pub fn apply_fields(o: &mut Orchestrator, body: &Json) -> (r: Result<(), String>)
    ensures
        (final(o)@, json::result_view(r)) == edited(old(o)@, body@),
{
    if let Err(e) = apply_identity(o, body) {
        return Err(e);
    }
    apply_limits(o, body);
    apply_watch(o, body);
    apply_standards(o, body);
    Ok(())
}

// ── Routes ────────────────────────────────────────────────────────────

/// Whether the brain of an orchestrator is busy; before the first tick none is.
pub open spec fn brain_busy_run(o: OrchestratorView, now: Seq<char>, s: Script) -> (
    Script,
    Option<bool>,
) {
    match o.session_id {
        Some(brain) => if now.len() == 0 {
            (s, Some(false))
        } else {
            state::is_busy_run(brain, now, s)
        },
        None => (s, Some(false)),
    }
}

/// Whether the brain of an orchestrator is busy.
fn brain_busy(o: &Orchestrator, now: &str, host: &mut Host) -> (r: Option<bool>)
    ensures
        final(host)@ == brain_busy_run(o@, now@, old(host)@).0,
        r == brain_busy_run(o@, now@, old(host)@).1,
{
    match &o.session_id {
        Some(brain) => if now.is_empty() {
            Some(false)
        } else {
            state::is_busy(brain.as_str(), now, host)
        },
        None => Some(false),
    }
}

/// A record as the page sees it: the stored document, and whether the brain is
/// busy.
pub open spec fn shown(o: OrchestratorView, busy: bool) -> JsonView {
    match o.to_json() {
        JsonView::Object(m) => JsonView::Object(m.insert("brain_busy"@, JsonView::Bool(busy))),
        other => other,
    }
}

/// A record as the page sees it.
pub fn show(o: &Orchestrator, busy: bool) -> (r: Json)
    ensures
        r@ == shown(o@, busy),
{
    o.to_fields().with("brain_busy", Json::Bool(busy)).done()
}

/// Shows the records, after those in `done`.
pub open spec fn show_all_run(
    orchs: Seq<OrchestratorView>,
    now: Seq<char>,
    done: Seq<JsonView>,
    s: Script,
) -> (Script, Option<Seq<JsonView>>)
    decreases orchs.len(),
{
    if orchs.len() == 0 {
        (s, Some(done))
    } else {
        let (s, busy) = brain_busy_run(orchs[0], now, s);
        match busy {
            None => (s, None),
            Some(busy) => show_all_run(orchs.skip(1), now, done.push(shown(orchs[0], busy)), s),
        }
    }
}

/// Shows the records.
fn show_all(orchs: &Vec<Orchestrator>, now: &str, host: &mut Host) -> (r: Option<Vec<Json>>)
    ensures
        final(host)@ == show_all_run(orchs.deep_view(), now@, Seq::empty(), old(host)@).0,
        r.deep_view() == show_all_run(orchs.deep_view(), now@, Seq::empty(), old(host)@).1,
{
    let mut out: Vec<Json> = Vec::new();
    let ghost views = orchs.deep_view();
    let mut i: usize = 0;
    assert(views.skip(0) == views);
    assert(out.deep_view() =~= Seq::empty());
    while i < orchs.len()
        invariant
            views == orchs.deep_view(),
            0 <= i <= orchs@.len(),
            show_all_run(views, now@, Seq::empty(), old(host)@) == show_all_run(
                views.skip(i as int),
                now@,
                out.deep_view(),
                host@,
            ),
        decreases orchs@.len() - i,
    {
        assert(views.skip(i as int).skip(1) == views.skip(i + 1));
        assert(views.skip(i as int)[0] == orchs@[i as int]@);
        let busy = brain_busy(&orchs[i], now, host)?;
        let ghost before = out.deep_view();
        let doc = show(&orchs[i], busy);
        let ghost view = doc@;
        out.push(doc);
        assert(out.deep_view() =~= before.push(view));
        i = i + 1;
    }
    Some(out)
}

/// The body of the list.
pub open spec fn list_doc(orchs: Seq<JsonView>, paused: bool, now: Seq<char>) -> JsonView {
    JsonView::Object(
        map![
            "orchestrators"@ => JsonView::Array(orchs),
            "global_paused"@ => JsonView::Bool(paused),
            "clock"@ => JsonView::Text(now)
        ],
    )
}

/// The list of orchestrators.
pub open spec fn list_route_run(s: Script) -> (Script, Option<Result<JsonView, Seq<char>>>) {
    let (s, clock) = state::clock_run(s);
    match clock {
        None => (s, None),
        Some(clock) => {
            let now = text::or_else(clock, ""@);
            let (s, r) = state::list_orchestrators_run(s);
            match r {
                None => (s, None),
                Some(Err(e)) => (s, Some(Err(e))),
                Some(Ok(orchs)) => {
                    let (s, docs) = show_all_run(orchs, now, Seq::empty(), s);
                    match docs {
                        None => (s, None),
                        Some(docs) => {
                            let (s, paused) = state::global_paused_run(s);
                            (
                                s,
                                match paused {
                                    None => None,
                                    Some(paused) => Some(
                                        Ok(ok_json(list_doc(docs, paused, now))),
                                    ),
                                },
                            )
                        },
                    }
                },
            }
        },
    }
}

/// The list of orchestrators, with what the page shows of their liveness.
pub fn list_route(host: &mut Host) -> (r: Option<Result<Json, String>>)
    ensures
        final(host)@ == list_route_run(old(host)@).0,
        host::outcome(r) == list_route_run(old(host)@).1,
{
    let clock = state::clock(host)?;
    let now = text::str_or(records::opt_str(&clock), "");
    let orchs = match state::list_orchestrators(host)? {
        Err(e) => {
            return Some(Err(e));
        },
        Ok(orchs) => orchs,
    };
    let docs = show_all(&orchs, now, host)?;
    assert(json::items_view(docs@) =~= docs.deep_view());
    let paused = state::global_paused(host)?;
    let body = Fields::new().with("orchestrators", Json::Array(docs)).with(
        "global_paused",
        Json::Bool(paused),
    ).with("clock", Json::text(now)).done();
    Some(Ok(json_respond(200, body)))
}

/// The text of an id.
pub open spec fn id_text(now: Seq<char>, n: u64) -> Seq<char> {
    "orch-"@ + text::digits(now) + "-"@ + text::decimal(n as nat)
}

/// A new id.
pub open spec fn new_id_run(s: Script) -> (Script, Option<Seq<char>>) {
    let (s, n) = s.count(RequestView::NextId);
    match n {
        None => (s, None),
        Some(n) => {
            let (s, clock) = state::clock_run(s);
            (
                s,
                match clock {
                    None => None,
                    Some(clock) => Some(id_text(text::or_else(clock, ""@), n)),
                },
            )
        },
    }
}

/// Monotonic-enough id: the digits of the stored clock plus a counter.
pub fn new_id(host: &mut Host) -> (r: Option<String>)
    ensures
        final(host)@ == new_id_run(old(host)@).0,
        r.deep_view() == new_id_run(old(host)@).1,
{
    let n: u64 = host.next_id()?;
    let clock = state::clock(host)?;
    let now = text::str_or(records::opt_str(&clock), "");
    Some(
        "orch-".to_owned().concat(text::digits_of(now).as_str()).concat("-").concat(
            text::decimal_text(n).as_str(),
        ),
    )
}

/// Every answer that a new id and a look at the store take is one less.
pub proof fn trying_an_id_uses_answers(s: Script)
    requires
        new_id_run(s).1 is Some,
    ensures
        state::load_orchestrator_run(new_id_run(s).1->0, new_id_run(s).0).0.left.len()
            < s.left.len(),
{
}

/// Tries new ids until one is not taken.
pub open spec fn free_id_run(s: Script) -> (Script, Option<Result<Seq<char>, Seq<char>>>)
    decreases s.left.len(),
{
    let (t, id) = new_id_run(s);
    match id {
        None => (t, None),
        Some(id) => {
            let (t, r) = state::load_orchestrator_run(id, t);
            match r {
                None => (t, None),
                Some(Err(e)) => (t, Some(Err(e))),
                Some(Ok(None)) => (t, Some(Ok(id))),
                Some(Ok(Some(_))) => {
                    proof {
                        trying_an_id_uses_answers(s);
                    }
                    free_id_run(t)
                },
            }
        },
    }
}

/// An id that is not taken.
fn free_id(host: &mut Host) -> (r: Option<Result<String, String>>)
    ensures
        final(host)@ == free_id_run(old(host)@).0,
        host::outcome(r) == free_id_run(old(host)@).1,
{
    loop
        invariant
            free_id_run(old(host)@) == free_id_run(host@),
        decreases host@.left.len(),
    {
        let ghost before = host@;
        let id = new_id(host)?;
        proof {
            trying_an_id_uses_answers(before);
        }
        match state::load_orchestrator(id.as_str(), host)? {
            Err(e) => {
                return Some(Err(e));
            },
            Ok(None) => {
                return Some(Ok(id));
            },
            Ok(Some(_)) => {},
        }
    }
}

/// A new record before the page's fields are set.
pub open spec fn newborn(id: Seq<char>, now: Seq<char>) -> OrchestratorView {
    OrchestratorView { created_at: now, ..records::fresh(id, Seq::empty(), Seq::empty()) }
}

/// The record that the body makes, or the refusal.
pub open spec fn created(id: Seq<char>, now: Seq<char>, body: JsonView) -> Result<
    OrchestratorView,
    Seq<char>,
> {
    match edited(newborn(id, now), body) {
        (_, Err(e)) => Err(e),
        (o, Ok(_)) => if o.name.len() == 0 {
            Err("name is required"@)
        } else if o.folder_id.len() == 0 {
            Err("folder_id is required"@)
        } else {
            Ok(o.logged(now, "report"@, "orchestrator created"@))
        },
    }
}

/// The record that the body makes, or the refusal.
pub fn create(id: &str, now: &str, body: &Json) -> (r: Result<Orchestrator, String>)
    ensures
        json::result_view(r) == created(id@, now@, body@),
{
    let mut o = Orchestrator::new(id, "", "");
    o.created_at = now.to_owned();
    proof {
        reveal_strlit("");
        assert(""@ =~= Seq::<char>::empty());
    }
    assert(o@ =~= newborn(id@, now@));
    if let Err(e) = apply_fields(&mut o, body) {
        return Err(e);
    }
    if o.name.as_str().is_empty() {
        return Err("name is required".to_owned());
    }
    if o.folder_id.as_str().is_empty() {
        return Err("folder_id is required".to_owned());
    }
    o.push_log(now, "report", "orchestrator created".to_owned());
    Ok(o)
}

/// The body of a response that names a new record.
pub open spec fn created_doc(id: Seq<char>) -> JsonView {
    JsonView::Object(map!["ok"@ => JsonView::Bool(true), "id"@ => JsonView::Text(id)])
}

/// Creates a record, under the lease: the look at the store makes the id free
/// even where another instance created one in the same second.
pub open spec fn create_leased_run(now: Seq<char>, body: JsonView, s: Script) -> (
    Script,
    Option<Result<JsonView, Seq<char>>>,
) {
    let (s, r) = free_id_run(s);
    match r {
        None => (s, None),
        Some(Err(e)) => (s, Some(Err(e))),
        Some(Ok(id)) => match created(id, now, body) {
            Err(e) => (s, Some(Err(e))),
            Ok(o) => {
                let (s, saved) = state::save_orchestrator_run(o, s);
                (
                    s,
                    match saved {
                        None => None,
                        Some(Err(e)) => Some(Err(e)),
                        Some(Ok(_)) => Some(Ok(ok_json(created_doc(o.id)))),
                    },
                )
            },
        },
    }
}

/// Creates a record.
pub open spec fn create_route_run(body: JsonView, s: Script) -> (
    Script,
    Option<Result<JsonView, Seq<char>>>,
) {
    let (s, now) = orch_tools::now_run(s);
    match now {
        None => (s, None),
        Some(now) => {
            let (s, taken) = s.acquire();
            match taken {
                None => (s, None),
                Some(false) => (s, Some(Err(state::BUSY_MSG@))),
                Some(true) => state::released(create_leased_run(now, body, s)),
            }
        },
    }
}

/// Creates a record, under the lease.
fn create_leased(now: &str, body: &Json, host: &mut Host) -> (r: Option<Result<Json, String>>)
    ensures
        final(host)@ == create_leased_run(now@, body@, old(host)@).0,
        host::outcome(r) == create_leased_run(now@, body@, old(host)@).1,
{
    let id = match free_id(host)? {
        Err(e) => {
            return Some(Err(e));
        },
        Ok(id) => id,
    };
    let o = match create(id.as_str(), now, body) {
        Err(e) => {
            return Some(Err(e));
        },
        Ok(o) => o,
    };
    if let Err(e) = state::save_orchestrator(&o, host)? {
        return Some(Err(e));
    }
    Some(
        Ok(
            json_respond(
                200,
                Fields::new().with("ok", Json::Bool(true)).with(
                    "id",
                    Json::text(o.id.as_str()),
                ).done(),
            ),
        ),
    )
}

/// Creates a record.
pub fn create_route(body: &Json, host: &mut Host) -> (r: Option<Result<Json, String>>)
    ensures
        final(host)@ == create_route_run(body@, old(host)@).0,
        host::outcome(r) == create_route_run(body@, old(host)@).1,
{
    let now = orch_tools::now(host)?;
    if !host.acquire()? {
        return Some(Err(state::BUSY_MSG.to_owned()));
    }
    let r = create_leased(now.as_str(), body, host)?;
    host.release()?;
    Some(r)
}

/// Edits a record, under the lease. The standing prompt of a brain that exists
/// follows the edit; a refusal of that is passed over.
pub open spec fn update_leased_run(id: Seq<char>, body: JsonView, s: Script) -> (
    Script,
    Option<Result<JsonView, Seq<char>>>,
) {
    let (s, r) = state::load_orchestrator_run(id, s);
    match r {
        None => (s, None),
        Some(Err(e)) => (s, Some(Err(e))),
        Some(Ok(None)) => (s, Some(Err(engine::not_found(id)))),
        Some(Ok(Some(o))) => match edited(o, body) {
            (_, Err(e)) => (s, Some(Err(e))),
            (o, Ok(_)) => {
                let (s, saved) = state::save_orchestrator_run(o, s);
                match saved {
                    None => (s, None),
                    Some(Err(e)) => (s, Some(Err(e))),
                    Some(Ok(_)) => match o.session_id {
                        None => (s, Some(Ok(ok_json(engine::ok_doc())))),
                        Some(brain) => {
                            let (s, told) = s.call(
                                HostFn::OrchestrateSetPrompt,
                                orch_tools::set_prompt_request(brain, engine::standing(o)),
                            );
                            (
                                s,
                                match told {
                                    None => None,
                                    Some(_) => Some(Ok(ok_json(engine::ok_doc()))),
                                },
                            )
                        },
                    },
                }
            },
        },
    }
}

/// Edits a record.
pub open spec fn update_route_run(id: Seq<char>, body: JsonView, s: Script) -> (
    Script,
    Option<Result<JsonView, Seq<char>>>,
) {
    let (s, taken) = s.acquire();
    match taken {
        None => (s, None),
        Some(false) => (s, Some(Err(state::BUSY_MSG@))),
        Some(true) => state::released(update_leased_run(id, body, s)),
    }
}

/// Edits a record, under the lease.
fn update_leased(id: &str, body: &Json, host: &mut Host) -> (r: Option<Result<Json, String>>)
    ensures
        final(host)@ == update_leased_run(id@, body@, old(host)@).0,
        host::outcome(r) == update_leased_run(id@, body@, old(host)@).1,
{
    let mut o = match state::load_orchestrator(id, host)? {
        Err(e) => {
            return Some(Err(e));
        },
        Ok(None) => {
            return Some(Err(engine::not_found_text(id)));
        },
        Ok(Some(o)) => o,
    };
    if let Err(e) = apply_fields(&mut o, body) {
        return Some(Err(e));
    }
    if let Err(e) = state::save_orchestrator(&o, host)? {
        return Some(Err(e));
    }
    if let Some(brain) = &o.session_id {
        let input = orch_tools::set_prompt_json(brain.as_str(), engine::standing_prompt(&o));
        let _ = host.call(HostFn::OrchestrateSetPrompt, input)?;
    }
    Some(Ok(json_respond(200, engine::ok_doc_json())))
}

/// Edits a record.
pub fn update_route(id: &str, body: &Json, host: &mut Host) -> (r: Option<Result<Json, String>>)
    ensures
        final(host)@ == update_route_run(id@, body@, old(host)@).0,
        host::outcome(r) == update_route_run(id@, body@, old(host)@).1,
{
    if !host.acquire()? {
        return Some(Err(state::BUSY_MSG.to_owned()));
    }
    let r = update_leased(id, body, host)?;
    host.release()?;
    Some(r)
}

/// Deletes a record, under the lease.
pub open spec fn delete_leased_run(id: Seq<char>, s: Script) -> (
    Script,
    Option<Result<JsonView, Seq<char>>>,
) {
    let (s, r) = state::store_delete_run(state::ORCH_COLLECTION@, id, s);
    (
        s,
        match r {
            None => None,
            Some(Err(e)) => Some(Err(e)),
            Some(Ok(_)) => Some(Ok(ok_json(engine::ok_doc()))),
        },
    )
}

/// Deletes a record.
pub open spec fn delete_route_run(id: Seq<char>, s: Script) -> (
    Script,
    Option<Result<JsonView, Seq<char>>>,
) {
    let (s, taken) = s.acquire();
    match taken {
        None => (s, None),
        Some(false) => (s, Some(Err(state::BUSY_MSG@))),
        Some(true) => state::released(delete_leased_run(id, s)),
    }
}

/// Deletes a record.
pub fn delete_route(id: &str, host: &mut Host) -> (r: Option<Result<Json, String>>)
    ensures
        final(host)@ == delete_route_run(id@, old(host)@).0,
        host::outcome(r) == delete_route_run(id@, old(host)@).1,
{
    if !host.acquire()? {
        return Some(Err(state::BUSY_MSG.to_owned()));
    }
    let deleted = state::store_delete(state::ORCH_COLLECTION, id, host)?;
    host.release()?;
    match deleted {
        Err(e) => Some(Err(e)),
        Ok(_) => Some(Ok(json_respond(200, engine::ok_doc_json()))),
    }
}

/// The record paused or resumed: as the body says, else the other way round.
pub open spec fn toggled(o: OrchestratorView, body: JsonView) -> OrchestratorView {
    OrchestratorView { paused: switch_or(body.bool_at("paused"@), !o.paused), ..o }
}

/// The body of a response that tells of a pause.
pub open spec fn paused_doc(paused: bool) -> JsonView {
    JsonView::Object(map!["ok"@ => JsonView::Bool(true), "paused"@ => JsonView::Bool(paused)])
}

/// The body of a response that tells of a pause.
fn paused_json(paused: bool) -> (r: Json)
    ensures
        r@ == paused_doc(paused),
{
    Fields::new().with("ok", Json::Bool(true)).with("paused", Json::Bool(paused)).done()
}

/// Pauses or resumes a record, under the lease.
pub open spec fn pause_leased_run(id: Seq<char>, body: JsonView, s: Script) -> (
    Script,
    Option<Result<JsonView, Seq<char>>>,
) {
    let (s, r) = state::load_orchestrator_run(id, s);
    match r {
        None => (s, None),
        Some(Err(e)) => (s, Some(Err(e))),
        Some(Ok(None)) => (s, Some(Err(engine::not_found(id)))),
        Some(Ok(Some(o))) => {
            let o = toggled(o, body);
            let (s, saved) = state::save_orchestrator_run(o, s);
            (
                s,
                match saved {
                    None => None,
                    Some(Err(e)) => Some(Err(e)),
                    Some(Ok(_)) => Some(Ok(ok_json(paused_doc(o.paused)))),
                },
            )
        },
    }
}

/// Pauses or resumes a record.
pub open spec fn pause_route_run(id: Seq<char>, body: JsonView, s: Script) -> (
    Script,
    Option<Result<JsonView, Seq<char>>>,
) {
    let (s, taken) = s.acquire();
    match taken {
        None => (s, None),
        Some(false) => (s, Some(Err(state::BUSY_MSG@))),
        Some(true) => state::released(pause_leased_run(id, body, s)),
    }
}

/// Pauses or resumes a record, under the lease.
fn pause_leased(id: &str, body: &Json, host: &mut Host) -> (r: Option<Result<Json, String>>)
    ensures
        final(host)@ == pause_leased_run(id@, body@, old(host)@).0,
        host::outcome(r) == pause_leased_run(id@, body@, old(host)@).1,
{
    let mut o = match state::load_orchestrator(id, host)? {
        Err(e) => {
            return Some(Err(e));
        },
        Ok(None) => {
            return Some(Err(engine::not_found_text(id)));
        },
        Ok(Some(o)) => o,
    };
    o.paused = match body.bool_at("paused") {
        Some(paused) => paused,
        None => !o.paused,
    };
    if let Err(e) = state::save_orchestrator(&o, host)? {
        return Some(Err(e));
    }
    Some(Ok(json_respond(200, paused_json(o.paused))))
}

/// Pauses or resumes a record.
pub fn pause_route(id: &str, body: &Json, host: &mut Host) -> (r: Option<Result<Json, String>>)
    ensures
        final(host)@ == pause_route_run(id@, body@, old(host)@).0,
        host::outcome(r) == pause_route_run(id@, body@, old(host)@).1,
{
    if !host.acquire()? {
        return Some(Err(state::BUSY_MSG.to_owned()));
    }
    let r = pause_leased(id, body, host)?;
    host.release()?;
    Some(r)
}

/// Sets the kill switch; a body that does not say how pauses everything.
pub open spec fn pause_all_run(body: JsonView, s: Script) -> (
    Script,
    Option<Result<JsonView, Seq<char>>>,
) {
    let paused = switch_or(body.bool_at("paused"@), true);
    let (s, set) = state::set_global_paused_run(paused, s);
    (
        s,
        match set {
            None => None,
            Some(_) => Some(Ok(ok_json(paused_doc(paused)))),
        },
    )
}

/// Sets the kill switch.
pub fn pause_all(body: &Json, host: &mut Host) -> (r: Option<Result<Json, String>>)
    ensures
        final(host)@ == pause_all_run(body@, old(host)@).0,
        host::outcome(r) == pause_all_run(body@, old(host)@).1,
{
    let paused = match body.bool_at("paused") {
        Some(paused) => paused,
        None => true,
    };
    state::set_global_paused(paused, host)?;
    Some(Ok(json_respond(200, paused_json(paused))))
}

/// The field of an answer; an empty list where there is no answer or no field.
pub open spec fn picked(r: Result<JsonView, Seq<char>>, key: Seq<char>) -> JsonView {
    match r {
        Ok(v) => match v.get(key) {
            Some(items) => items,
            None => JsonView::Array(Seq::empty()),
        },
        Err(_) => JsonView::Array(Seq::empty()),
    }
}

/// The field of an answer; an empty list where there is no answer or no field.
fn pick(r: Result<Json, String>, key: &str) -> (v: Json)
    ensures
        v@ == picked(json::result_view(r), key@),
{
    if let Ok(v) = r {
        if let Some(items) = v.get(key) {
            return items.clone();
        }
    }
    let none: Vec<Json> = Vec::new();
    assert(json::items_view(none@) =~= Seq::empty());
    Json::Array(none)
}

/// The data of the dropdowns.
pub open spec fn pickers_doc(
    sessions: Result<JsonView, Seq<char>>,
    folders: Result<JsonView, Seq<char>>,
    models: Result<JsonView, Seq<char>>,
) -> JsonView {
    JsonView::Object(
        map![
            "sessions"@ => picked(sessions, "sessions"@),
            "folders"@ => picked(folders, "folders"@),
            "models"@ => picked(models, "models"@)
        ],
    )
}

/// Collects the data of the dropdowns.
pub open spec fn pickers_route_run(s: Script) -> (Script, Option<Result<JsonView, Seq<char>>>) {
    let (s, sessions) = s.call(HostFn::ListSessions, authorize::query(""@));
    if sessions is None {
        (s, None)
    } else {
        let (s, folders) = s.call(HostFn::ListFolders, JsonView::Object(Map::empty()));
        if folders is None {
            (s, None)
        } else {
            let (s, models) = s.call(HostFn::ListModels, JsonView::Object(Map::empty()));
            (
                s,
                match models {
                    None => None,
                    Some(models) => Some(
                        Ok(ok_json(pickers_doc(sessions->0, folders->0, models))),
                    ),
                },
            )
        }
    }
}

/// Dropdown data: sessions of every folder, folders, models. A failure leaves
/// its list empty, so that one missing grant never blanks the page.
pub fn pickers_route(host: &mut Host) -> (r: Option<Result<Json, String>>)
    ensures
        final(host)@ == pickers_route_run(old(host)@).0,
        host::outcome(r) == pickers_route_run(old(host)@).1,
{
    let sessions = host.call(HostFn::ListSessions, authorize::query_json(""))?;
    let folders = host.call(HostFn::ListFolders, Fields::new().done())?;
    let models = host.call(HostFn::ListModels, Fields::new().done())?;
    let body = Fields::new().with("sessions", pick(sessions, "sessions")).with(
        "folders",
        pick(folders, "folders"),
    ).with("models", pick(models, "models")).done();
    Some(Ok(json_respond(200, body)))
}

// ── Routing ───────────────────────────────────────────────────────────

/// The result of a route as a response that went well.
pub open spec fn wrapped(run: (Script, Option<Result<JsonView, Seq<char>>>)) -> (
    Script,
    Option<Result<JsonView, Seq<char>>>,
) {
    (
        run.0,
        match run.1 {
            None => None,
            Some(Err(e)) => Some(Err(e)),
            Some(Ok(v)) => Some(Ok(ok_json(v))),
        },
    )
}

/// The result of a route as a response that went well.
fn wrap(r: Option<Result<Json, String>>) -> (w: Option<Result<Json, String>>)
    ensures
        host::outcome(w) == (match host::outcome(r) {
            None => None,
            Some(Err(e)) => Some(Err(e)),
            Some(Ok(v)) => Some(Ok(ok_json(v))),
        }),
{
    match r? {
        Err(e) => Some(Err(e)),
        Ok(v) => Some(Ok(json_respond(200, v))),
    }
}

/// Changes one orchestrator: what the last part of the path says.
pub open spec fn one_route_run(id: Seq<char>, verb: Seq<char>, body: JsonView, s: Script) -> (
    Script,
    Option<Result<JsonView, Seq<char>>>,
) {
    if verb == "delete"@ {
        delete_route_run(id, s)
    } else if verb == "run"@ {
        wrapped(engine::run_now_run(id, s))
    } else if verb == "dry-run"@ {
        wrapped(engine::dry_run_run(id, s))
    } else if verb == "pause"@ {
        pause_route_run(id, body, s)
    } else {
        (s, Some(Ok(err_json(404, "no such route"@))))
    }
}

/// Runs the route that method and path name.
pub open spec fn route_run(
    method: Seq<char>,
    segs: Seq<Seq<char>>,
    body: JsonView,
    s: Script,
) -> (Script, Option<Result<JsonView, Seq<char>>>) {
    if method == "GET"@ && segs == seq!["orchestrators"@] {
        list_route_run(s)
    } else if method == "GET"@ && segs == seq!["pickers"@] {
        pickers_route_run(s)
    } else if method == "POST"@ && segs == seq!["orchestrators"@] {
        create_route_run(body, s)
    } else if method == "POST"@ && segs == seq!["pause-all"@] {
        pause_all_run(body, s)
    } else if method == "POST"@ && segs.len() == 2 && segs[0] == "orchestrators"@ {
        update_route_run(segs[1], body, s)
    } else if method == "POST"@ && segs.len() == 3 && segs[0] == "orchestrators"@ {
        one_route_run(segs[1], segs[2], body, s)
    } else {
        (s, Some(Ok(err_json(404, "no such route"@))))
    }
}

/// The parts of a path behind the prefix of the routes.
pub open spec fn route_segments(path: Seq<char>) -> Seq<Seq<char>> {
    if text::begins(path, API_PREFIX@) {
        text::segments(path.skip(API_PREFIX@.len() as int))
    } else {
        Seq::empty()
    }
}

/// Runs the route that method and path name; what goes wrong in it becomes a
/// response too.
pub open spec fn serve_route_run(
    method: Seq<char>,
    path: Seq<char>,
    body: JsonView,
    s: Script,
) -> (Script, Option<Result<JsonView, Seq<char>>>) {
    let (s, r) = route_run(method, route_segments(path), body, s);
    (
        s,
        match r {
            None => None,
            Some(Ok(v)) => Some(Ok(v)),
            Some(Err(e)) => Some(Ok(err_json(400, e))),
        },
    )
}

/// The body of a request: the document that its text is, or null.
pub open spec fn request_body(payload: JsonView) -> JsonView {
    match payload.text_at("body"@) {
        Some(text) => match json::json_parse(text) {
            Ok(v) => v,
            Err(_) => JsonView::Null,
        },
        None => JsonView::Null,
    }
}

/// Serves an authenticated request.
pub open spec fn serve_authed_run(payload: JsonView, s: Script) -> (
    Script,
    Option<Result<JsonView, Seq<char>>>,
) {
    serve_route_run(
        text::uppercase(text::or_else(payload.text_at("method"@), "GET"@)),
        text::or_else(payload.text_at("path"@), ""@),
        request_body(payload),
        s,
    )
}

/// Whether the path has the one part.
fn is_one(segs: &Vec<String>, part: &str) -> (r: bool)
    ensures
        r == (segs.deep_view() == seq![part@]),
{
    if segs.len() == 1 && same(segs[0].as_str(), part) {
        assert(segs.deep_view() =~= seq![part@]);
        true
    } else {
        proof {
            let one = seq![part@];
            assert(one.len() == 1 && one[0] == part@);
            if segs.deep_view() == one {
                assert(segs.deep_view()[0] == segs@[0]@);
            }
        }
        false
    }
}

/// Changes one orchestrator: what the last part of the path says.
fn one_route(id: &str, verb: &str, body: &Json, host: &mut Host) -> (r: Option<
    Result<Json, String>,
>)
    ensures
        final(host)@ == one_route_run(id@, verb@, body@, old(host)@).0,
        host::outcome(r) == one_route_run(id@, verb@, body@, old(host)@).1,
{
    if same(verb, "delete") {
        delete_route(id, host)
    } else if same(verb, "run") {
        wrap(engine::run_now(id, host))
    } else if same(verb, "dry-run") {
        wrap(engine::dry_run(id, host))
    } else if same(verb, "pause") {
        pause_route(id, body, host)
    } else {
        Some(Ok(err_respond(404, "no such route")))
    }
}

/// Runs the route that method and path name.
fn route(method: &str, segs: &Vec<String>, body: &Json, host: &mut Host) -> (r: Option<
    Result<Json, String>,
>)
    ensures
        final(host)@ == route_run(method@, segs.deep_view(), body@, old(host)@).0,
        host::outcome(r) == route_run(method@, segs.deep_view(), body@, old(host)@).1,
{
    let get = same(method, "GET");
    let post = same(method, "POST");
    if get && is_one(segs, "orchestrators") {
        list_route(host)
    } else if get && is_one(segs, "pickers") {
        pickers_route(host)
    } else if post && is_one(segs, "orchestrators") {
        create_route(body, host)
    } else if post && is_one(segs, "pause-all") {
        pause_all(body, host)
    } else if post && segs.len() == 2 && same(segs[0].as_str(), "orchestrators") {
        update_route(segs[1].as_str(), body, host)
    } else if post && segs.len() == 3 && same(segs[0].as_str(), "orchestrators") {
        one_route(segs[1].as_str(), segs[2].as_str(), body, host)
    } else {
        Some(Ok(err_respond(404, "no such route")))
    }
}

/// Runs the route that method and path name; what goes wrong in it becomes a
/// response with status 400, not a broken dispatch.
pub fn serve_route(method: &str, path: &str, body: &Json, host: &mut Host) -> (r: Option<
    Result<Json, String>,
>)
    ensures
        final(host)@ == serve_route_run(method@, path@, body@, old(host)@).0,
        host::outcome(r) == serve_route_run(method@, path@, body@, old(host)@).1,
{
    let segs = match text::after_prefix(path, API_PREFIX) {
        Some(rest) => text::path_segments(rest.as_str()),
        None => Vec::new(),
    };
    assert(segs.deep_view() =~= route_segments(path@));
    match route(method, &segs, body, host)? {
        Ok(v) => Some(Ok(v)),
        Err(e) => Some(Ok(err_respond(400, e.as_str()))),
    }
}

/// The body of a request.
fn body_of(payload: &Json) -> (r: Json)
    ensures
        r@ == request_body(payload@),
{
    match payload.text_at("body") {
        Some(text) => match json::parse_json(text) {
            Ok(v) => v,
            Err(_) => Json::Null,
        },
        None => Json::Null,
    }
}

/// Serves an authenticated request.
pub fn serve_authed(payload: &Json, host: &mut Host) -> (r: Option<Result<Json, String>>)
    ensures
        final(host)@ == serve_authed_run(payload@, old(host)@).0,
        host::outcome(r) == serve_authed_run(payload@, old(host)@).1,
{
    let method = text::str_or(payload.text_at("method"), "GET").to_uppercase();
    let path = text::str_or(payload.text_at("path"), "");
    let body = body_of(payload);
    serve_route(method.as_str(), path, &body, host)
}

} // verus!

//! What the stored form of a record keeps: every field stands under its name,
//! and nothing of the record is lost.

use vstd::prelude::*;

use crate::host::{HostFn, ReplyView, RequestView, Script};
use crate::json::{self, JsonView};
use crate::record_laws;
use crate::records::{
    self, ActivityEventView, Caps, EtaView, GoalStatusView, HatView, OrchestratorView, PendingView,
    Schedule, StandardsView, StatsView, WatchView,
};
use crate::state;

verus! {

/// Texts are told by their document.
proof fn same_texts(a: Seq<Seq<char>>, b: Seq<Seq<char>>)
    requires
        json::texts_view(a) == json::texts_view(b),
    ensures
        a == b,
{
    let (x, y) = (json::texts_view(a)->Array_0, json::texts_view(b)->Array_0);
    assert(x.len() == y.len());
    assert forall|i: int| 0 <= i < a.len() implies a[i] == b[i] by {
        assert(x[i] == y[i]);
    }
}

/// An estimate: each field stands in the document under its name.
proof fn estimate_fields(v: EtaView)
    ensures
        v.to_json().get("minutes_remaining"@) == Some(json::uint_view(v.minutes_remaining)),
        v.to_json().get("projected_at"@) == Some(JsonView::Text(v.projected_at)),
        v.to_json().get("updated_at"@) == Some(JsonView::Text(v.updated_at)),
{
    reveal_strlit("minutes_remaining");
    reveal_strlit("projected_at");
    reveal_strlit("updated_at");
    assert("minutes_remaining"@.len() == 17);
    assert("projected_at"@.len() == 12);
    assert("updated_at"@.len() == 10);
}

/// An estimate is told by its document.
proof fn same_estimate(a: EtaView, b: EtaView)
    requires
        a.to_json() == b.to_json(),
    ensures
        a == b,
{
    estimate_fields(a);
    estimate_fields(b);
}

/// The status of a goal: each field stands in the document under its name.
proof fn goal_status_fields(v: GoalStatusView)
    ensures
        v.to_json().get("state"@) == Some(JsonView::Text(v.state)),
        v.to_json().get("note"@) == Some(JsonView::Text(v.note)),
        v.to_json().get("percent"@) == Some(records::percent_view(v.percent)),
        v.to_json().get("updated_at"@) == Some(JsonView::Text(v.updated_at)),
        v.to_json().get("eta"@) == Some(
            match v.eta {
                Some(e) => e.to_json(),
                None => JsonView::Null,
            },
        ),
{
    reveal_strlit("state");
    reveal_strlit("note");
    reveal_strlit("percent");
    reveal_strlit("updated_at");
    reveal_strlit("eta");
    assert("state"@.len() == 5);
    assert("note"@.len() == 4);
    assert("percent"@.len() == 7);
    assert("updated_at"@.len() == 10);
    assert("eta"@.len() == 3);
}

/// The status of a goal is told by its document.
proof fn same_goal_status(a: GoalStatusView, b: GoalStatusView)
    requires
        a.to_json() == b.to_json(),
    ensures
        a == b,
{
    goal_status_fields(a);
    goal_status_fields(b);
    if a.eta is Some && b.eta is Some {
        same_estimate(a.eta->0, b.eta->0);
    }
}

/// An entry of the feed: each field stands in the document under its name.
proof fn event_fields(v: ActivityEventView)
    ensures
        v.to_json().get("ts"@) == Some(JsonView::Text(v.ts)),
        v.to_json().get("kind"@) == Some(JsonView::Text(v.kind)),
        v.to_json().get("detail"@) == Some(JsonView::Text(v.detail)),
{
    reveal_strlit("ts");
    reveal_strlit("kind");
    reveal_strlit("detail");
    assert("ts"@.len() == 2);
    assert("kind"@.len() == 4);
    assert("detail"@.len() == 6);
}

/// An entry of the feed is told by its document.
proof fn same_event(a: ActivityEventView, b: ActivityEventView)
    requires
        a.to_json() == b.to_json(),
    ensures
        a == b,
{
    event_fields(a);
    event_fields(b);
}

/// A waiting trigger: each field stands in the document under its name.
proof fn pending_fields(v: PendingView)
    ensures
        v.to_json().get("ts"@) == Some(JsonView::Text(v.ts)),
        v.to_json().get("kind"@) == Some(JsonView::Text(v.kind)),
        v.to_json().get("session_id"@) == Some(json::opt_text_view(v.session_id)),
        v.to_json().get("session_name"@) == Some(json::opt_text_view(v.session_name)),
        v.to_json().get("outcome"@) == Some(json::opt_text_view(v.outcome)),
{
    reveal_strlit("ts");
    reveal_strlit("kind");
    reveal_strlit("session_id");
    reveal_strlit("session_name");
    reveal_strlit("outcome");
    assert("ts"@.len() == 2);
    assert("kind"@.len() == 4);
    assert("session_id"@.len() == 10);
    assert("session_name"@.len() == 12);
    assert("outcome"@.len() == 7);
}

/// A waiting trigger is told by its document.
proof fn same_pending(a: PendingView, b: PendingView)
    requires
        a.to_json() == b.to_json(),
    ensures
        a == b,
{
    pending_fields(a);
    pending_fields(b);
}

/// What an orchestrator has done: each field stands in the document under its name.
proof fn stats_fields(v: StatsView)
    ensures
        v.to_json().get("actions"@) == Some(json::uint_view(v.actions)),
        v.to_json().get("fires"@) == Some(json::uint_view(v.fires)),
        v.to_json().get("last_fired_at"@) == Some(json::opt_text_view(v.last_fired_at)),
        v.to_json().get("next_due_at"@) == Some(json::opt_text_view(v.next_due_at)),
        v.to_json().get("sessions_created"@) == Some(json::uint_view(v.sessions_created as u64)),
        v.to_json().get("fire_times"@) == Some(json::texts_view(v.fire_times)),
{
    reveal_strlit("actions");
    reveal_strlit("fires");
    reveal_strlit("last_fired_at");
    reveal_strlit("next_due_at");
    reveal_strlit("sessions_created");
    reveal_strlit("fire_times");
    assert("actions"@.len() == 7);
    assert("fires"@.len() == 5);
    assert("last_fired_at"@.len() == 13);
    assert("next_due_at"@.len() == 11);
    assert("sessions_created"@.len() == 16);
    assert("fire_times"@.len() == 10);
}

/// What an orchestrator has done is told by its document.
proof fn same_stats(a: StatsView, b: StatsView)
    requires
        a.to_json() == b.to_json(),
    ensures
        a == b,
{
    stats_fields(a);
    stats_fields(b);
    same_texts(a.fire_times, b.fire_times);
}

/// A hat: each field stands in the document under its name.
proof fn hat_fields(v: HatView)
    ensures
        v.to_json().get("hat"@) == Some(JsonView::Text(v.hat)),
        v.to_json().get("responsibilities"@) == Some(JsonView::Text(v.responsibilities)),
        v.to_json().get("assigned_at"@) == Some(JsonView::Text(v.assigned_at)),
{
    reveal_strlit("hat");
    reveal_strlit("responsibilities");
    reveal_strlit("assigned_at");
    assert("hat"@.len() == 3);
    assert("responsibilities"@.len() == 16);
    assert("assigned_at"@.len() == 11);
}

/// A hat is told by its document.
proof fn same_hat(a: HatView, b: HatView)
    requires
        a.to_json() == b.to_json(),
    ensures
        a == b,
{
    hat_fields(a);
    hat_fields(b);
}

/// The feed is told by its document.
proof fn same_log(a: Seq<ActivityEventView>, b: Seq<ActivityEventView>)
    requires
        records::log_view(a) == records::log_view(b),
    ensures
        a == b,
{
    let (x, y) = (records::log_view(a)->Array_0, records::log_view(b)->Array_0);
    assert(x.len() == y.len());
    assert forall|i: int| 0 <= i < a.len() implies a[i] == b[i] by {
        assert(x[i] == y[i]);
        same_event(a[i], b[i]);
    }
}

/// The queue is told by its document.
proof fn same_queue(a: Seq<PendingView>, b: Seq<PendingView>)
    requires
        records::pending_view(a) == records::pending_view(b),
    ensures
        a == b,
{
    let (x, y) = (records::pending_view(a)->Array_0, records::pending_view(b)->Array_0);
    assert(x.len() == y.len());
    assert forall|i: int| 0 <= i < a.len() implies a[i] == b[i] by {
        assert(x[i] == y[i]);
        same_pending(a[i], b[i]);
    }
}

/// The hats are told by their document.
proof fn same_hats(a: Map<Seq<char>, HatView>, b: Map<Seq<char>, HatView>)
    requires
        records::hats_json(a) == records::hats_json(b),
    ensures
        a == b,
{
    let (x, y) = (records::hats_json(a)->Object_0, records::hats_json(b)->Object_0);
    assert(x.dom() =~= a.dom());
    assert(y.dom() =~= b.dom());
    assert forall|id: Seq<char>| a.dom().contains(id) implies a[id] == b[id] by {
        assert(x[id] == y[id]);
        same_hat(a[id], b[id]);
    }
    assert(a =~= b);
}

/// The stored document of the standards.
spec fn standards_doc(v: StandardsView) -> JsonView {
    JsonView::Object(
        map![
            "dev"@ => JsonView::Bool(v.dev),
            "testing"@ => JsonView::Bool(v.testing),
            "ux"@ => JsonView::Bool(v.ux),
            "custom"@ => JsonView::Text(v.custom)
        ],
    )
}

/// The stored document of the schedule.
spec fn schedule_doc(v: Schedule) -> JsonView {
    JsonView::Object(
        map![
            "every_minutes"@ => match v.every_minutes {
                Some(m) => json::uint_view(m),
                None => JsonView::Null,
            }
        ],
    )
}

/// The stored document of the watch lists.
spec fn watch_doc(v: WatchView) -> JsonView {
    JsonView::Object(
        map![
            "sessions"@ => json::texts_view(v.sessions),
            "folders"@ => json::texts_view(v.folders),
            "auto_watch_created"@ => JsonView::Bool(v.auto_watch_created)
        ],
    )
}

/// The stored document of the caps.
spec fn caps_doc(v: Caps) -> JsonView {
    JsonView::Object(
        map![
            "max_fires_per_hour"@ => json::uint_view(v.max_fires_per_hour as u64),
            "max_sessions_created"@ => json::uint_view(v.max_sessions_created as u64)
        ],
    )
}

/// The standards: each field stands in the document under its name.
proof fn standards_fields(v: StandardsView)
    ensures
        standards_doc(v).get("dev"@) == Some(JsonView::Bool(v.dev)),
        standards_doc(v).get("testing"@) == Some(JsonView::Bool(v.testing)),
        standards_doc(v).get("ux"@) == Some(JsonView::Bool(v.ux)),
        standards_doc(v).get("custom"@) == Some(JsonView::Text(v.custom)),
{
    reveal_strlit("dev");
    reveal_strlit("testing");
    reveal_strlit("ux");
    reveal_strlit("custom");
    assert("dev"@.len() == 3);
    assert("testing"@.len() == 7);
    assert("ux"@.len() == 2);
    assert("custom"@.len() == 6);
}

/// The watch lists: each field stands in the document under its name.
proof fn watch_fields(v: WatchView)
    ensures
        watch_doc(v).get("sessions"@) == Some(json::texts_view(v.sessions)),
        watch_doc(v).get("folders"@) == Some(json::texts_view(v.folders)),
        watch_doc(v).get("auto_watch_created"@) == Some(JsonView::Bool(v.auto_watch_created)),
{
    reveal_strlit("sessions");
    reveal_strlit("folders");
    reveal_strlit("auto_watch_created");
    assert("sessions"@.len() == 8);
    assert("folders"@.len() == 7);
    assert("auto_watch_created"@.len() == 18);
}

/// The caps: each field stands in the document under its name.
proof fn caps_fields(v: Caps)
    ensures
        caps_doc(v).get("max_fires_per_hour"@) == Some(
            json::uint_view(v.max_fires_per_hour as u64),
        ),
        caps_doc(v).get("max_sessions_created"@) == Some(
            json::uint_view(v.max_sessions_created as u64),
        ),
{
    reveal_strlit("max_fires_per_hour");
    reveal_strlit("max_sessions_created");
    assert("max_fires_per_hour"@.len() == 18);
    assert("max_sessions_created"@.len() == 20);
}

/// The schedule: each field stands in the document under its name.
proof fn schedule_fields(v: Schedule)
    ensures
        schedule_doc(v).get("every_minutes"@) == Some(
            match v.every_minutes {
                Some(m) => json::uint_view(m),
                None => JsonView::Null,
            },
        ),
{
    reveal_strlit("every_minutes");
}

/// A record: each field stands in the document under its name.
proof fn record_fields(v: OrchestratorView)
    ensures
        v.to_json().get("id"@) == Some(JsonView::Text(v.id)),
        v.to_json().get("name"@) == Some(JsonView::Text(v.name)),
        v.to_json().get("enabled"@) == Some(JsonView::Bool(v.enabled)),
        v.to_json().get("paused"@) == Some(JsonView::Bool(v.paused)),
        v.to_json().get("goal"@) == Some(JsonView::Text(v.goal)),
        v.to_json().get("goal_status"@) == Some(v.goal_status.to_json()),
        v.to_json().get("eta_history"@) == Some(JsonView::Array(v.eta_history)),
        v.to_json().get("standards"@) == Some(standards_doc(v.standards)),
        v.to_json().get("prompt"@) == Some(JsonView::Text(v.prompt)),
        v.to_json().get("folder_id"@) == Some(JsonView::Text(v.folder_id)),
        v.to_json().get("model"@) == Some(json::opt_text_view(v.model)),
        v.to_json().get("session_id"@) == Some(json::opt_text_view(v.session_id)),
        v.to_json().get("schedule"@) == Some(schedule_doc(v.schedule)),
        v.to_json().get("watchdog_minutes"@) == Some(json::uint_view(v.watchdog_minutes)),
        v.to_json().get("watch"@) == Some(watch_doc(v.watch)),
        v.to_json().get("cooldown_secs"@) == Some(json::uint_view(v.cooldown_secs)),
        v.to_json().get("caps"@) == Some(caps_doc(v.caps)),
        v.to_json().get("consecutive_failures"@) == Some(
            json::uint_view(v.consecutive_failures as u64),
        ),
        v.to_json().get("pending_triggers"@) == Some(records::pending_view(v.pending_triggers)),
        v.to_json().get("stats"@) == Some(v.stats.to_json()),
        v.to_json().get("hats"@) == Some(records::hats_json(v.hats)),
        v.to_json().get("created_sessions"@) == Some(json::texts_view(v.created_sessions)),
        v.to_json().get("log"@) == Some(records::log_view(v.log)),
        v.to_json().get("last_rendered_prompt"@) == Some(JsonView::Text(v.last_rendered_prompt)),
        v.to_json().get("error"@) == Some(json::opt_text_view(v.error)),
        v.to_json().get("created_at"@) == Some(JsonView::Text(v.created_at)),
{
    reveal_strlit("id");
    reveal_strlit("name");
    reveal_strlit("enabled");
    reveal_strlit("paused");
    reveal_strlit("goal");
    reveal_strlit("goal_status");
    reveal_strlit("eta_history");
    reveal_strlit("standards");
    reveal_strlit("prompt");
    reveal_strlit("folder_id");
    reveal_strlit("model");
    reveal_strlit("session_id");
    reveal_strlit("schedule");
    reveal_strlit("watchdog_minutes");
    reveal_strlit("watch");
    reveal_strlit("cooldown_secs");
    reveal_strlit("caps");
    reveal_strlit("consecutive_failures");
    reveal_strlit("pending_triggers");
    reveal_strlit("stats");
    reveal_strlit("hats");
    reveal_strlit("created_sessions");
    reveal_strlit("log");
    reveal_strlit("last_rendered_prompt");
    reveal_strlit("error");
    reveal_strlit("created_at");
    assert("id"@.len() == 2);
    assert("name"@.len() == 4);
    assert("enabled"@.len() == 7);
    assert("paused"@.len() == 6);
    assert("goal"@.len() == 4);
    assert("goal_status"@.len() == 11);
    assert("eta_history"@.len() == 11);
    assert("standards"@.len() == 9);
    assert("prompt"@.len() == 6);
    assert("folder_id"@.len() == 9);
    assert("model"@.len() == 5);
    assert("session_id"@.len() == 10);
    assert("schedule"@.len() == 8);
    assert("watchdog_minutes"@.len() == 16);
    assert("watch"@.len() == 5);
    assert("cooldown_secs"@.len() == 13);
    assert("caps"@.len() == 4);
    assert("consecutive_failures"@.len() == 20);
    assert("pending_triggers"@.len() == 16);
    assert("stats"@.len() == 5);
    assert("hats"@.len() == 4);
    assert("created_sessions"@.len() == 16);
    assert("log"@.len() == 3);
    assert("last_rendered_prompt"@.len() == 20);
    assert("error"@.len() == 5);
    assert("created_at"@.len() == 10);
    assert("name"@[0] == 'n');
    assert("goal"@[0] == 'g');
    assert("caps"@[0] == 'c');
    assert("hats"@[0] == 'h');
    assert("model"@[0] == 'm');
    assert("watch"@[0] == 'w');
    assert("stats"@[0] == 's');
    assert("error"@[0] == 'e');
    assert("paused"@[1] == 'a');
    assert("prompt"@[1] == 'r');
    assert("standards"@[0] == 's');
    assert("folder_id"@[0] == 'f');
    assert("session_id"@[0] == 's');
    assert("created_at"@[0] == 'c');
    assert("goal_status"@[0] == 'g');
    assert("eta_history"@[0] == 'e');
    assert("watchdog_minutes"@[0] == 'w');
    assert("pending_triggers"@[0] == 'p');
    assert("created_sessions"@[0] == 'c');
    assert("consecutive_failures"@[0] == 'c');
    assert("last_rendered_prompt"@[0] == 'l');
}

/// Nothing of a record is lost in its stored form: two records that are stored
/// as the same document are the same record.
pub proof fn stored_form_is_whole(a: OrchestratorView, b: OrchestratorView)
    requires
        a.to_json() == b.to_json(),
    ensures
        a == b,
{
    record_fields(a);
    record_fields(b);
    same_goal_status(a.goal_status, b.goal_status);
    standards_fields(a.standards);
    standards_fields(b.standards);
    schedule_fields(a.schedule);
    schedule_fields(b.schedule);
    watch_fields(a.watch);
    watch_fields(b.watch);
    same_texts(a.watch.sessions, b.watch.sessions);
    same_texts(a.watch.folders, b.watch.folders);
    caps_fields(a.caps);
    caps_fields(b.caps);
    same_queue(a.pending_triggers, b.pending_triggers);
    same_stats(a.stats, b.stats);
    same_hats(a.hats, b.hats);
    same_texts(a.created_sessions, b.created_sessions);
    same_log(a.log, b.log);
}

/// What is saved is what is loaded. The record is written under its id as a
/// document; the load of the id asks for that document and has it read as a
/// record, and where the record that comes back is one that is stored as this
/// document, it is the record that was saved.
pub proof fn saved_record_is_loaded(
    o: OrchestratorView,
    read: OrchestratorView,
    before: Script,
    after: Script,
)
    requires
        after.left.len() >= 2,
        after.left[0] == ReplyView::Host(Ok(record_laws::held(o.to_json()))),
        after.left[1] == ReplyView::Record(Some(read)),
        read.to_json() == o.to_json(),
    ensures
        state::save_orchestrator_run(o, before).0.asked == before.asked.push(
            RequestView::Call(
                HostFn::StorePut,
                state::placed(state::ORCH_COLLECTION@, o.id, o.to_json()),
            ),
        ),
        state::load_orchestrator_run(o.id, after).0.asked == after.asked.push(
            RequestView::Call(HostFn::StoreGet, state::place(state::ORCH_COLLECTION@, o.id)),
        ).push(RequestView::Decode(o.to_json())),
        state::load_orchestrator_run(o.id, after).1 == Some(
            Ok::<Option<OrchestratorView>, Seq<char>>(Some(o)),
        ),
{
    stored_form_is_whole(read, o);
}

} // verus!

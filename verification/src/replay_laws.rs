//! Running again with more answers: what was asked before is asked again, in
//! the same order, and what was finished stays as it was. So a driver that adds
//! the answer to the open request and starts anew carries each request out once.

use vstd::prelude::*;

use crate::authorize;
use crate::control;
use crate::engine::{self, TriggerView};
use crate::hooks;
use crate::host::{HostFn, ReplyView, RequestView, Script};
use crate::json::JsonView;
use crate::orch_tools::{self, ReportView};
use crate::page;
use crate::records::OrchestratorView;
use crate::state;

verus! {

/// The script with more answers to come.
pub open spec fn later(s: Script, more: Seq<ReplyView>) -> Script {
    Script { left: s.left + more, ..s }
}

/// The requests of `t` begin with those of `s`.
pub open spec fn extends(s: Script, t: Script) -> bool {
    &&& s.asked.len() <= t.asked.len()
    &&& forall|i: int| 0 <= i < s.asked.len() ==> #[trigger] t.asked[i] == s.asked[i]
}

/// `again` is what becomes of `run` with more answers: what was finished stays
/// as it was, and what was not goes on from the requests it had made.
pub open spec fn goes_on<T>(
    more: Seq<ReplyView>,
    run: (Script, Option<T>),
    again: (Script, Option<T>),
) -> bool {
    if run.1 is Some {
        again == (later(run.0, more), run.1)
    } else {
        extends(run.0, again.0)
    }
}

broadcast proof fn ask_goes_on(s: Script, q: RequestView)
    ensures
        extends(s, #[trigger] s.ask(q).0),
        forall|more: Seq<ReplyView>| goes_on(more, s.ask(q), #[trigger] later(s, more).ask(q)),
{
    assert forall|more: Seq<ReplyView>| goes_on(
        more,
        s.ask(q),
        #[trigger] later(s, more).ask(q),
    ) by {
        if s.left.len() > 0 {
            assert((s.left + more).skip(1) =~= s.left.skip(1) + more);
        }
    }
}

// ── The store ───────────────────────────────────────────────────────

broadcast proof fn store_put_goes_on(
    collection: Seq<char>,
    key: Seq<char>,
    data: JsonView,
    s: Script,
)
    ensures
        extends(s, #[trigger] state::store_put_run(collection, key, data, s).0),
        forall|more: Seq<ReplyView>| goes_on(
            more,
            state::store_put_run(collection, key, data, s),
            #[trigger] state::store_put_run(collection, key, data, later(s, more)),
        ),
{
    broadcast use {ask_goes_on};

}

broadcast proof fn store_get_goes_on(collection: Seq<char>, key: Seq<char>, s: Script)
    ensures
        extends(s, #[trigger] state::store_get_run(collection, key, s).0),
        forall|more: Seq<ReplyView>| goes_on(
            more,
            state::store_get_run(collection, key, s),
            #[trigger] state::store_get_run(collection, key, later(s, more)),
        ),
{
    broadcast use {ask_goes_on};

}

broadcast proof fn store_list_goes_on(collection: Seq<char>, s: Script)
    ensures
        extends(s, #[trigger] state::store_list_run(collection, s).0),
        forall|more: Seq<ReplyView>| goes_on(
            more,
            state::store_list_run(collection, s),
            #[trigger] state::store_list_run(collection, later(s, more)),
        ),
{
    broadcast use {ask_goes_on};

}

broadcast proof fn store_delete_goes_on(collection: Seq<char>, key: Seq<char>, s: Script)
    ensures
        extends(s, #[trigger] state::store_delete_run(collection, key, s).0),
        forall|more: Seq<ReplyView>| goes_on(
            more,
            state::store_delete_run(collection, key, s),
            #[trigger] state::store_delete_run(collection, key, later(s, more)),
        ),
{
    broadcast use {ask_goes_on};

}

broadcast proof fn load_orchestrator_goes_on(id: Seq<char>, s: Script)
    ensures
        extends(s, #[trigger] state::load_orchestrator_run(id, s).0),
        forall|more: Seq<ReplyView>| goes_on(
            more,
            state::load_orchestrator_run(id, s),
            #[trigger] state::load_orchestrator_run(id, later(s, more)),
        ),
{
    broadcast use {ask_goes_on, store_get_goes_on};

}

broadcast proof fn save_orchestrator_goes_on(o: OrchestratorView, s: Script)
    ensures
        extends(s, #[trigger] state::save_orchestrator_run(o, s).0),
        forall|more: Seq<ReplyView>| goes_on(
            more,
            state::save_orchestrator_run(o, s),
            #[trigger] state::save_orchestrator_run(o, later(s, more)),
        ),
{
    broadcast use {ask_goes_on, store_put_goes_on};

}

broadcast proof fn decode_all_grows(
    docs: Seq<(Seq<char>, JsonView)>,
    done: Seq<OrchestratorView>,
    s: Script,
)
    ensures
        extends(s, #[trigger] state::decode_all_run(docs, done, s).0),
    decreases docs.len(),
{
    broadcast use {ask_goes_on};

    if docs.len() > 0 {
        let (t, o) = s.decode(docs[0].1);
        match o {
            None => {},
            Some(None) => {
                decode_all_grows(docs.skip(1), done, t);
            },
            Some(Some(o)) => {
                decode_all_grows(docs.skip(1), done.push(o), t);
            },
        }
    }
}

broadcast proof fn decode_all_goes_on(
    docs: Seq<(Seq<char>, JsonView)>,
    done: Seq<OrchestratorView>,
    s: Script,
)
    ensures
        extends(s, #[trigger] state::decode_all_run(docs, done, s).0),
        forall|more: Seq<ReplyView>| goes_on(
            more,
            state::decode_all_run(docs, done, s),
            #[trigger] state::decode_all_run(docs, done, later(s, more)),
        ),
    decreases docs.len(),
{
    broadcast use {ask_goes_on, decode_all_grows};

    if docs.len() > 0 {
        let (t, o) = s.decode(docs[0].1);
        match o {
            None => {},
            Some(None) => {
                decode_all_goes_on(docs.skip(1), done, t);
            },
            Some(Some(o)) => {
                decode_all_goes_on(docs.skip(1), done.push(o), t);
            },
        }
    }
    assert forall|more: Seq<ReplyView>| goes_on(
        more,
        state::decode_all_run(docs, done, s),
        #[trigger] state::decode_all_run(docs, done, later(s, more)),
    ) by {
        if docs.len() > 0 {
            let (t, o) = later(s, more).decode(docs[0].1);
            match o {
                None => {},
                Some(None) => {
                    decode_all_grows(docs.skip(1), done, t);
                },
                Some(Some(o)) => {
                    decode_all_grows(docs.skip(1), done.push(o), t);
                },
            }
        }
    }
}

broadcast proof fn list_orchestrators_goes_on(s: Script)
    ensures
        extends(s, #[trigger] state::list_orchestrators_run(s).0),
        forall|more: Seq<ReplyView>| goes_on(
            more,
            state::list_orchestrators_run(s),
            #[trigger] state::list_orchestrators_run(later(s, more)),
        ),
{
    broadcast use {ask_goes_on, store_list_goes_on, decode_all_goes_on};

}

broadcast proof fn set_clock_goes_on(now: Seq<char>, s: Script)
    ensures
        extends(s, #[trigger] state::set_clock_run(now, s).0),
        forall|more: Seq<ReplyView>| goes_on(
            more,
            state::set_clock_run(now, s),
            #[trigger] state::set_clock_run(now, later(s, more)),
        ),
{
    broadcast use {ask_goes_on, store_put_goes_on};

}

broadcast proof fn clock_goes_on(s: Script)
    ensures
        extends(s, #[trigger] state::clock_run(s).0),
        forall|more: Seq<ReplyView>| goes_on(
            more,
            state::clock_run(s),
            #[trigger] state::clock_run(later(s, more)),
        ),
{
    broadcast use {ask_goes_on, store_get_goes_on};

}

broadcast proof fn global_paused_goes_on(s: Script)
    ensures
        extends(s, #[trigger] state::global_paused_run(s).0),
        forall|more: Seq<ReplyView>| goes_on(
            more,
            state::global_paused_run(s),
            #[trigger] state::global_paused_run(later(s, more)),
        ),
{
    broadcast use {ask_goes_on, store_get_goes_on};

}

broadcast proof fn set_global_paused_goes_on(paused: bool, s: Script)
    ensures
        extends(s, #[trigger] state::set_global_paused_run(paused, s).0),
        forall|more: Seq<ReplyView>| goes_on(
            more,
            state::set_global_paused_run(paused, s),
            #[trigger] state::set_global_paused_run(paused, later(s, more)),
        ),
{
    broadcast use {ask_goes_on, store_put_goes_on};

}

broadcast proof fn mark_busy_goes_on(session_id: Seq<char>, now: Seq<char>, s: Script)
    ensures
        extends(s, #[trigger] state::mark_busy_run(session_id, now, s).0),
        forall|more: Seq<ReplyView>| goes_on(
            more,
            state::mark_busy_run(session_id, now, s),
            #[trigger] state::mark_busy_run(session_id, now, later(s, more)),
        ),
{
    broadcast use {ask_goes_on, store_put_goes_on};

}

broadcast proof fn mark_idle_goes_on(session_id: Seq<char>, s: Script)
    ensures
        extends(s, #[trigger] state::mark_idle_run(session_id, s).0),
        forall|more: Seq<ReplyView>| goes_on(
            more,
            state::mark_idle_run(session_id, s),
            #[trigger] state::mark_idle_run(session_id, later(s, more)),
        ),
{
    broadcast use {ask_goes_on, store_delete_goes_on};

}

broadcast proof fn is_busy_goes_on(session_id: Seq<char>, now: Seq<char>, s: Script)
    ensures
        extends(s, #[trigger] state::is_busy_run(session_id, now, s).0),
        forall|more: Seq<ReplyView>| goes_on(
            more,
            state::is_busy_run(session_id, now, s),
            #[trigger] state::is_busy_run(session_id, now, later(s, more)),
        ),
{
    broadcast use {ask_goes_on, store_get_goes_on};

}

// ── The engine ──────────────────────────────────────────────────────

broadcast proof fn brain_is_idle_goes_on(o: OrchestratorView, now: Seq<char>, s: Script)
    ensures
        extends(s, #[trigger] engine::brain_is_idle_run(o, now, s).0),
        forall|more: Seq<ReplyView>| goes_on(
            more,
            engine::brain_is_idle_run(o, now, s),
            #[trigger] engine::brain_is_idle_run(o, now, later(s, more)),
        ),
{
    broadcast use {ask_goes_on, is_busy_goes_on};

}

broadcast proof fn watchdog_due_goes_on(o: OrchestratorView, now: Seq<char>, s: Script)
    ensures
        extends(s, #[trigger] engine::watchdog_due_run(o, now, s).0),
        forall|more: Seq<ReplyView>| goes_on(
            more,
            engine::watchdog_due_run(o, now, s),
            #[trigger] engine::watchdog_due_run(o, now, later(s, more)),
        ),
{
    broadcast use {ask_goes_on, brain_is_idle_goes_on};

}

broadcast proof fn count_busy_grows(ids: Seq<Seq<char>>, now: Seq<char>, n: nat, s: Script)
    ensures
        extends(s, #[trigger] engine::count_busy_run(ids, now, n, s).0),
    decreases ids.len(),
{
    broadcast use {ask_goes_on, is_busy_goes_on};

    if ids.len() > 0 {
        let (t, busy) = state::is_busy_run(ids[0], now, s);
        if let Some(busy) = busy {
            count_busy_grows(ids.skip(1), now, if busy { n + 1 } else { n }, t);
        }
    }
}

broadcast proof fn count_busy_goes_on(ids: Seq<Seq<char>>, now: Seq<char>, n: nat, s: Script)
    ensures
        extends(s, #[trigger] engine::count_busy_run(ids, now, n, s).0),
        forall|more: Seq<ReplyView>| goes_on(
            more,
            engine::count_busy_run(ids, now, n, s),
            #[trigger] engine::count_busy_run(ids, now, n, later(s, more)),
        ),
    decreases ids.len(),
{
    broadcast use {ask_goes_on, is_busy_goes_on, count_busy_grows};

    if ids.len() > 0 {
        let (t, busy) = state::is_busy_run(ids[0], now, s);
        if let Some(busy) = busy {
            count_busy_goes_on(ids.skip(1), now, if busy { n + 1 } else { n }, t);
        }
    }
    assert forall|more: Seq<ReplyView>| goes_on(
        more,
        engine::count_busy_run(ids, now, n, s),
        #[trigger] engine::count_busy_run(ids, now, n, later(s, more)),
    ) by {
        if ids.len() > 0 {
            let (t, busy) = state::is_busy_run(ids[0], now, later(s, more));
            if let Some(busy) = busy {
                count_busy_grows(ids.skip(1), now, if busy { n + 1 } else { n }, t);
            }
        }
    }
}

broadcast proof fn render_prompt_goes_on(
    o: OrchestratorView,
    t: TriggerView,
    now: Seq<char>,
    s: Script,
)
    ensures
        extends(s, #[trigger] engine::render_prompt_run(o, t, now, s).0),
        forall|more: Seq<ReplyView>| goes_on(
            more,
            engine::render_prompt_run(o, t, now, s),
            #[trigger] engine::render_prompt_run(o, t, now, later(s, more)),
        ),
{
    broadcast use {ask_goes_on, count_busy_goes_on};

}

broadcast proof fn create_brain_goes_on(o: OrchestratorView, now: Seq<char>, s: Script)
    ensures
        extends(s, #[trigger] engine::create_brain_run(o, now, s).0),
        forall|more: Seq<ReplyView>| goes_on(
            more,
            engine::create_brain_run(o, now, s),
            #[trigger] engine::create_brain_run(o, now, later(s, more)),
        ),
{
    broadcast use {ask_goes_on};

}

broadcast proof fn ensure_brain_goes_on(o: OrchestratorView, now: Seq<char>, s: Script)
    ensures
        extends(s, #[trigger] engine::ensure_brain_run(o, now, s).0),
        forall|more: Seq<ReplyView>| goes_on(
            more,
            engine::ensure_brain_run(o, now, s),
            #[trigger] engine::ensure_brain_run(o, now, later(s, more)),
        ),
{
    broadcast use {ask_goes_on, create_brain_goes_on};

}

broadcast proof fn session_folder_goes_on(session_id: Seq<char>, s: Script)
    ensures
        extends(s, #[trigger] engine::session_folder_run(session_id, s).0),
        forall|more: Seq<ReplyView>| goes_on(
            more,
            engine::session_folder_run(session_id, s),
            #[trigger] engine::session_folder_run(session_id, later(s, more)),
        ),
{
    broadcast use {ask_goes_on};

}

broadcast proof fn send_goes_on(
    o: OrchestratorView,
    t: TriggerView,
    prompt: Seq<char>,
    now: Seq<char>,
    s: Script,
)
    ensures
        extends(s, #[trigger] engine::send_run(o, t, prompt, now, s).0),
        forall|more: Seq<ReplyView>| goes_on(
            more,
            engine::send_run(o, t, prompt, now, s),
            #[trigger] engine::send_run(o, t, prompt, now, later(s, more)),
        ),
{
    broadcast use {ask_goes_on, mark_busy_goes_on};

}

broadcast proof fn engage_goes_on(o: OrchestratorView, t: TriggerView, now: Seq<char>, s: Script)
    ensures
        extends(s, #[trigger] engine::engage_run(o, t, now, s).0),
        forall|more: Seq<ReplyView>| goes_on(
            more,
            engine::engage_run(o, t, now, s),
            #[trigger] engine::engage_run(o, t, now, later(s, more)),
        ),
{
    broadcast use {ask_goes_on, is_busy_goes_on, render_prompt_goes_on, send_goes_on};

}

broadcast proof fn fire_goes_on(o: OrchestratorView, t: TriggerView, now: Seq<char>, s: Script)
    ensures
        extends(s, #[trigger] engine::fire_run(o, t, now, s).0),
        forall|more: Seq<ReplyView>| goes_on(
            more,
            engine::fire_run(o, t, now, s),
            #[trigger] engine::fire_run(o, t, now, later(s, more)),
        ),
{
    broadcast use {ask_goes_on, ensure_brain_goes_on, engage_goes_on};

    reveal(engine::fire_run);
}

broadcast proof fn fire_and_save_goes_on(
    o: OrchestratorView,
    t: TriggerView,
    now: Seq<char>,
    s: Script,
)
    ensures
        extends(s, #[trigger] engine::fire_and_save_run(o, t, now, s).0),
        forall|more: Seq<ReplyView>| goes_on(
            more,
            engine::fire_and_save_run(o, t, now, s),
            #[trigger] engine::fire_and_save_run(o, t, now, later(s, more)),
        ),
{
    broadcast use {ask_goes_on, fire_goes_on, save_orchestrator_goes_on};

}

broadcast proof fn flush_goes_on(o: OrchestratorView, now: Seq<char>, s: Script)
    ensures
        extends(s, #[trigger] engine::flush_run(o, now, s).0),
        forall|more: Seq<ReplyView>| goes_on(
            more,
            engine::flush_run(o, now, s),
            #[trigger] engine::flush_run(o, now, later(s, more)),
        ),
{
    broadcast use {ask_goes_on, fire_and_save_goes_on};

}

broadcast proof fn scheduled_goes_on(o: OrchestratorView, now: Seq<char>, s: Script)
    ensures
        extends(s, #[trigger] engine::scheduled_run(o, now, s).0),
        forall|more: Seq<ReplyView>| goes_on(
            more,
            engine::scheduled_run(o, now, s),
            #[trigger] engine::scheduled_run(o, now, later(s, more)),
        ),
{
    broadcast use {ask_goes_on, fire_and_save_goes_on};

}

broadcast proof fn tick_one_goes_on(o: OrchestratorView, now: Seq<char>, s: Script)
    ensures
        extends(s, #[trigger] engine::tick_one_run(o, now, s).0),
        forall|more: Seq<ReplyView>| goes_on(
            more,
            engine::tick_one_run(o, now, s),
            #[trigger] engine::tick_one_run(o, now, later(s, more)),
        ),
{
    broadcast use {
        ask_goes_on,
        brain_is_idle_goes_on,
        flush_goes_on,
        scheduled_goes_on,
        watchdog_due_goes_on,
        fire_and_save_goes_on,
    };

    reveal(engine::tick_one_run);
}

broadcast proof fn tick_walk_grows(
    orchs: Seq<OrchestratorView>,
    now: Seq<char>,
    fired: u32,
    s: Script,
)
    ensures
        extends(s, #[trigger] engine::tick_walk_run(orchs, now, fired, s).0),
    decreases orchs.len(),
{
    broadcast use {ask_goes_on, tick_one_goes_on};

    if orchs.len() > 0 {
        let (t, r) = engine::tick_one_run(orchs[0], now, s);
        if let Some(Ok(sent)) = r {
            tick_walk_grows(orchs.skip(1), now, if sent { fired.wrapping_add(1) } else { fired }, t);
        }
    }
}

broadcast proof fn tick_walk_goes_on(
    orchs: Seq<OrchestratorView>,
    now: Seq<char>,
    fired: u32,
    s: Script,
)
    ensures
        extends(s, #[trigger] engine::tick_walk_run(orchs, now, fired, s).0),
        forall|more: Seq<ReplyView>| goes_on(
            more,
            engine::tick_walk_run(orchs, now, fired, s),
            #[trigger] engine::tick_walk_run(orchs, now, fired, later(s, more)),
        ),
    decreases orchs.len(),
{
    broadcast use {ask_goes_on, tick_one_goes_on, tick_walk_grows};

    if orchs.len() > 0 {
        let (t, r) = engine::tick_one_run(orchs[0], now, s);
        if let Some(Ok(sent)) = r {
            tick_walk_goes_on(orchs.skip(1), now, if sent { fired.wrapping_add(1) } else { fired }, t);
        }
    }
    assert forall|more: Seq<ReplyView>| goes_on(
        more,
        engine::tick_walk_run(orchs, now, fired, s),
        #[trigger] engine::tick_walk_run(orchs, now, fired, later(s, more)),
    ) by {
        if orchs.len() > 0 {
            let (t, r) = engine::tick_one_run(orchs[0], now, later(s, more));
            if let Some(Ok(sent)) = r {
                tick_walk_grows(orchs.skip(1), now, if sent { fired.wrapping_add(1) } else { fired }, t);
            }
        }
    }
}

broadcast proof fn tick_leased_goes_on(now: Seq<char>, s: Script)
    ensures
        extends(s, #[trigger] engine::tick_leased_run(now, s).0),
        forall|more: Seq<ReplyView>| goes_on(
            more,
            engine::tick_leased_run(now, s),
            #[trigger] engine::tick_leased_run(now, later(s, more)),
        ),
{
    broadcast use {ask_goes_on, list_orchestrators_goes_on, tick_walk_goes_on};

}

broadcast proof fn tick_goes_on(now: Seq<char>, s: Script)
    ensures
        extends(s, #[trigger] engine::tick_run(now, s).0),
        forall|more: Seq<ReplyView>| goes_on(
            more,
            engine::tick_run(now, s),
            #[trigger] engine::tick_run(now, later(s, more)),
        ),
{
    broadcast use {ask_goes_on, set_clock_goes_on, global_paused_goes_on, tick_leased_goes_on};

}

broadcast proof fn on_timer_tick_goes_on(payload: JsonView, s: Script)
    ensures
        extends(s, #[trigger] engine::on_timer_tick_run(payload, s).0),
        forall|more: Seq<ReplyView>| goes_on(
            more,
            engine::on_timer_tick_run(payload, s),
            #[trigger] engine::on_timer_tick_run(payload, later(s, more)),
        ),
{
    broadcast use {ask_goes_on, tick_goes_on};

}

broadcast proof fn watched_goes_on(
    o: OrchestratorView,
    session_id: Seq<char>,
    folder: Option<Option<Seq<char>>>,
    s: Script,
)
    ensures
        extends(s, #[trigger] engine::watched_run(o, session_id, folder, s).0),
        forall|more: Seq<ReplyView>| goes_on(
            more,
            engine::watched_run(o, session_id, folder, s),
            #[trigger] engine::watched_run(o, session_id, folder, later(s, more)),
        ),
{
    broadcast use {ask_goes_on, session_folder_goes_on};

}

broadcast proof fn ended_one_goes_on(
    o: OrchestratorView,
    session_id: Seq<char>,
    t: TriggerView,
    now: Seq<char>,
    folder: Option<Option<Seq<char>>>,
    s: Script,
)
    ensures
        extends(s, #[trigger] engine::ended_one_run(o, session_id, t, now, folder, s).0),
        forall|more: Seq<ReplyView>| goes_on(
            more,
            engine::ended_one_run(o, session_id, t, now, folder, s),
            #[trigger] engine::ended_one_run(o, session_id, t, now, folder, later(s, more)),
        ),
{
    broadcast use {ask_goes_on, flush_goes_on, watched_goes_on, fire_and_save_goes_on};

    reveal(engine::ended_one_run);
}

broadcast proof fn ended_walk_grows(
    orchs: Seq<OrchestratorView>,
    session_id: Seq<char>,
    t: TriggerView,
    now: Seq<char>,
    folder: Option<Option<Seq<char>>>,
    s: Script,
)
    ensures
        extends(s, #[trigger] engine::ended_walk_run(orchs, session_id, t, now, folder, s).0),
    decreases orchs.len(),
{
    broadcast use {ask_goes_on, ended_one_goes_on};

    if orchs.len() > 0 {
        let (u, r) = engine::ended_one_run(orchs[0], session_id, t, now, folder, s);
        if let Some((folder, Ok(_))) = r {
            ended_walk_grows(orchs.skip(1), session_id, t, now, folder, u);
        }
    }
}

broadcast proof fn ended_walk_goes_on(
    orchs: Seq<OrchestratorView>,
    session_id: Seq<char>,
    t: TriggerView,
    now: Seq<char>,
    folder: Option<Option<Seq<char>>>,
    s: Script,
)
    ensures
        extends(s, #[trigger] engine::ended_walk_run(orchs, session_id, t, now, folder, s).0),
        forall|more: Seq<ReplyView>| goes_on(
            more,
            engine::ended_walk_run(orchs, session_id, t, now, folder, s),
            #[trigger] engine::ended_walk_run(orchs, session_id, t, now, folder, later(s, more)),
        ),
    decreases orchs.len(),
{
    broadcast use {ask_goes_on, ended_one_goes_on, ended_walk_grows};

    if orchs.len() > 0 {
        let (u, r) = engine::ended_one_run(orchs[0], session_id, t, now, folder, s);
        if let Some((folder, Ok(_))) = r {
            ended_walk_goes_on(orchs.skip(1), session_id, t, now, folder, u);
        }
    }
    assert forall|more: Seq<ReplyView>| goes_on(
        more,
        engine::ended_walk_run(orchs, session_id, t, now, folder, s),
        #[trigger] engine::ended_walk_run(orchs, session_id, t, now, folder, later(s, more)),
    ) by {
        if orchs.len() > 0 {
            let (u, r) = engine::ended_one_run(orchs[0], session_id, t, now, folder, later(s, more));
            if let Some((folder, Ok(_))) = r {
                ended_walk_grows(orchs.skip(1), session_id, t, now, folder, u);
            }
        }
    }
}

broadcast proof fn ended_leased_goes_on(
    session_id: Seq<char>,
    t: TriggerView,
    now: Seq<char>,
    s: Script,
)
    ensures
        extends(s, #[trigger] engine::ended_leased_run(session_id, t, now, s).0),
        forall|more: Seq<ReplyView>| goes_on(
            more,
            engine::ended_leased_run(session_id, t, now, s),
            #[trigger] engine::ended_leased_run(session_id, t, now, later(s, more)),
        ),
{
    broadcast use {ask_goes_on, list_orchestrators_goes_on, ended_walk_goes_on};

}

broadcast proof fn ended_goes_on(session_id: Seq<char>, t: TriggerView, now: Seq<char>, s: Script)
    ensures
        extends(s, #[trigger] engine::ended_run(session_id, t, now, s).0),
        forall|more: Seq<ReplyView>| goes_on(
            more,
            engine::ended_run(session_id, t, now, s),
            #[trigger] engine::ended_run(session_id, t, now, later(s, more)),
        ),
{
    broadcast use {ask_goes_on, ended_leased_goes_on};

}

broadcast proof fn on_agent_ended_goes_on(payload: JsonView, s: Script)
    ensures
        extends(s, #[trigger] engine::on_agent_ended_run(payload, s).0),
        forall|more: Seq<ReplyView>| goes_on(
            more,
            engine::on_agent_ended_run(payload, s),
            #[trigger] engine::on_agent_ended_run(payload, later(s, more)),
        ),
{
    broadcast use {
        ask_goes_on,
        mark_idle_goes_on,
        clock_goes_on,
        global_paused_goes_on,
        ended_goes_on,
    };

}

broadcast proof fn on_message_before_goes_on(payload: JsonView, s: Script)
    ensures
        extends(s, #[trigger] engine::on_message_before_run(payload, s).0),
        forall|more: Seq<ReplyView>| goes_on(
            more,
            engine::on_message_before_run(payload, s),
            #[trigger] engine::on_message_before_run(payload, later(s, more)),
        ),
{
    broadcast use {ask_goes_on, clock_goes_on, mark_busy_goes_on};

}

broadcast proof fn run_leased_goes_on(id: Seq<char>, now: Seq<char>, s: Script)
    ensures
        extends(s, #[trigger] engine::run_leased_run(id, now, s).0),
        forall|more: Seq<ReplyView>| goes_on(
            more,
            engine::run_leased_run(id, now, s),
            #[trigger] engine::run_leased_run(id, now, later(s, more)),
        ),
{
    broadcast use {ask_goes_on, load_orchestrator_goes_on, fire_and_save_goes_on};

}

broadcast proof fn run_now_goes_on(id: Seq<char>, s: Script)
    ensures
        extends(s, #[trigger] engine::run_now_run(id, s).0),
        forall|more: Seq<ReplyView>| goes_on(
            more,
            engine::run_now_run(id, s),
            #[trigger] engine::run_now_run(id, later(s, more)),
        ),
{
    broadcast use {ask_goes_on, clock_goes_on, global_paused_goes_on, run_leased_goes_on};

}

broadcast proof fn dry_run_goes_on(id: Seq<char>, s: Script)
    ensures
        extends(s, #[trigger] engine::dry_run_run(id, s).0),
        forall|more: Seq<ReplyView>| goes_on(
            more,
            engine::dry_run_run(id, s),
            #[trigger] engine::dry_run_run(id, later(s, more)),
        ),
{
    broadcast use {ask_goes_on, clock_goes_on, load_orchestrator_goes_on, render_prompt_goes_on};

}

// ── Approval and control ────────────────────────────────────────────

broadcast proof fn lookup_session_goes_on(id: Seq<char>, s: Script)
    ensures
        extends(s, #[trigger] authorize::lookup_session_run(id, s).0),
        forall|more: Seq<ReplyView>| goes_on(
            more,
            authorize::lookup_session_run(id, s),
            #[trigger] authorize::lookup_session_run(id, later(s, more)),
        ),
{
    broadcast use {ask_goes_on};

}

broadcast proof fn store_has_always_goes_on(caller_id: Seq<char>, s: Script)
    ensures
        extends(s, #[trigger] authorize::store_has_always_run(caller_id, s).0),
        forall|more: Seq<ReplyView>| goes_on(
            more,
            authorize::store_has_always_run(caller_id, s),
            #[trigger] authorize::store_has_always_run(caller_id, later(s, more)),
        ),
{
    broadcast use {ask_goes_on, store_get_goes_on};

}

broadcast proof fn new_token_goes_on(caller: Seq<char>, target: Seq<char>, s: Script)
    ensures
        extends(s, #[trigger] authorize::new_token_run(caller, target, s).0),
        forall|more: Seq<ReplyView>| goes_on(
            more,
            authorize::new_token_run(caller, target, s),
            #[trigger] authorize::new_token_run(caller, target, later(s, more)),
        ),
{
    broadcast use {ask_goes_on};

}

broadcast proof fn grant_goes_on(collection: Seq<char>, key: Seq<char>, s: Script)
    ensures
        extends(s, #[trigger] authorize::grant_run(collection, key, s).0),
        forall|more: Seq<ReplyView>| goes_on(
            more,
            authorize::grant_run(collection, key, s),
            #[trigger] authorize::grant_run(collection, key, later(s, more)),
        ),
{
    broadcast use {ask_goes_on, store_put_goes_on};

}

broadcast proof fn user_ask_goes_on(
    caller: Seq<char>,
    target: Seq<char>,
    name: Seq<char>,
    action: Seq<char>,
    s: Script,
)
    ensures
        extends(s, #[trigger] authorize::ask_run(caller, target, name, action, s).0),
        forall|more: Seq<ReplyView>| goes_on(
            more,
            authorize::ask_run(caller, target, name, action, s),
            #[trigger] authorize::ask_run(caller, target, name, action, later(s, more)),
        ),
{
    broadcast use {ask_goes_on, new_token_goes_on, store_put_goes_on};

}

broadcast proof fn settle_goes_on(
    caller: Seq<char>,
    target: Seq<char>,
    name: Seq<char>,
    action: Seq<char>,
    ans: JsonView,
    s: Script,
)
    ensures
        extends(s, #[trigger] authorize::settle_run(caller, target, name, action, ans, s).0),
        forall|more: Seq<ReplyView>| goes_on(
            more,
            authorize::settle_run(caller, target, name, action, ans, s),
            #[trigger] authorize::settle_run(caller, target, name, action, ans, later(s, more)),
        ),
{
    broadcast use {ask_goes_on, store_delete_goes_on, grant_goes_on};

}

broadcast proof fn answer_goes_on(
    caller: Seq<char>,
    target: Seq<char>,
    name: Seq<char>,
    action: Seq<char>,
    pending: JsonView,
    s: Script,
)
    ensures
        extends(s, #[trigger] authorize::answer_run(caller, target, name, action, pending, s).0),
        forall|more: Seq<ReplyView>| goes_on(
            more,
            authorize::answer_run(caller, target, name, action, pending, s),
            #[trigger] authorize::answer_run(caller, target, name, action, pending, later(s, more)),
        ),
{
    broadcast use {ask_goes_on, settle_goes_on};

}

broadcast proof fn approval_goes_on(
    caller: Seq<char>,
    target: Seq<char>,
    name: Seq<char>,
    action: Seq<char>,
    s: Script,
)
    ensures
        extends(s, #[trigger] authorize::approval_run(caller, target, name, action, s).0),
        forall|more: Seq<ReplyView>| goes_on(
            more,
            authorize::approval_run(caller, target, name, action, s),
            #[trigger] authorize::approval_run(caller, target, name, action, later(s, more)),
        ),
{
    broadcast use {
        ask_goes_on,
        store_has_always_goes_on,
        store_get_goes_on,
        user_ask_goes_on,
        answer_goes_on,
    };

}

broadcast proof fn gate_goes_on(
    scope: JsonView,
    target_id: Seq<char>,
    target: JsonView,
    action: Seq<char>,
    s: Script,
)
    ensures
        extends(s, #[trigger] authorize::gate_run(scope, target_id, target, action, s).0),
        forall|more: Seq<ReplyView>| goes_on(
            more,
            authorize::gate_run(scope, target_id, target, action, s),
            #[trigger] authorize::gate_run(scope, target_id, target, action, later(s, more)),
        ),
{
    broadcast use {ask_goes_on, approval_goes_on};

}

broadcast proof fn ensure_cross_folder_allowed_goes_on(
    target_id: Seq<char>,
    action: Seq<char>,
    s: Script,
)
    ensures
        extends(s, #[trigger] authorize::ensure_cross_folder_allowed_run(target_id, action, s).0),
        forall|more: Seq<ReplyView>| goes_on(
            more,
            authorize::ensure_cross_folder_allowed_run(target_id, action, s),
            #[trigger] authorize::ensure_cross_folder_allowed_run(target_id, action, later(s, more)),
        ),
{
    broadcast use {ask_goes_on, lookup_session_goes_on, gate_goes_on};

}

broadcast proof fn gated_action_goes_on(
    target_id: Seq<char>,
    action: Seq<char>,
    f: HostFn,
    input: JsonView,
    s: Script,
)
    ensures
        extends(s, #[trigger] control::gated_action_run(target_id, action, f, input, s).0),
        forall|more: Seq<ReplyView>| goes_on(
            more,
            control::gated_action_run(target_id, action, f, input, s),
            #[trigger] control::gated_action_run(target_id, action, f, input, later(s, more)),
        ),
{
    broadcast use {ask_goes_on, ensure_cross_folder_allowed_goes_on};

}

broadcast proof fn session_action_goes_on(args: JsonView, action: Seq<char>, f: HostFn, s: Script)
    ensures
        extends(s, #[trigger] control::session_action_run(args, action, f, s).0),
        forall|more: Seq<ReplyView>| goes_on(
            more,
            control::session_action_run(args, action, f, s),
            #[trigger] control::session_action_run(args, action, f, later(s, more)),
        ),
{
    broadcast use {ask_goes_on, gated_action_goes_on};

}

broadcast proof fn send_message_goes_on(args: JsonView, s: Script)
    ensures
        extends(s, #[trigger] control::send_message_run(args, s).0),
        forall|more: Seq<ReplyView>| goes_on(
            more,
            control::send_message_run(args, s),
            #[trigger] control::send_message_run(args, later(s, more)),
        ),
{
    broadcast use {ask_goes_on, gated_action_goes_on};

}

broadcast proof fn find_session_goes_on(args: JsonView, s: Script)
    ensures
        extends(s, #[trigger] control::find_session_run(args, s).0),
        forall|more: Seq<ReplyView>| goes_on(
            more,
            control::find_session_run(args, s),
            #[trigger] control::find_session_run(args, later(s, more)),
        ),
{
    broadcast use {ask_goes_on};

}

broadcast proof fn send_image_goes_on(args: JsonView, s: Script)
    ensures
        extends(s, #[trigger] control::send_image_run(args, s).0),
        forall|more: Seq<ReplyView>| goes_on(
            more,
            control::send_image_run(args, s),
            #[trigger] control::send_image_run(args, later(s, more)),
        ),
{
    broadcast use {ask_goes_on, gated_action_goes_on};

}

// ── The tools of brains ─────────────────────────────────────────────

broadcast proof fn caller_session_goes_on(s: Script)
    ensures
        extends(s, #[trigger] orch_tools::caller_session_run(s).0),
        forall|more: Seq<ReplyView>| goes_on(
            more,
            orch_tools::caller_session_run(s),
            #[trigger] orch_tools::caller_session_run(later(s, more)),
        ),
{
    broadcast use {ask_goes_on};

}

broadcast proof fn caller_orchestrator_goes_on(s: Script)
    ensures
        extends(s, #[trigger] orch_tools::caller_orchestrator_run(s).0),
        forall|more: Seq<ReplyView>| goes_on(
            more,
            orch_tools::caller_orchestrator_run(s),
            #[trigger] orch_tools::caller_orchestrator_run(later(s, more)),
        ),
{
    broadcast use {ask_goes_on, caller_session_goes_on, list_orchestrators_goes_on};

}

broadcast proof fn require_caller_orchestrator_goes_on(s: Script)
    ensures
        extends(s, #[trigger] orch_tools::require_caller_orchestrator_run(s).0),
        forall|more: Seq<ReplyView>| goes_on(
            more,
            orch_tools::require_caller_orchestrator_run(s),
            #[trigger] orch_tools::require_caller_orchestrator_run(later(s, more)),
        ),
{
    broadcast use {ask_goes_on, caller_orchestrator_goes_on};

}

broadcast proof fn now_goes_on(s: Script)
    ensures
        extends(s, #[trigger] orch_tools::now_run(s).0),
        forall|more: Seq<ReplyView>| goes_on(
            more,
            orch_tools::now_run(s),
            #[trigger] orch_tools::now_run(later(s, more)),
        ),
{
    broadcast use {ask_goes_on, clock_goes_on};

}

broadcast proof fn record_spawn_goes_on(
    orch: Option<OrchestratorView>,
    id: Seq<char>,
    name: Seq<char>,
    hat: Option<Seq<char>>,
    responsibilities: Seq<char>,
    s: Script,
)
    ensures
        extends(s, #[trigger] orch_tools::record_spawn_run(orch, id, name, hat, responsibilities, s).0),
        forall|more: Seq<ReplyView>| goes_on(
            more,
            orch_tools::record_spawn_run(orch, id, name, hat, responsibilities, s),
            #[trigger] orch_tools::record_spawn_run(orch, id, name, hat, responsibilities, later(s, more)),
        ),
{
    broadcast use {ask_goes_on, now_goes_on, save_orchestrator_goes_on};

}

broadcast proof fn tools_create_leased_goes_on(
    name: Seq<char>,
    model: Option<Seq<char>>,
    hat: Option<Seq<char>>,
    responsibilities: Seq<char>,
    s: Script,
)
    ensures
        extends(s, #[trigger] orch_tools::create_leased_run(name, model, hat, responsibilities, s).0),
        forall|more: Seq<ReplyView>| goes_on(
            more,
            orch_tools::create_leased_run(name, model, hat, responsibilities, s),
            #[trigger] orch_tools::create_leased_run(name, model, hat, responsibilities, later(s, more)),
        ),
{
    broadcast use {ask_goes_on, caller_orchestrator_goes_on, record_spawn_goes_on};

}

broadcast proof fn create_session_goes_on(args: JsonView, s: Script)
    ensures
        extends(s, #[trigger] orch_tools::create_session_run(args, s).0),
        forall|more: Seq<ReplyView>| goes_on(
            more,
            orch_tools::create_session_run(args, s),
            #[trigger] orch_tools::create_session_run(args, later(s, more)),
        ),
{
    broadcast use {ask_goes_on, tools_create_leased_goes_on};

}

broadcast proof fn hat_leased_goes_on(
    id: Seq<char>,
    hat: Seq<char>,
    responsibilities: Seq<char>,
    s: Script,
)
    ensures
        extends(s, #[trigger] orch_tools::hat_leased_run(id, hat, responsibilities, s).0),
        forall|more: Seq<ReplyView>| goes_on(
            more,
            orch_tools::hat_leased_run(id, hat, responsibilities, s),
            #[trigger] orch_tools::hat_leased_run(id, hat, responsibilities, later(s, more)),
        ),
{
    broadcast use {
        ask_goes_on,
        caller_orchestrator_goes_on,
        now_goes_on,
        save_orchestrator_goes_on,
    };

}

broadcast proof fn assign_hat_goes_on(args: JsonView, s: Script)
    ensures
        extends(s, #[trigger] orch_tools::assign_hat_run(args, s).0),
        forall|more: Seq<ReplyView>| goes_on(
            more,
            orch_tools::assign_hat_run(args, s),
            #[trigger] orch_tools::assign_hat_run(args, later(s, more)),
        ),
{
    broadcast use {ask_goes_on, hat_leased_goes_on};

}

broadcast proof fn watch_leased_goes_on(id: Seq<char>, watch: bool, s: Script)
    ensures
        extends(s, #[trigger] orch_tools::watch_leased_run(id, watch, s).0),
        forall|more: Seq<ReplyView>| goes_on(
            more,
            orch_tools::watch_leased_run(id, watch, s),
            #[trigger] orch_tools::watch_leased_run(id, watch, later(s, more)),
        ),
{
    broadcast use {
        ask_goes_on,
        require_caller_orchestrator_goes_on,
        now_goes_on,
        save_orchestrator_goes_on,
    };

}

broadcast proof fn watch_session_goes_on(args: JsonView, watch: bool, s: Script)
    ensures
        extends(s, #[trigger] orch_tools::watch_session_run(args, watch, s).0),
        forall|more: Seq<ReplyView>| goes_on(
            more,
            orch_tools::watch_session_run(args, watch, s),
            #[trigger] orch_tools::watch_session_run(args, watch, later(s, more)),
        ),
{
    broadcast use {ask_goes_on, watch_leased_goes_on};

}

broadcast proof fn managed_docs_grows(
    o: OrchestratorView,
    all: Seq<JsonView>,
    ids: Seq<Seq<char>>,
    ts: Seq<char>,
    done: Seq<JsonView>,
    s: Script,
)
    ensures
        extends(s, #[trigger] orch_tools::managed_docs_run(o, all, ids, ts, done, s).0),
    decreases ids.len(),
{
    broadcast use {ask_goes_on, is_busy_goes_on};

    if ids.len() > 0 {
        let (t, busy) = state::is_busy_run(ids[0], ts, s);
        if let Some(busy) = busy {
            let next = done.push(orch_tools::managed_doc(o, all, ids[0], busy));
            managed_docs_grows(o, all, ids.skip(1), ts, next, t);
        }
    }
}

broadcast proof fn managed_docs_goes_on(
    o: OrchestratorView,
    all: Seq<JsonView>,
    ids: Seq<Seq<char>>,
    ts: Seq<char>,
    done: Seq<JsonView>,
    s: Script,
)
    ensures
        extends(s, #[trigger] orch_tools::managed_docs_run(o, all, ids, ts, done, s).0),
        forall|more: Seq<ReplyView>| goes_on(
            more,
            orch_tools::managed_docs_run(o, all, ids, ts, done, s),
            #[trigger] orch_tools::managed_docs_run(o, all, ids, ts, done, later(s, more)),
        ),
    decreases ids.len(),
{
    broadcast use {ask_goes_on, is_busy_goes_on, managed_docs_grows};

    if ids.len() > 0 {
        let (t, busy) = state::is_busy_run(ids[0], ts, s);
        if let Some(busy) = busy {
            let next = done.push(orch_tools::managed_doc(o, all, ids[0], busy));
            managed_docs_goes_on(o, all, ids.skip(1), ts, next, t);
        }
    }
    assert forall|more: Seq<ReplyView>| goes_on(
        more,
        orch_tools::managed_docs_run(o, all, ids, ts, done, s),
        #[trigger] orch_tools::managed_docs_run(o, all, ids, ts, done, later(s, more)),
    ) by {
        if ids.len() > 0 {
            let (t, busy) = state::is_busy_run(ids[0], ts, later(s, more));
            if let Some(busy) = busy {
                let next = done.push(orch_tools::managed_doc(o, all, ids[0], busy));
                managed_docs_grows(o, all, ids.skip(1), ts, next, t);
            }
        }
    }
}

broadcast proof fn list_managed_sessions_goes_on(s: Script)
    ensures
        extends(s, #[trigger] orch_tools::list_managed_sessions_run(s).0),
        forall|more: Seq<ReplyView>| goes_on(
            more,
            orch_tools::list_managed_sessions_run(s),
            #[trigger] orch_tools::list_managed_sessions_run(later(s, more)),
        ),
{
    broadcast use {
        ask_goes_on,
        require_caller_orchestrator_goes_on,
        now_goes_on,
        managed_docs_goes_on,
    };

}

broadcast proof fn report_leased_goes_on(report: ReportView, s: Script)
    ensures
        extends(s, #[trigger] orch_tools::report_leased_run(report, s).0),
        forall|more: Seq<ReplyView>| goes_on(
            more,
            orch_tools::report_leased_run(report, s),
            #[trigger] orch_tools::report_leased_run(report, later(s, more)),
        ),
{
    broadcast use {
        ask_goes_on,
        require_caller_orchestrator_goes_on,
        now_goes_on,
        save_orchestrator_goes_on,
    };

}

broadcast proof fn update_goal_status_goes_on(args: JsonView, s: Script)
    ensures
        extends(s, #[trigger] orch_tools::update_goal_status_run(args, s).0),
        forall|more: Seq<ReplyView>| goes_on(
            more,
            orch_tools::update_goal_status_run(args, s),
            #[trigger] orch_tools::update_goal_status_run(args, later(s, more)),
        ),
{
    broadcast use {ask_goes_on, report_leased_goes_on};

}

broadcast proof fn summary_leased_goes_on(summary: Seq<char>, s: Script)
    ensures
        extends(s, #[trigger] orch_tools::summary_leased_run(summary, s).0),
        forall|more: Seq<ReplyView>| goes_on(
            more,
            orch_tools::summary_leased_run(summary, s),
            #[trigger] orch_tools::summary_leased_run(summary, later(s, more)),
        ),
{
    broadcast use {
        ask_goes_on,
        require_caller_orchestrator_goes_on,
        now_goes_on,
        save_orchestrator_goes_on,
    };

}

broadcast proof fn orchestrator_report_goes_on(args: JsonView, s: Script)
    ensures
        extends(s, #[trigger] orch_tools::orchestrator_report_run(args, s).0),
        forall|more: Seq<ReplyView>| goes_on(
            more,
            orch_tools::orchestrator_report_run(args, s),
            #[trigger] orch_tools::orchestrator_report_run(args, later(s, more)),
        ),
{
    broadcast use {ask_goes_on, summary_leased_goes_on};

}

broadcast proof fn attribute_leased_goes_on(tool: Seq<char>, target: Option<Seq<char>>, s: Script)
    ensures
        extends(s, #[trigger] orch_tools::attribute_leased_run(tool, target, s).0),
        forall|more: Seq<ReplyView>| goes_on(
            more,
            orch_tools::attribute_leased_run(tool, target, s),
            #[trigger] orch_tools::attribute_leased_run(tool, target, later(s, more)),
        ),
{
    broadcast use {
        ask_goes_on,
        caller_orchestrator_goes_on,
        now_goes_on,
        save_orchestrator_goes_on,
    };

}

broadcast proof fn attribute_action_goes_on(tool: Seq<char>, target: Option<Seq<char>>, s: Script)
    ensures
        extends(s, #[trigger] orch_tools::attribute_action_run(tool, target, s).0),
        forall|more: Seq<ReplyView>| goes_on(
            more,
            orch_tools::attribute_action_run(tool, target, s),
            #[trigger] orch_tools::attribute_action_run(tool, target, later(s, more)),
        ),
{
    broadcast use {ask_goes_on, attribute_leased_goes_on};

}

// ── The page ────────────────────────────────────────────────────────

broadcast proof fn brain_busy_goes_on(o: OrchestratorView, now: Seq<char>, s: Script)
    ensures
        extends(s, #[trigger] page::brain_busy_run(o, now, s).0),
        forall|more: Seq<ReplyView>| goes_on(
            more,
            page::brain_busy_run(o, now, s),
            #[trigger] page::brain_busy_run(o, now, later(s, more)),
        ),
{
    broadcast use {ask_goes_on, is_busy_goes_on};

}

broadcast proof fn show_all_grows(
    orchs: Seq<OrchestratorView>,
    now: Seq<char>,
    done: Seq<JsonView>,
    s: Script,
)
    ensures
        extends(s, #[trigger] page::show_all_run(orchs, now, done, s).0),
    decreases orchs.len(),
{
    broadcast use {ask_goes_on, brain_busy_goes_on};

    if orchs.len() > 0 {
        let (t, busy) = page::brain_busy_run(orchs[0], now, s);
        if let Some(busy) = busy {
            show_all_grows(orchs.skip(1), now, done.push(page::shown(orchs[0], busy)), t);
        }
    }
}

broadcast proof fn show_all_goes_on(
    orchs: Seq<OrchestratorView>,
    now: Seq<char>,
    done: Seq<JsonView>,
    s: Script,
)
    ensures
        extends(s, #[trigger] page::show_all_run(orchs, now, done, s).0),
        forall|more: Seq<ReplyView>| goes_on(
            more,
            page::show_all_run(orchs, now, done, s),
            #[trigger] page::show_all_run(orchs, now, done, later(s, more)),
        ),
    decreases orchs.len(),
{
    broadcast use {ask_goes_on, brain_busy_goes_on, show_all_grows};

    if orchs.len() > 0 {
        let (t, busy) = page::brain_busy_run(orchs[0], now, s);
        if let Some(busy) = busy {
            show_all_goes_on(orchs.skip(1), now, done.push(page::shown(orchs[0], busy)), t);
        }
    }
    assert forall|more: Seq<ReplyView>| goes_on(
        more,
        page::show_all_run(orchs, now, done, s),
        #[trigger] page::show_all_run(orchs, now, done, later(s, more)),
    ) by {
        if orchs.len() > 0 {
            let (t, busy) = page::brain_busy_run(orchs[0], now, later(s, more));
            if let Some(busy) = busy {
                show_all_grows(orchs.skip(1), now, done.push(page::shown(orchs[0], busy)), t);
            }
        }
    }
}

broadcast proof fn list_route_goes_on(s: Script)
    ensures
        extends(s, #[trigger] page::list_route_run(s).0),
        forall|more: Seq<ReplyView>| goes_on(
            more,
            page::list_route_run(s),
            #[trigger] page::list_route_run(later(s, more)),
        ),
{
    broadcast use {
        ask_goes_on,
        clock_goes_on,
        list_orchestrators_goes_on,
        show_all_goes_on,
        global_paused_goes_on,
    };

}

broadcast proof fn new_id_goes_on(s: Script)
    ensures
        extends(s, #[trigger] page::new_id_run(s).0),
        forall|more: Seq<ReplyView>| goes_on(
            more,
            page::new_id_run(s),
            #[trigger] page::new_id_run(later(s, more)),
        ),
{
    broadcast use {ask_goes_on, clock_goes_on};

}

broadcast proof fn free_id_grows(s: Script)
    ensures
        extends(s, #[trigger] page::free_id_run(s).0),
    decreases s.left.len(),
{
    broadcast use {ask_goes_on, new_id_goes_on, load_orchestrator_goes_on};

    let (t, id) = page::new_id_run(s);
    if let Some(id) = id {
        let (u, r) = state::load_orchestrator_run(id, t);
        if let Some(Ok(Some(_))) = r {
            page::trying_an_id_uses_answers(s);
            free_id_grows(u);
        }
    }
}

broadcast proof fn free_id_goes_on(s: Script)
    ensures
        extends(s, #[trigger] page::free_id_run(s).0),
        forall|more: Seq<ReplyView>| goes_on(
            more,
            page::free_id_run(s),
            #[trigger] page::free_id_run(later(s, more)),
        ),
    decreases s.left.len(),
{
    broadcast use {ask_goes_on, new_id_goes_on, load_orchestrator_goes_on, free_id_grows};

    let (t, id) = page::new_id_run(s);
    if let Some(id) = id {
        let (u, r) = state::load_orchestrator_run(id, t);
        if let Some(Ok(Some(_))) = r {
            page::trying_an_id_uses_answers(s);
            free_id_goes_on(u);
        }
    }
    assert forall|more: Seq<ReplyView>| goes_on(
        more,
        page::free_id_run(s),
        #[trigger] page::free_id_run(later(s, more)),
    ) by {
        let (t, id) = page::new_id_run(later(s, more));
        if let Some(id) = id {
            let (u, r) = state::load_orchestrator_run(id, t);
            if let Some(Ok(Some(_))) = r {
                free_id_grows(u);
            }
        }
    }
}

broadcast proof fn page_create_leased_goes_on(now: Seq<char>, body: JsonView, s: Script)
    ensures
        extends(s, #[trigger] page::create_leased_run(now, body, s).0),
        forall|more: Seq<ReplyView>| goes_on(
            more,
            page::create_leased_run(now, body, s),
            #[trigger] page::create_leased_run(now, body, later(s, more)),
        ),
{
    broadcast use {ask_goes_on, free_id_goes_on, save_orchestrator_goes_on};

}

#[verifier::rlimit(60)]
broadcast proof fn create_route_goes_on(body: JsonView, s: Script)
    ensures
        extends(s, #[trigger] page::create_route_run(body, s).0),
        forall|more: Seq<ReplyView>| goes_on(
            more,
            page::create_route_run(body, s),
            #[trigger] page::create_route_run(body, later(s, more)),
        ),
{
    broadcast use {ask_goes_on, now_goes_on, page_create_leased_goes_on};

}

broadcast proof fn update_leased_goes_on(id: Seq<char>, body: JsonView, s: Script)
    ensures
        extends(s, #[trigger] page::update_leased_run(id, body, s).0),
        forall|more: Seq<ReplyView>| goes_on(
            more,
            page::update_leased_run(id, body, s),
            #[trigger] page::update_leased_run(id, body, later(s, more)),
        ),
{
    broadcast use {ask_goes_on, load_orchestrator_goes_on, save_orchestrator_goes_on};

}

#[verifier::rlimit(60)]
broadcast proof fn update_route_goes_on(id: Seq<char>, body: JsonView, s: Script)
    ensures
        extends(s, #[trigger] page::update_route_run(id, body, s).0),
        forall|more: Seq<ReplyView>| goes_on(
            more,
            page::update_route_run(id, body, s),
            #[trigger] page::update_route_run(id, body, later(s, more)),
        ),
{
    broadcast use {ask_goes_on, update_leased_goes_on};

}

broadcast proof fn delete_leased_goes_on(id: Seq<char>, s: Script)
    ensures
        extends(s, #[trigger] page::delete_leased_run(id, s).0),
        forall|more: Seq<ReplyView>| goes_on(
            more,
            page::delete_leased_run(id, s),
            #[trigger] page::delete_leased_run(id, later(s, more)),
        ),
{
    broadcast use {ask_goes_on, store_delete_goes_on};

}

broadcast proof fn delete_route_goes_on(id: Seq<char>, s: Script)
    ensures
        extends(s, #[trigger] page::delete_route_run(id, s).0),
        forall|more: Seq<ReplyView>| goes_on(
            more,
            page::delete_route_run(id, s),
            #[trigger] page::delete_route_run(id, later(s, more)),
        ),
{
    broadcast use {ask_goes_on, delete_leased_goes_on};

}

broadcast proof fn pause_leased_goes_on(id: Seq<char>, body: JsonView, s: Script)
    ensures
        extends(s, #[trigger] page::pause_leased_run(id, body, s).0),
        forall|more: Seq<ReplyView>| goes_on(
            more,
            page::pause_leased_run(id, body, s),
            #[trigger] page::pause_leased_run(id, body, later(s, more)),
        ),
{
    broadcast use {ask_goes_on, load_orchestrator_goes_on, save_orchestrator_goes_on};

}

broadcast proof fn pause_route_goes_on(id: Seq<char>, body: JsonView, s: Script)
    ensures
        extends(s, #[trigger] page::pause_route_run(id, body, s).0),
        forall|more: Seq<ReplyView>| goes_on(
            more,
            page::pause_route_run(id, body, s),
            #[trigger] page::pause_route_run(id, body, later(s, more)),
        ),
{
    broadcast use {ask_goes_on, pause_leased_goes_on};

}

broadcast proof fn pause_all_goes_on(body: JsonView, s: Script)
    ensures
        extends(s, #[trigger] page::pause_all_run(body, s).0),
        forall|more: Seq<ReplyView>| goes_on(
            more,
            page::pause_all_run(body, s),
            #[trigger] page::pause_all_run(body, later(s, more)),
        ),
{
    broadcast use {ask_goes_on, set_global_paused_goes_on};

}

broadcast proof fn pickers_route_goes_on(s: Script)
    ensures
        extends(s, #[trigger] page::pickers_route_run(s).0),
        forall|more: Seq<ReplyView>| goes_on(
            more,
            page::pickers_route_run(s),
            #[trigger] page::pickers_route_run(later(s, more)),
        ),
{
    broadcast use {ask_goes_on};

}

broadcast proof fn one_route_goes_on(id: Seq<char>, verb: Seq<char>, body: JsonView, s: Script)
    ensures
        extends(s, #[trigger] page::one_route_run(id, verb, body, s).0),
        forall|more: Seq<ReplyView>| goes_on(
            more,
            page::one_route_run(id, verb, body, s),
            #[trigger] page::one_route_run(id, verb, body, later(s, more)),
        ),
{
    broadcast use {
        ask_goes_on,
        delete_route_goes_on,
        run_now_goes_on,
        dry_run_goes_on,
        pause_route_goes_on,
    };

}

broadcast proof fn route_goes_on(method: Seq<char>, segs: Seq<Seq<char>>, body: JsonView, s: Script)
    ensures
        extends(s, #[trigger] page::route_run(method, segs, body, s).0),
        forall|more: Seq<ReplyView>| goes_on(
            more,
            page::route_run(method, segs, body, s),
            #[trigger] page::route_run(method, segs, body, later(s, more)),
        ),
{
    broadcast use {
        ask_goes_on,
        list_route_goes_on,
        pickers_route_goes_on,
        create_route_goes_on,
        pause_all_goes_on,
        update_route_goes_on,
        one_route_goes_on,
    };

}

broadcast proof fn serve_route_goes_on(
    method: Seq<char>,
    path: Seq<char>,
    body: JsonView,
    s: Script,
)
    ensures
        extends(s, #[trigger] page::serve_route_run(method, path, body, s).0),
        forall|more: Seq<ReplyView>| goes_on(
            more,
            page::serve_route_run(method, path, body, s),
            #[trigger] page::serve_route_run(method, path, body, later(s, more)),
        ),
{
    broadcast use {ask_goes_on, route_goes_on};

}

broadcast proof fn serve_authed_goes_on(payload: JsonView, s: Script)
    ensures
        extends(s, #[trigger] page::serve_authed_run(payload, s).0),
        forall|more: Seq<ReplyView>| goes_on(
            more,
            page::serve_authed_run(payload, s),
            #[trigger] page::serve_authed_run(payload, later(s, more)),
        ),
{
    broadcast use {ask_goes_on, serve_route_goes_on};

}

// ── The hooks ───────────────────────────────────────────────────────

broadcast proof fn tool_goes_on(tool: Seq<char>, args: JsonView, s: Script)
    ensures
        extends(s, #[trigger] hooks::tool_run(tool, args, s).0),
        forall|more: Seq<ReplyView>| goes_on(
            more,
            hooks::tool_run(tool, args, s),
            #[trigger] hooks::tool_run(tool, args, later(s, more)),
        ),
{
    broadcast use {
        ask_goes_on,
        session_action_goes_on,
        send_message_goes_on,
        send_image_goes_on,
        find_session_goes_on,
        create_session_goes_on,
        assign_hat_goes_on,
        watch_session_goes_on,
        list_managed_sessions_goes_on,
        update_goal_status_goes_on,
        orchestrator_report_goes_on,
    };

}

broadcast proof fn invoke_goes_on(tool: Seq<char>, args: JsonView, s: Script)
    ensures
        extends(s, #[trigger] hooks::invoke_run(tool, args, s).0),
        forall|more: Seq<ReplyView>| goes_on(
            more,
            hooks::invoke_run(tool, args, s),
            #[trigger] hooks::invoke_run(tool, args, later(s, more)),
        ),
{
    broadcast use {ask_goes_on, tool_goes_on, attribute_action_goes_on};

}

pub broadcast proof fn handle_invoke_goes_on(payload: JsonView, s: Script)
    ensures
        extends(s, #[trigger] hooks::handle_invoke_run(payload, s).0),
        forall|more: Seq<ReplyView>| goes_on(
            more,
            hooks::handle_invoke_run(payload, s),
            #[trigger] hooks::handle_invoke_run(payload, later(s, more)),
        ),
{
    broadcast use {ask_goes_on, invoke_goes_on};

}

broadcast proof fn dispatch_goes_on(hook: Seq<char>, payload: JsonView, s: Script)
    ensures
        extends(s, #[trigger] hooks::dispatch_run(hook, payload, s).0),
        forall|more: Seq<ReplyView>| goes_on(
            more,
            hooks::dispatch_run(hook, payload, s),
            #[trigger] hooks::dispatch_run(hook, payload, later(s, more)),
        ),
{
    broadcast use {
        ask_goes_on,
        handle_invoke_goes_on,
        on_timer_tick_goes_on,
        on_agent_ended_goes_on,
        on_message_before_goes_on,
        serve_authed_goes_on,
    };

}

/// With more answers a hook asks what it asked before, and then goes on; once
/// it has come to its verdict, more answers change nothing.
pub proof fn hooks_go_on(hook: Seq<char>, payload: JsonView, s: Script, more: Seq<ReplyView>)
    ensures
        goes_on(
            more,
            hooks::dispatch_run(hook, payload, s),
            hooks::dispatch_run(hook, payload, later(s, more)),
        ),
{
    dispatch_goes_on(hook, payload, s);
}

} // verus!

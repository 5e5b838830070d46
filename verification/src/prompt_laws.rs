//! What prompts say: the variables of a template, the standing prompt, the
//! standards, and the words for triggers, estimates and hats.

use vstd::prelude::*;

use crate::engine::{self, TriggerView};
use crate::orch_tools;
use crate::records::{EtaView, OrchestratorView, PendingView, StandardsView};
use crate::text;
use crate::text_laws;

verus! {

// ── Templates ─────────────────────────────────────────────────────────

/// The text holds no opening brace.
pub open spec fn plain(s: Seq<char>) -> bool {
    forall|i: int| 0 <= i < s.len() ==> #[trigger] s[i] != '{'
}

/// A variable of a template: a name between double braces.
pub open spec fn variable(v: Seq<char>) -> bool {
    &&& v.len() > 4
    &&& v[0] == '{' && v[1] == '{'
    &&& forall|i: int| 2 <= i < v.len() ==> #[trigger] v[i] != '{'
}

/// The text, or `default` where there is none.
pub open spec fn or_text(s: Option<Seq<char>>, default: Seq<char>) -> Seq<char> {
    match s {
        Some(s) => s,
        None => default,
    }
}

/// A text without opening braces is left alone by every variable.
proof fn plain_text_is_left_alone(s: Seq<char>, v: Seq<char>, to: Seq<char>)
    requires
        plain(s),
        variable(v),
    ensures
        text::replace_all(s, v, to) == s,
{
    assert forall|i: int| 0 <= i && i + v.len() <= s.len() implies #[trigger] s.subrange(
        i,
        i + v.len(),
    ) != v by {
        assert(s.subrange(i, i + v.len())[0] == s[i]);
    }
    text_laws::replacing_what_is_absent_changes_nothing(s, v, to);
}

/// A variable between plain texts is the only place where a variable can stand.
proof fn other_places_hold_no_variable(
    a: Seq<char>,
    v: Seq<char>,
    b: Seq<char>,
    w: Seq<char>,
    i: int,
)
    requires
        plain(a),
        plain(b),
        variable(v),
        variable(w),
        0 <= i,
        i + w.len() <= (a + v + b).len(),
        i != a.len(),
    ensures
        (a + v + b).subrange(i, i + w.len()) != w,
{
    let s = a + v + b;
    let x = s.subrange(i, i + w.len());
    assert(x[0] == s[i] && x[1] == s[i + 1]);
    if i < a.len() {
        assert(s[i] == a[i]);
    } else if i < a.len() + v.len() {
        assert(s[i] == v[i - a.len()]);
        if i == a.len() + 1 {
            assert(s[i + 1] == v[2]);
        }
    } else {
        assert(s[i] == b[i - a.len() - v.len()]);
    }
}

/// Another variable leaves a variable between plain texts alone.
proof fn other_variables_are_left_alone(
    a: Seq<char>,
    v: Seq<char>,
    b: Seq<char>,
    w: Seq<char>,
    to: Seq<char>,
    k: int,
)
    requires
        plain(a),
        plain(b),
        variable(v),
        variable(w),
        2 <= k < v.len(),
        k < w.len(),
        v[k] != w[k],
    ensures
        text::replace_all(a + v + b, w, to) == a + v + b,
{
    let s = a + v + b;
    assert forall|i: int| 0 <= i && i + w.len() <= s.len() implies #[trigger] s.subrange(
        i,
        i + w.len(),
    ) != w by {
        if i == a.len() {
            assert(s.subrange(i, i + w.len())[k] == s[i + k]);
            assert(s[i + k] == v[k]);
        } else {
            other_places_hold_no_variable(a, v, b, w, i);
        }
    }
    text_laws::replacing_what_is_absent_changes_nothing(s, w, to);
}

/// A variable between plain texts is replaced by its value.
proof fn variable_is_filled(a: Seq<char>, v: Seq<char>, b: Seq<char>, to: Seq<char>)
    requires
        plain(a),
        plain(b),
        variable(v),
    ensures
        text::replace_all(a + v + b, v, to) == a + to + b,
{
    let s = a + v + b;
    assert forall|i: int| 0 <= i < a.len() && i + v.len() <= s.len() implies #[trigger] s.subrange(
        i,
        i + v.len(),
    ) != v by {
        other_places_hold_no_variable(a, v, b, v, i);
    }
    text_laws::first_occurrence_is_replaced(a, v, b, to);
    plain_text_is_left_alone(b, v, to);
}

/// Plain texts make a plain text.
proof fn plain_texts_join(a: Seq<char>, to: Seq<char>, b: Seq<char>)
    requires
        plain(a),
        plain(to),
        plain(b),
    ensures
        plain(a + to + b),
{
    let s = a + to + b;
    assert forall|i: int| 0 <= i < s.len() implies #[trigger] s[i] != '{' by {
        if i < a.len() {
            assert(s[i] == a[i]);
        } else if i < a.len() + to.len() {
            assert(s[i] == to[i - a.len()]);
        } else {
            assert(s[i] == b[i - a.len() - to.len()]);
        }
    }
}

/// The names of the variables.
proof fn variables_are_variables()
    ensures
        variable("{{trigger}}"@),
        variable("{{session_name}}"@),
        variable("{{outcome}}"@),
        variable("{{goal}}"@),
        variable("{{watched_busy_count}}"@),
        variable("{{pending}}"@),
        variable("{{eta}}"@),
        variable("{{standards}}"@),
{
    reveal_strlit("{{trigger}}");
    reveal_strlit("{{session_name}}");
    reveal_strlit("{{outcome}}");
    reveal_strlit("{{goal}}");
    reveal_strlit("{{watched_busy_count}}");
    reveal_strlit("{{pending}}");
    reveal_strlit("{{eta}}");
    reveal_strlit("{{standards}}");
    assert("{{trigger}}"@.len() == 11);
    assert("{{session_name}}"@.len() == 16);
    assert("{{outcome}}"@.len() == 11);
    assert("{{goal}}"@.len() == 8);
    assert("{{watched_busy_count}}"@.len() == 22);
    assert("{{pending}}"@.len() == 11);
    assert("{{eta}}"@.len() == 7);
    assert("{{standards}}"@.len() == 13);
}

/// A template that is not blank.
proof fn braces_are_not_blank(a: Seq<char>, v: Seq<char>, b: Seq<char>)
    requires
        variable(v),
    ensures
        !text::blank(a + v + b),
{
    assert((a + v + b)[a.len() as int] == '{');
}

/// The variable `{{trigger}}` stands for what set the fire off.
pub proof fn trigger_is_filled_in(
    o: OrchestratorView,
    t: TriggerView,
    busy: nat,
    a: Seq<char>,
    b: Seq<char>,
)
    requires
        plain(a),
        plain(b),
        o.prompt == a + "{{trigger}}"@ + b,
        plain(engine::trigger_text(t)),
    ensures
        engine::rendered(o, t, busy) == a + engine::trigger_text(t) + b,
{
    variables_are_variables();
    let v = "{{trigger}}"@;
    let to = engine::trigger_text(t);
    braces_are_not_blank(a, v, b);
    reveal_strlit("{{trigger}}");
    reveal_strlit("{{session_name}}");
    reveal_strlit("{{outcome}}");
    reveal_strlit("{{goal}}");
    reveal_strlit("{{watched_busy_count}}");
    reveal_strlit("{{pending}}");
    reveal_strlit("{{eta}}");
    reveal_strlit("{{standards}}");
    variable_is_filled(a, v, b, to);
    plain_texts_join(a, to, b);
    plain_text_is_left_alone(a + to + b, "{{session_name}}"@, or_text(t.session_name, ""@));
    plain_text_is_left_alone(a + to + b, "{{outcome}}"@, or_text(t.outcome, ""@));
    plain_text_is_left_alone(a + to + b, "{{goal}}"@, text::trim(o.goal));
    plain_text_is_left_alone(a + to + b, "{{watched_busy_count}}"@, text::decimal(busy));
    plain_text_is_left_alone(a + to + b, "{{pending}}"@, engine::pending_text(t.pending));
    plain_text_is_left_alone(a + to + b, "{{eta}}"@, engine::eta_text(o));
    plain_text_is_left_alone(a + to + b, "{{standards}}"@, engine::standards(o.standards));
}

/// The variable `{{session_name}}` stands for the name of the session that the
/// trigger is about; for nothing where it is about none.
pub proof fn session_name_is_filled_in(
    o: OrchestratorView,
    t: TriggerView,
    busy: nat,
    a: Seq<char>,
    b: Seq<char>,
)
    requires
        plain(a),
        plain(b),
        o.prompt == a + "{{session_name}}"@ + b,
        plain(or_text(t.session_name, ""@)),
    ensures
        engine::rendered(o, t, busy) == a + or_text(t.session_name, ""@) + b,
{
    variables_are_variables();
    let v = "{{session_name}}"@;
    let to = or_text(t.session_name, ""@);
    braces_are_not_blank(a, v, b);
    reveal_strlit("{{trigger}}");
    reveal_strlit("{{session_name}}");
    reveal_strlit("{{outcome}}");
    reveal_strlit("{{goal}}");
    reveal_strlit("{{watched_busy_count}}");
    reveal_strlit("{{pending}}");
    reveal_strlit("{{eta}}");
    reveal_strlit("{{standards}}");
    assert("{{session_name}}"@[2] == 's' && "{{trigger}}"@[2] == 't');
    other_variables_are_left_alone(a, v, b, "{{trigger}}"@, engine::trigger_text(t), 2);
    variable_is_filled(a, v, b, to);
    plain_texts_join(a, to, b);
    plain_text_is_left_alone(a + to + b, "{{outcome}}"@, or_text(t.outcome, ""@));
    plain_text_is_left_alone(a + to + b, "{{goal}}"@, text::trim(o.goal));
    plain_text_is_left_alone(a + to + b, "{{watched_busy_count}}"@, text::decimal(busy));
    plain_text_is_left_alone(a + to + b, "{{pending}}"@, engine::pending_text(t.pending));
    plain_text_is_left_alone(a + to + b, "{{eta}}"@, engine::eta_text(o));
    plain_text_is_left_alone(a + to + b, "{{standards}}"@, engine::standards(o.standards));
}

/// The variable `{{outcome}}` stands for how the turn ended; for nothing where no
/// turn ended.
pub proof fn outcome_is_filled_in(
    o: OrchestratorView,
    t: TriggerView,
    busy: nat,
    a: Seq<char>,
    b: Seq<char>,
)
    requires
        plain(a),
        plain(b),
        o.prompt == a + "{{outcome}}"@ + b,
        plain(or_text(t.outcome, ""@)),
    ensures
        engine::rendered(o, t, busy) == a + or_text(t.outcome, ""@) + b,
{
    variables_are_variables();
    let v = "{{outcome}}"@;
    let to = or_text(t.outcome, ""@);
    braces_are_not_blank(a, v, b);
    reveal_strlit("{{trigger}}");
    reveal_strlit("{{session_name}}");
    reveal_strlit("{{outcome}}");
    reveal_strlit("{{goal}}");
    reveal_strlit("{{watched_busy_count}}");
    reveal_strlit("{{pending}}");
    reveal_strlit("{{eta}}");
    reveal_strlit("{{standards}}");
    assert("{{outcome}}"@[2] == 'o' && "{{trigger}}"@[2] == 't');
    other_variables_are_left_alone(a, v, b, "{{trigger}}"@, engine::trigger_text(t), 2);
    assert("{{outcome}}"@[2] == 'o' && "{{session_name}}"@[2] == 's');
    other_variables_are_left_alone(a, v, b, "{{session_name}}"@, or_text(t.session_name, ""@), 2);
    variable_is_filled(a, v, b, to);
    plain_texts_join(a, to, b);
    plain_text_is_left_alone(a + to + b, "{{goal}}"@, text::trim(o.goal));
    plain_text_is_left_alone(a + to + b, "{{watched_busy_count}}"@, text::decimal(busy));
    plain_text_is_left_alone(a + to + b, "{{pending}}"@, engine::pending_text(t.pending));
    plain_text_is_left_alone(a + to + b, "{{eta}}"@, engine::eta_text(o));
    plain_text_is_left_alone(a + to + b, "{{standards}}"@, engine::standards(o.standards));
}

/// The variable `{{goal}}` stands for the goal, without white space around it.
pub proof fn goal_is_filled_in(
    o: OrchestratorView,
    t: TriggerView,
    busy: nat,
    a: Seq<char>,
    b: Seq<char>,
)
    requires
        plain(a),
        plain(b),
        o.prompt == a + "{{goal}}"@ + b,
        plain(text::trim(o.goal)),
    ensures
        engine::rendered(o, t, busy) == a + text::trim(o.goal) + b,
{
    variables_are_variables();
    let v = "{{goal}}"@;
    let to = text::trim(o.goal);
    braces_are_not_blank(a, v, b);
    reveal_strlit("{{trigger}}");
    reveal_strlit("{{session_name}}");
    reveal_strlit("{{outcome}}");
    reveal_strlit("{{goal}}");
    reveal_strlit("{{watched_busy_count}}");
    reveal_strlit("{{pending}}");
    reveal_strlit("{{eta}}");
    reveal_strlit("{{standards}}");
    assert("{{goal}}"@[2] == 'g' && "{{trigger}}"@[2] == 't');
    other_variables_are_left_alone(a, v, b, "{{trigger}}"@, engine::trigger_text(t), 2);
    assert("{{goal}}"@[2] == 'g' && "{{session_name}}"@[2] == 's');
    other_variables_are_left_alone(a, v, b, "{{session_name}}"@, or_text(t.session_name, ""@), 2);
    assert("{{goal}}"@[2] == 'g' && "{{outcome}}"@[2] == 'o');
    other_variables_are_left_alone(a, v, b, "{{outcome}}"@, or_text(t.outcome, ""@), 2);
    variable_is_filled(a, v, b, to);
    plain_texts_join(a, to, b);
    plain_text_is_left_alone(a + to + b, "{{watched_busy_count}}"@, text::decimal(busy));
    plain_text_is_left_alone(a + to + b, "{{pending}}"@, engine::pending_text(t.pending));
    plain_text_is_left_alone(a + to + b, "{{eta}}"@, engine::eta_text(o));
    plain_text_is_left_alone(a + to + b, "{{standards}}"@, engine::standards(o.standards));
}

/// The variable `{{watched_busy_count}}` stands for the number of managed
/// sessions that are busy.
pub proof fn watched_busy_count_is_filled_in(
    o: OrchestratorView,
    t: TriggerView,
    busy: nat,
    a: Seq<char>,
    b: Seq<char>,
)
    requires
        plain(a),
        plain(b),
        o.prompt == a + "{{watched_busy_count}}"@ + b,
        plain(text::decimal(busy)),
    ensures
        engine::rendered(o, t, busy) == a + text::decimal(busy) + b,
{
    variables_are_variables();
    let v = "{{watched_busy_count}}"@;
    let to = text::decimal(busy);
    braces_are_not_blank(a, v, b);
    reveal_strlit("{{trigger}}");
    reveal_strlit("{{session_name}}");
    reveal_strlit("{{outcome}}");
    reveal_strlit("{{goal}}");
    reveal_strlit("{{watched_busy_count}}");
    reveal_strlit("{{pending}}");
    reveal_strlit("{{eta}}");
    reveal_strlit("{{standards}}");
    assert("{{watched_busy_count}}"@[2] == 'w' && "{{trigger}}"@[2] == 't');
    other_variables_are_left_alone(a, v, b, "{{trigger}}"@, engine::trigger_text(t), 2);
    assert("{{watched_busy_count}}"@[2] == 'w' && "{{session_name}}"@[2] == 's');
    other_variables_are_left_alone(a, v, b, "{{session_name}}"@, or_text(t.session_name, ""@), 2);
    assert("{{watched_busy_count}}"@[2] == 'w' && "{{outcome}}"@[2] == 'o');
    other_variables_are_left_alone(a, v, b, "{{outcome}}"@, or_text(t.outcome, ""@), 2);
    assert("{{watched_busy_count}}"@[2] == 'w' && "{{goal}}"@[2] == 'g');
    other_variables_are_left_alone(a, v, b, "{{goal}}"@, text::trim(o.goal), 2);
    variable_is_filled(a, v, b, to);
    plain_texts_join(a, to, b);
    plain_text_is_left_alone(a + to + b, "{{pending}}"@, engine::pending_text(t.pending));
    plain_text_is_left_alone(a + to + b, "{{eta}}"@, engine::eta_text(o));
    plain_text_is_left_alone(a + to + b, "{{standards}}"@, engine::standards(o.standards));
}

/// The variable `{{pending}}` stands for the triggers that waited.
pub proof fn pending_is_filled_in(
    o: OrchestratorView,
    t: TriggerView,
    busy: nat,
    a: Seq<char>,
    b: Seq<char>,
)
    requires
        plain(a),
        plain(b),
        o.prompt == a + "{{pending}}"@ + b,
        plain(engine::pending_text(t.pending)),
    ensures
        engine::rendered(o, t, busy) == a + engine::pending_text(t.pending) + b,
{
    variables_are_variables();
    let v = "{{pending}}"@;
    let to = engine::pending_text(t.pending);
    braces_are_not_blank(a, v, b);
    reveal_strlit("{{trigger}}");
    reveal_strlit("{{session_name}}");
    reveal_strlit("{{outcome}}");
    reveal_strlit("{{goal}}");
    reveal_strlit("{{watched_busy_count}}");
    reveal_strlit("{{pending}}");
    reveal_strlit("{{eta}}");
    reveal_strlit("{{standards}}");
    assert("{{pending}}"@[2] == 'p' && "{{trigger}}"@[2] == 't');
    other_variables_are_left_alone(a, v, b, "{{trigger}}"@, engine::trigger_text(t), 2);
    assert("{{pending}}"@[2] == 'p' && "{{session_name}}"@[2] == 's');
    other_variables_are_left_alone(a, v, b, "{{session_name}}"@, or_text(t.session_name, ""@), 2);
    assert("{{pending}}"@[2] == 'p' && "{{outcome}}"@[2] == 'o');
    other_variables_are_left_alone(a, v, b, "{{outcome}}"@, or_text(t.outcome, ""@), 2);
    assert("{{pending}}"@[2] == 'p' && "{{goal}}"@[2] == 'g');
    other_variables_are_left_alone(a, v, b, "{{goal}}"@, text::trim(o.goal), 2);
    assert("{{pending}}"@[2] == 'p' && "{{watched_busy_count}}"@[2] == 'w');
    other_variables_are_left_alone(a, v, b, "{{watched_busy_count}}"@, text::decimal(busy), 2);
    variable_is_filled(a, v, b, to);
    plain_texts_join(a, to, b);
    plain_text_is_left_alone(a + to + b, "{{eta}}"@, engine::eta_text(o));
    plain_text_is_left_alone(a + to + b, "{{standards}}"@, engine::standards(o.standards));
}

/// The variable `{{eta}}` stands for the last estimate.
pub proof fn eta_is_filled_in(
    o: OrchestratorView,
    t: TriggerView,
    busy: nat,
    a: Seq<char>,
    b: Seq<char>,
)
    requires
        plain(a),
        plain(b),
        o.prompt == a + "{{eta}}"@ + b,
        plain(engine::eta_text(o)),
    ensures
        engine::rendered(o, t, busy) == a + engine::eta_text(o) + b,
{
    variables_are_variables();
    let v = "{{eta}}"@;
    let to = engine::eta_text(o);
    braces_are_not_blank(a, v, b);
    reveal_strlit("{{trigger}}");
    reveal_strlit("{{session_name}}");
    reveal_strlit("{{outcome}}");
    reveal_strlit("{{goal}}");
    reveal_strlit("{{watched_busy_count}}");
    reveal_strlit("{{pending}}");
    reveal_strlit("{{eta}}");
    reveal_strlit("{{standards}}");
    assert("{{eta}}"@[2] == 'e' && "{{trigger}}"@[2] == 't');
    other_variables_are_left_alone(a, v, b, "{{trigger}}"@, engine::trigger_text(t), 2);
    assert("{{eta}}"@[2] == 'e' && "{{session_name}}"@[2] == 's');
    other_variables_are_left_alone(a, v, b, "{{session_name}}"@, or_text(t.session_name, ""@), 2);
    assert("{{eta}}"@[2] == 'e' && "{{outcome}}"@[2] == 'o');
    other_variables_are_left_alone(a, v, b, "{{outcome}}"@, or_text(t.outcome, ""@), 2);
    assert("{{eta}}"@[2] == 'e' && "{{goal}}"@[2] == 'g');
    other_variables_are_left_alone(a, v, b, "{{goal}}"@, text::trim(o.goal), 2);
    assert("{{eta}}"@[2] == 'e' && "{{watched_busy_count}}"@[2] == 'w');
    other_variables_are_left_alone(a, v, b, "{{watched_busy_count}}"@, text::decimal(busy), 2);
    assert("{{eta}}"@[2] == 'e' && "{{pending}}"@[2] == 'p');
    other_variables_are_left_alone(a, v, b, "{{pending}}"@, engine::pending_text(t.pending), 2);
    variable_is_filled(a, v, b, to);
    plain_texts_join(a, to, b);
    plain_text_is_left_alone(a + to + b, "{{standards}}"@, engine::standards(o.standards));
}

/// The variable `{{standards}}` stands for the standards.
pub proof fn standards_is_filled_in(
    o: OrchestratorView,
    t: TriggerView,
    busy: nat,
    a: Seq<char>,
    b: Seq<char>,
)
    requires
        plain(a),
        plain(b),
        o.prompt == a + "{{standards}}"@ + b,
        plain(engine::standards(o.standards)),
    ensures
        engine::rendered(o, t, busy) == a + engine::standards(o.standards) + b,
{
    variables_are_variables();
    let v = "{{standards}}"@;
    let to = engine::standards(o.standards);
    braces_are_not_blank(a, v, b);
    reveal_strlit("{{trigger}}");
    reveal_strlit("{{session_name}}");
    reveal_strlit("{{outcome}}");
    reveal_strlit("{{goal}}");
    reveal_strlit("{{watched_busy_count}}");
    reveal_strlit("{{pending}}");
    reveal_strlit("{{eta}}");
    reveal_strlit("{{standards}}");
    assert("{{standards}}"@[2] == 's' && "{{trigger}}"@[2] == 't');
    other_variables_are_left_alone(a, v, b, "{{trigger}}"@, engine::trigger_text(t), 2);
    assert("{{standards}}"@[3] == 't' && "{{session_name}}"@[3] == 'e');
    other_variables_are_left_alone(a, v, b, "{{session_name}}"@, or_text(t.session_name, ""@), 3);
    assert("{{standards}}"@[2] == 's' && "{{outcome}}"@[2] == 'o');
    other_variables_are_left_alone(a, v, b, "{{outcome}}"@, or_text(t.outcome, ""@), 2);
    assert("{{standards}}"@[2] == 's' && "{{goal}}"@[2] == 'g');
    other_variables_are_left_alone(a, v, b, "{{goal}}"@, text::trim(o.goal), 2);
    assert("{{standards}}"@[2] == 's' && "{{watched_busy_count}}"@[2] == 'w');
    other_variables_are_left_alone(a, v, b, "{{watched_busy_count}}"@, text::decimal(busy), 2);
    assert("{{standards}}"@[2] == 's' && "{{pending}}"@[2] == 'p');
    other_variables_are_left_alone(a, v, b, "{{pending}}"@, engine::pending_text(t.pending), 2);
    assert("{{standards}}"@[2] == 's' && "{{eta}}"@[2] == 'e');
    other_variables_are_left_alone(a, v, b, "{{eta}}"@, engine::eta_text(o), 2);
    variable_is_filled(a, v, b, to);
    plain_texts_join(a, to, b);
}

/// A template without variables is the prompt as it stands.
pub proof fn plain_templates_are_sent_as_they_stand(
    o: OrchestratorView,
    t: TriggerView,
    busy: nat,
)
    requires
        plain(o.prompt),
        !text::blank(o.prompt),
    ensures
        engine::rendered(o, t, busy) == o.prompt,
{
    variables_are_variables();
    plain_text_is_left_alone(o.prompt, "{{trigger}}"@, engine::trigger_text(t));
    plain_text_is_left_alone(o.prompt, "{{session_name}}"@, or_text(t.session_name, ""@));
    plain_text_is_left_alone(o.prompt, "{{outcome}}"@, or_text(t.outcome, ""@));
    plain_text_is_left_alone(o.prompt, "{{goal}}"@, text::trim(o.goal));
    plain_text_is_left_alone(o.prompt, "{{watched_busy_count}}"@, text::decimal(busy));
    plain_text_is_left_alone(o.prompt, "{{pending}}"@, engine::pending_text(t.pending));
    plain_text_is_left_alone(o.prompt, "{{eta}}"@, engine::eta_text(o));
    plain_text_is_left_alone(o.prompt, "{{standards}}"@, engine::standards(o.standards));
}

/// Without a template of its own an orchestrator sends the standard one, which
/// names the trigger and asks for a review of the state and for reports.
pub proof fn blank_templates_are_the_standard_one(
    o: OrchestratorView,
    t: TriggerView,
    busy: nat,
    other: Seq<char>,
)
    requires
        text::blank(o.prompt),
        plain(engine::trigger_text(t)),
    ensures
        engine::rendered(o, t, busy) == "Trigger: "@ + engine::trigger_text(t)
            + ". Review the state of your goal and managed sessions, act on anything that needs you, and report via orchestrator_report + update_goal_status."@,
        text::blank(other) ==> engine::rendered(OrchestratorView { prompt: other, ..o }, t, busy)
            == engine::rendered(o, t, busy),
{
    let a = "Trigger: "@;
    let v = "{{trigger}}"@;
    let b = ". Review the state of your goal and managed sessions, act on anything that needs you, and report via orchestrator_report + update_goal_status."@;
    reveal_strlit("Trigger: ");
    reveal_strlit("{{trigger}}");
    reveal_strlit(
        ". Review the state of your goal and managed sessions, act on anything that needs you, and report via orchestrator_report + update_goal_status.",
    );
    reveal_strlit(
        "Trigger: {{trigger}}. Review the state of your goal and managed sessions, act on \
anything that needs you, and report via orchestrator_report + update_goal_status.",
    );
    assert(engine::DEFAULT_PROMPT@ =~= a + v + b);
    let p = OrchestratorView { prompt: a + v + b, ..o };
    trigger_is_filled_in(p, t, busy, a, b);
    braces_are_not_blank(a, v, b);
    assert(engine::rendered(o, t, busy) == engine::rendered(p, t, busy));
}

// ── Words ─────────────────────────────────────────────────────────────

/// The words for a trigger: an idle session with its name and how its turn
/// ended, what waited with its number, and else the kind.
pub proof fn triggers_are_worded(t: TriggerView)
    ensures
        t.kind == "session_idle"@ ==> engine::trigger_text(t) == "watched session \""@ + or_text(
            t.session_name,
            "?"@,
        ) + "\" finished its turn ("@ + or_text(t.outcome, "?"@) + ")"@ && engine::fired_text(t)
            == "watched session \""@ + or_text(t.session_name, "?"@) + "\" went idle ("@ + or_text(
            t.outcome,
            "?"@,
        ) + ")"@,
        t.kind == "coalesced"@ ==> engine::trigger_text(t) == text::decimal(t.pending.len())
            + " events while you were busy: "@ + engine::pending_text(t.pending)
            && engine::fired_text(t) == "delivered "@ + text::decimal(
            if t.pending.len() == 0 {
                1
            } else {
                t.pending.len()
            },
        ) + " coalesced trigger(s)"@,
        t.kind != "session_idle"@ && t.kind != "coalesced"@ ==> engine::trigger_text(t) == t.kind
            && engine::fired_text(t) == "trigger: "@ + t.kind,
{
    reveal_strlit("session_idle");
    reveal_strlit("coalesced");
    assert("session_idle"@.len() != "coalesced"@.len());
}

/// The triggers that a fire is made of: about no session, what waited, or an
/// idle session with its id, name and outcome.
pub proof fn triggers_say_what_they_are_about(
    kind: Seq<char>,
    pending: Seq<PendingView>,
    id: Seq<char>,
    name: Seq<char>,
    outcome: Seq<char>,
)
    ensures
        TriggerView::simple(kind) == (TriggerView {
            kind: kind,
            session_id: None,
            session_name: None,
            outcome: None,
            pending: Seq::empty(),
        }),
        TriggerView::coalesced(pending) == (TriggerView {
            kind: "coalesced"@,
            session_id: None,
            session_name: None,
            outcome: None,
            pending: pending,
        }),
        TriggerView::session_idle(id, name, outcome) == (TriggerView {
            kind: "session_idle"@,
            session_id: Some(id),
            session_name: Some(name),
            outcome: Some(outcome),
            pending: Seq::empty(),
        }),
{
}

/// The triggers that waited are told one after the other, each with its kind,
/// its session and how the turn ended.
pub proof fn waiting_triggers_are_worded(queue: Seq<PendingView>, p: PendingView)
    ensures
        engine::pending_text(Seq::empty()) == "none"@,
        engine::pending_text(seq![p]) == p.kind + " \""@ + or_text(p.session_name, "?"@) + "\" ("@
            + or_text(p.outcome, "-"@) + ")"@,
        queue.len() > 0 ==> engine::pending_text(queue.push(p)) == engine::pending_text(queue)
            + "; "@ + engine::pending_text(seq![p]),
{
    let words = |q: Seq<PendingView>| Seq::new(q.len(), |i: int| engine::pending_words(q[i]));
    assert(words(seq![p]) =~= seq![engine::pending_words(p)]);
    assert(words(queue.push(p)) =~= words(queue).push(engine::pending_words(p)));
    text_laws::joining_separates(words(queue), engine::pending_words(p), "; "@);
}

/// The words for an estimate: the minutes that remain, when that will be, and
/// when it was estimated.
pub proof fn estimates_are_worded(o: OrchestratorView, e: EtaView)
    ensures
        o.goal_status.eta == Some(e) ==> engine::eta_text(o) == text::decimal(
            e.minutes_remaining as nat,
        ) + " min remaining (projected "@ + e.projected_at + ", estimated at "@ + e.updated_at
            + ")"@,
        o.goal_status.eta is None ==> engine::eta_text(o)
            == "no estimate yet — produce one via update_goal_status"@,
{
}

// ── Standards and standing prompt ─────────────────────────────────────

/// A line, behind a line break, where it is switched on.
pub open spec fn line_behind(on: bool, line: Seq<char>) -> Seq<char> {
    if on {
        "\n"@ + line
    } else {
        Seq::empty()
    }
}

/// One line more behind others.
proof fn line_is_joined(lines: Seq<Seq<char>>, on: bool, line: Seq<char>)
    requires
        lines.len() > 0,
    ensures
        text::joined(lines + engine::line_if(on, line), "\n"@) == text::joined(lines, "\n"@)
            + line_behind(on, line),
{
    if on {
        assert(lines + seq![line] =~= lines.push(line));
        text_laws::joining_separates(lines, line, "\n"@);
        assert(text::joined(lines, "\n"@) + "\n"@ + line =~= text::joined(lines, "\n"@) + ("\n"@
            + line));
    } else {
        assert(lines + Seq::<Seq<char>>::empty() =~= lines);
        assert(text::joined(lines, "\n"@) + Seq::<char>::empty() =~= text::joined(lines, "\n"@));
    }
}

/// The standards are empty where none is asked for. Else they are the heading,
/// a line for each one that is switched on, the custom one where it is not
/// blank, and the closing line.
pub proof fn standards_follow_their_switches(s: StandardsView)
    ensures
        !s.dev && !s.testing && !s.ux && text::trim(s.custom).len() == 0 ==> engine::standards(
            s,
        ).len() == 0,
        s.dev || s.testing || s.ux || text::trim(s.custom).len() > 0 ==> engine::standards(s)
            == engine::STANDARDS_HEAD@ + line_behind(s.dev, engine::STANDARDS_DEV@) + line_behind(
            s.testing,
            engine::STANDARDS_TESTING@,
        ) + line_behind(s.ux, engine::STANDARDS_UX@) + line_behind(
            text::trim(s.custom).len() > 0,
            "- Custom: "@ + text::trim(s.custom),
        ) + "\n"@ + engine::STANDARDS_TAIL@,
{
    text::blank_iff_trimmed_empty(s.custom);
    let custom = text::trim(s.custom).len() > 0;
    let l0 = seq![engine::STANDARDS_HEAD@];
    let l1 = l0 + engine::line_if(s.dev, engine::STANDARDS_DEV@);
    let l2 = l1 + engine::line_if(s.testing, engine::STANDARDS_TESTING@);
    let l3 = l2 + engine::line_if(s.ux, engine::STANDARDS_UX@);
    let l4 = l3 + engine::line_if(custom, "- Custom: "@ + text::trim(s.custom));
    line_is_joined(l0, s.dev, engine::STANDARDS_DEV@);
    line_is_joined(l1, s.testing, engine::STANDARDS_TESTING@);
    line_is_joined(l2, s.ux, engine::STANDARDS_UX@);
    line_is_joined(l3, custom, "- Custom: "@ + text::trim(s.custom));
    text_laws::joining_separates(l4, engine::STANDARDS_TAIL@, "\n"@);
    text_laws::joining_separates(l0, engine::STANDARDS_HEAD@, "\n"@);
}

/// The lines of the standards are about what they are named for.
pub proof fn standards_name_themselves()
    ensures
        text::begins(engine::STANDARDS_DEV@, "- Development: "@),
        text::begins(engine::STANDARDS_TESTING@, "- Testing: "@),
        text::begins(engine::STANDARDS_UX@, "- UX: "@),
{
    reveal_strlit("- Development: ");
    reveal_strlit("- Testing: ");
    reveal_strlit("- UX: ");
    reveal_strlit(
        "- Development: code builds cleanly, passes the project's linters/formatters, and \
follows the repo's existing conventions.",
    );
    reveal_strlit(
        "- Testing: unit/integration tests for new behaviour and an end-to-end test per \
user-visible flow, all passing (run the project's verification script when it has one).",
    );
    reveal_strlit(
        "- UX: UI changes are verified in a real browser, and when the ui-gauge plugin is \
installed, scored against the user's design baselines (ui_gauge_rubric → score the \
screenshots → ui_gauge_score) and at or above the bar; subpar scores create follow-up \
work you must drive.",
    );
    assert(engine::STANDARDS_DEV@.take("- Development: "@.len() as int) =~= "- Development: "@);
    assert(engine::STANDARDS_TESTING@.take("- Testing: "@.len() as int) =~= "- Testing: "@);
    assert(engine::STANDARDS_UX@.take("- UX: "@.len() as int) =~= "- UX: "@);
}

/// The standing prompt is the same for every orchestrator but for its name, its
/// goal and its standards, which stand in it in this order; a blank goal is
/// named as none.
pub proof fn standing_prompt_names_goal_and_standards(o: OrchestratorView, p: OrchestratorView)
    ensures
        exists|middle: Seq<char>, rules: Seq<char>|
            #![trigger middle + rules]
            {
                &&& engine::standing(o) == "You are the brain of the Peckboard orchestrator \""@
                    + o.name + middle + (if text::trim(o.goal).len() == 0 {
                    "(no goal set)"@
                } else {
                    text::trim(o.goal)
                }) + rules + engine::standards(o.standards)
                &&& engine::standing(p) == "You are the brain of the Peckboard orchestrator \""@
                    + p.name + middle + (if text::trim(p.goal).len() == 0 {
                    "(no goal set)"@
                } else {
                    text::trim(p.goal)
                }) + rules + engine::standards(p.standards)
            },
{
    text::blank_iff_trimmed_empty(o.goal);
    text::blank_iff_trimmed_empty(p.goal);
    let both = engine::STANDING_GOAL@ + engine::STANDING_RULES@;
}

/// The prompt of a hat names the hat, then what it is responsible for.
pub proof fn hats_name_their_scope(hat: Seq<char>, responsibilities: Seq<char>)
    ensures
        text::begins(
            orch_tools::hat_text(hat, responsibilities),
            "You are wearing the \""@ + hat
                + "\" hat — your assigned scope of responsibility.\nResponsibilities: "@
                + responsibilities + "\n"@,
        ),
{
    reveal_strlit("\n");
    let start = "You are wearing the \""@ + hat
        + "\" hat — your assigned scope of responsibility.\nResponsibilities: "@ + responsibilities;
    reveal_strlit(
        "\nStay inside this scope: do the work it covers well, and when you hit something \
outside it, report that back instead of expanding your own mandate. An orchestrator \
session manages you and reviews your output when your turn ends.",
    );
    let p = orch_tools::hat_text(hat, responsibilities);
    assert(p =~= start + orch_tools::HAT_RULES@);
    assert(p.take((start + "\n"@).len() as int) =~= start + "\n"@);
}

} // verus!

//! Laws of text and time: decimal notation, trimming, replacing, and elapsed
//! time.

use vstd::prelude::*;

use crate::text;
use crate::time;

verus! {

/// Decimal notation is made of digits, at least one of them.
pub proof fn decimal_is_digits(n: nat)
    ensures
        text::decimal(n).len() > 0,
        forall|i: int|
            0 <= i < text::decimal(n).len() ==> text::ascii_digit(#[trigger] text::decimal(n)[i]),
    decreases n,
{
    if n >= 10 {
        decimal_is_digits(n / 10);
        let front = text::decimal(n / 10);
        assert forall|i: int| 0 <= i < text::decimal(n).len() implies text::ascii_digit(
            #[trigger] text::decimal(n)[i],
        ) by {
            if i < front.len() {
                assert(text::decimal(n)[i] == front[i]);
            }
        }
    }
}

/// Different numbers have different notations.
pub proof fn decimal_is_injective(m: nat, n: nat)
    requires
        text::decimal(m) == text::decimal(n),
    ensures
        m == n,
    decreases m,
{
    decimal_is_digits(m / 10);
    decimal_is_digits(n / 10);
    let a = text::decimal(m);
    let b = text::decimal(n);
    assert(a.last() == text::digit(m % 10));
    assert(b.last() == text::digit(n % 10));
    assert(m % 10 == n % 10);
    if m < 10 {
        assert(a.len() == 1);
        if n >= 10 {
            assert(b.len() == text::decimal(n / 10).len() + 1);
        }
    } else {
        assert(a.len() == text::decimal(m / 10).len() + 1);
        if n < 10 {
            assert(b.len() == 1);
        }
        assert(a.drop_last() == text::decimal(m / 10));
        assert(b.drop_last() == text::decimal(n / 10));
        decimal_is_injective(m / 10, n / 10);
    }
}

/// A number behind the last dash of a text can be read off it.
pub proof fn number_behind_dash_is_unique(a: Seq<char>, m: nat, b: Seq<char>, n: nat)
    requires
        a + "-"@ + text::decimal(m) == b + "-"@ + text::decimal(n),
    ensures
        m == n,
{
    reveal_strlit("-");
    decimal_is_digits(m);
    decimal_is_digits(n);
    let x = a + "-"@ + text::decimal(m);
    let y = b + "-"@ + text::decimal(n);
    let p = text::decimal(m).len() as int;
    let q = text::decimal(n).len() as int;
    assert("-"@.len() == 1 && "-"@[0] == '-');
    assert(x[x.len() - 1 - p] == '-');
    assert(y[y.len() - 1 - q] == '-');
    if p < q {
        assert(y[y.len() - 1 - p] == text::decimal(n)[q - 1 - p]);
        assert(text::ascii_digit(text::decimal(n)[q - 1 - p]));
    } else if q < p {
        assert(x[x.len() - 1 - q] == text::decimal(m)[p - 1 - q]);
        assert(text::ascii_digit(text::decimal(m)[p - 1 - q]));
    }
    assert(text::decimal(m) =~= text::decimal(n)) by {
        assert forall|i: int| 0 <= i < p implies text::decimal(m)[i] == text::decimal(n)[i] by {
            assert(x[x.len() - p + i] == text::decimal(m)[i]);
            assert(y[y.len() - q + i] == text::decimal(n)[i]);
        }
    }
    decimal_is_injective(m, n);
}

/// A trimmed text begins with no white space.
proof fn trim_start_stops(s: Seq<char>)
    ensures
        text::trim_start(s).len() > 0 ==> !text::white(text::trim_start(s)[0]),
    decreases s.len(),
{
    if s.len() > 0 && text::white(s[0]) {
        trim_start_stops(s.skip(1));
    }
}

/// Cutting the end keeps the beginning, and stops before white space.
proof fn trim_end_stops(s: Seq<char>)
    ensures
        text::trim_end(s).len() <= s.len(),
        text::trim_end(s) == s.take(text::trim_end(s).len() as int),
        text::trim_end(s).len() > 0 ==> !text::white(text::trim_end(s).last()),
    decreases s.len(),
{
    if s.len() > 0 && text::white(s.last()) {
        let front = s.drop_last();
        trim_end_stops(front);
        let n = text::trim_end(front).len() as int;
        assert(front.take(n) =~= s.take(n));
    } else {
        assert(s.take(s.len() as int) =~= s);
    }
}

/// Trimming leaves no white space at either end, so trimming again changes
/// nothing.
pub proof fn trimmed_is_trimmed(s: Seq<char>)
    ensures
        text::trim(s).len() > 0 ==> !text::white(text::trim(s)[0]) && !text::white(
            text::trim(s).last(),
        ),
        text::trim(text::trim(s)) == text::trim(s),
{
    let t = text::trim_start(s);
    trim_start_stops(s);
    trim_end_stops(t);
    let r = text::trim_end(t);
    if r.len() > 0 {
        assert(r[0] == t[0]);
    }
}

/// A text in which a word does not occur is left alone by replacing it.
pub proof fn replacing_what_is_absent_changes_nothing(s: Seq<char>, from: Seq<char>, to: Seq<char>)
    requires
        from.len() > 0,
        forall|i: int|
            0 <= i && i + from.len() <= s.len() ==> #[trigger] s.subrange(i, i + from.len())
                != from,
    ensures
        text::replace_all(s, from, to) == s,
    decreases s.len(),
{
    if s.len() >= from.len() {
        assert(s.subrange(0, 0int + from.len()) != from);
        assert(s.take(from.len() as int) =~= s.subrange(0, 0int + from.len()));
        let rest = s.skip(1);
        assert forall|i: int| 0 <= i && i + from.len() <= rest.len() implies #[trigger] rest.subrange(
            i,
            i + from.len(),
        ) != from by {
            assert(rest.subrange(i, i + from.len()) =~= s.subrange(i + 1, i + 1 + from.len()));
        }
        replacing_what_is_absent_changes_nothing(rest, from, to);
        assert(seq![s[0]] + rest =~= s);
    }
}

/// No time passes between an instant and itself.
pub proof fn no_time_to_itself(ts: Seq<char>)
    ensures
        time::instant(ts) is Some ==> time::seconds(ts, ts) == Some(0int),
        time::instant(ts) is None ==> time::seconds(ts, ts) is None,
{
}

// ── What text operations do ───────────────────────────────────────────

/// White space is what Unicode calls White_Space: the ASCII controls from tab
/// to carriage return, the space, and fifteen characters beyond ASCII.
pub proof fn white_space_is_unicodes(c: char)
    ensures
        (c as u32) < 128 ==> (text::white(c) <==> c == ' ' || ('\t' <= c && c <= '\r')),
        (c as u32) >= 128 ==> (text::white(c) <==> c == '\u{85}' || c == '\u{a0}' || c
            == '\u{1680}' || ('\u{2000}' <= c && c <= '\u{200a}') || c == '\u{2028}' || c
            == '\u{2029}' || c == '\u{202f}' || c == '\u{205f}' || c == '\u{3000}'),
{
}

/// Trimming the start takes white space away, and nothing else.
proof fn trim_start_takes_white_space(s: Seq<char>)
    ensures
        text::trim_start(s).len() <= s.len(),
        s == s.take(s.len() - text::trim_start(s).len()) + text::trim_start(s),
        text::blank(s.take(s.len() - text::trim_start(s).len())),
    decreases s.len(),
{
    let t = text::trim_start(s);
    if s.len() > 0 && text::white(s[0]) {
        trim_start_takes_white_space(s.skip(1));
        let front = s.take(s.len() - t.len());
        let inner = s.skip(1).take(s.skip(1).len() - t.len());
        assert(front =~= seq![s[0]] + inner);
        assert(s =~= front + t) by {
            assert(s =~= seq![s[0]] + s.skip(1));
        }
        assert forall|i: int| 0 <= i < front.len() implies text::white(#[trigger] front[i]) by {
            if i > 0 {
                assert(front[i] == inner[i - 1]);
            }
        }
    } else {
        assert(s.take(0) + s =~= s);
    }
}

/// Trimming the end takes white space away, and nothing else.
proof fn trim_end_takes_white_space(s: Seq<char>)
    ensures
        text::trim_end(s).len() <= s.len(),
        s == text::trim_end(s) + s.skip(text::trim_end(s).len() as int),
        text::blank(s.skip(text::trim_end(s).len() as int)),
    decreases s.len(),
{
    let t = text::trim_end(s);
    if s.len() > 0 && text::white(s.last()) {
        let front = s.drop_last();
        trim_end_takes_white_space(front);
        let tail = s.skip(t.len() as int);
        let inner = front.skip(t.len() as int);
        assert(tail =~= inner.push(s.last()));
        assert(s =~= t + tail) by {
            assert(s =~= front.push(s.last()));
        }
        assert forall|i: int| 0 <= i < tail.len() implies text::white(#[trigger] tail[i]) by {
            if i < inner.len() {
                assert(tail[i] == inner[i]);
            }
        }
    } else {
        assert(s + s.skip(s.len() as int) =~= s);
    }
}

/// Trimming takes white space away at both ends, and nothing else: the text is
/// white space, then what is left, then white space.
pub proof fn trimming_takes_only_white_space(s: Seq<char>)
    ensures
        exists|before: Seq<char>, after: Seq<char>|
            #![trigger before + text::trim(s) + after]
            text::blank(before) && text::blank(after) && s == before + text::trim(s) + after,
{
    let t = text::trim_start(s);
    trim_start_takes_white_space(s);
    trim_end_takes_white_space(t);
    let r = text::trim(s);
    let before = s.take(s.len() - t.len());
    let after = t.skip(r.len() as int);
    assert(s =~= (before + r) + after);
}

/// `from` does not occur in `s` before the position `n`.
pub open spec fn absent_before(s: Seq<char>, from: Seq<char>, n: int) -> bool {
    forall|i: int|
        0 <= i < n && i + from.len() <= s.len() ==> #[trigger] s.subrange(i, i + from.len())
            != from
}

/// The first occurrence of a word is replaced, what stands before it is left
/// alone, and the rest is treated likewise.
pub proof fn first_occurrence_is_replaced(
    before: Seq<char>,
    from: Seq<char>,
    after: Seq<char>,
    to: Seq<char>,
)
    requires
        from.len() > 0,
        absent_before(before + from + after, from, before.len() as int),
    ensures
        text::replace_all(before + from + after, from, to) == before + to + text::replace_all(
            after,
            from,
            to,
        ),
    decreases before.len(),
{
    let s = before + from + after;
    if before.len() == 0 {
        assert(s.take(from.len() as int) =~= from);
        assert(s.skip(from.len() as int) =~= after);
        assert(before + to + text::replace_all(after, from, to) =~= to + text::replace_all(
            after,
            from,
            to,
        ));
    } else {
        let rest = before.skip(1);
        let t = rest + from + after;
        assert(s.skip(1) =~= t);
        assert(s.subrange(0, 0int + from.len()) != from);
        assert(s.take(from.len() as int) =~= s.subrange(0, 0int + from.len()));
        assert forall|i: int| 0 <= i < rest.len() && i + from.len() <= t.len() implies #[trigger]
            t.subrange(i, i + from.len()) != from by {
            assert(t.subrange(i, i + from.len()) =~= s.subrange(i + 1, i + 1 + from.len()));
        }
        first_occurrence_is_replaced(rest, from, after, to);
        let done = text::replace_all(after, from, to);
        assert(seq![s[0]] + (rest + to + done) =~= before + to + done);
    }
}

/// A text begins with a prefix exactly when it is that prefix and something
/// behind it.
pub proof fn beginning_is_a_prefix(s: Seq<char>, p: Seq<char>, rest: Seq<char>)
    ensures
        text::begins(p + rest, p),
        text::begins(s, p) ==> s == p + s.skip(p.len() as int),
{
    assert((p + rest).take(p.len() as int) =~= p);
    if text::begins(s, p) {
        assert(s =~= s.take(p.len() as int) + s.skip(p.len() as int));
    }
}

/// A path without slashes is its own head.
proof fn head_of_a_part(a: Seq<char>, rest: Seq<char>)
    requires
        forall|i: int| 0 <= i < a.len() ==> #[trigger] a[i] != '/',
        rest.len() == 0 || rest[0] == '/',
    ensures
        text::head_len(a + rest) == a.len(),
    decreases a.len(),
{
    if a.len() > 0 {
        assert((a + rest)[0] == a[0]);
        assert((a + rest).skip(1) =~= a.skip(1) + rest);
        assert forall|i: int| 0 <= i < a.skip(1).len() implies #[trigger] a.skip(1)[i] != '/' by {
            assert(a.skip(1)[i] == a[i + 1]);
        }
        head_of_a_part(a.skip(1), rest);
    } else {
        assert(a + rest =~= rest);
    }
}

/// A path is made of its parts: slashes stand for nothing, and a part that is
/// not empty comes first, before those behind the slash.
pub proof fn paths_are_split_at_slashes(part: Seq<char>, rest: Seq<char>)
    requires
        forall|i: int| 0 <= i < part.len() ==> #[trigger] part[i] != '/',
    ensures
        text::segments(Seq::empty()) == Seq::<Seq<char>>::empty(),
        text::segments(seq!['/'] + rest) == text::segments(rest),
        part.len() > 0 ==> text::segments(part) == seq![part],
        part.len() > 0 ==> text::segments(part + seq!['/'] + rest) == seq![part] + text::segments(
            rest,
        ),
{
    let slashed = seq!['/'] + rest;
    assert(slashed.skip(1) =~= rest);
    assert(text::segments(slashed) == text::segments(rest));
    if part.len() > 0 {
        let whole = part + slashed;
        head_of_a_part(part, slashed);
        assert(part + seq!['/'] + rest =~= whole);
        assert(whole.take(part.len() as int) =~= part);
        assert(whole.skip(part.len() as int) =~= slashed);
        head_of_a_part(part, Seq::empty());
        assert(part + Seq::empty() =~= part);
        assert(part.take(part.len() as int) =~= part);
        assert(part.skip(part.len() as int) =~= Seq::empty());
        assert(seq![part] + Seq::<Seq<char>>::empty() =~= seq![part]);
    }
}

/// The digits of a text are those of its parts, in order; of a character they
/// are the character itself where it is one of 0 to 9, else nothing.
pub proof fn digits_are_picked(a: Seq<char>, b: Seq<char>, c: char)
    ensures
        text::digits(a + b) == text::digits(a) + text::digits(b),
        text::digits(seq![c]) == if '0' <= c && c <= '9' {
            seq![c]
        } else {
            Seq::empty()
        },
    decreases b.len(),
{
    assert(seq![c].drop_last() =~= Seq::empty());
    assert(text::digits(seq![c].drop_last()) =~= Seq::empty());
    if b.len() > 0 {
        digits_are_picked(a, b.drop_last(), c);
        assert((a + b).drop_last() =~= a + b.drop_last());
        assert((a + b).last() == b.last());
        assert(text::digits(a + b) =~= text::digits(a) + text::digits(b));
    } else {
        assert(a + b =~= a);
        assert(text::digits(a) + text::digits(b) =~= text::digits(a));
    }
}

/// A number is written with its last digit last; a digit is the character that
/// many places behind `0`.
pub proof fn decimal_is_positional(n: nat, d: nat)
    requires
        d < 10,
    ensures
        text::decimal(d).len() == 1,
        text::decimal(d)[0] as u32 == 48 + d,
        n > 0 ==> text::decimal(10 * n + d) == text::decimal(n) + text::decimal(d),
{
    if n > 0 {
        assert((10 * n + d) / 10 == n);
        assert((10 * n + d) % 10 == d);
        assert(text::decimal(n).push(text::digit(d)) =~= text::decimal(n) + text::decimal(d));
    }
}

/// Texts are ordered like words in a dictionary: a common beginning does not
/// matter, the empty text is first, and else the first characters decide.
pub proof fn order_is_lexicographic(
    common: Seq<char>,
    a: Seq<char>,
    b: Seq<char>,
    x: char,
    y: char,
)
    ensures
        text::precedes(common + a, common + b) == text::precedes(a, b),
        text::precedes(Seq::empty(), seq![x] + a),
        !text::precedes(a, Seq::empty()),
        x != y ==> (text::precedes(seq![x] + a, seq![y] + b) <==> (x as u32) < (y as u32)),
    decreases common.len(),
{
    if common.len() > 0 {
        order_is_lexicographic(common.skip(1), a, b, x, y);
        assert((common + a).skip(1) =~= common.skip(1) + a);
        assert((common + b).skip(1) =~= common.skip(1) + b);
        assert((common + a)[0] == common[0] && (common + b)[0] == common[0]);
    } else {
        assert(common + a =~= a);
        assert(common + b =~= b);
    }
}

/// Joined texts stand one behind the other, with the separator between them.
pub proof fn joining_separates(parts: Seq<Seq<char>>, last: Seq<char>, sep: Seq<char>)
    ensures
        text::joined(Seq::empty(), sep) == Seq::<char>::empty(),
        text::joined(seq![last], sep) == last,
        parts.len() > 0 ==> text::joined(parts.push(last), sep) == text::joined(parts, sep) + sep
            + last,
{
    assert(parts.push(last).drop_last() =~= parts);
}

/// Between two instants that are the same number of nanoseconds into their
/// seconds, and no leap seconds, as many seconds pass as lie between them.
pub proof fn seconds_run_forward(earlier: Seq<char>, later: Seq<char>)
    requires
        time::instant(earlier) is Some,
        time::instant(later) is Some,
        time::instant(earlier)->0.nanos == time::instant(later)->0.nanos,
        time::instant(later)->0.nanos < 1_000_000_000,
    ensures
        time::seconds(earlier, later) == Some(
            time::instant(later)->0.secs - time::instant(earlier)->0.secs,
        ),
{
    let d = time::instant(later)->0.secs - time::instant(earlier)->0.secs;
    assert(time::elapsed_nanos(time::instant(later)->0, time::instant(earlier)->0) == d
        * 1_000_000_000);
}

/// Adding minutes moves a timestamp by that many minutes; what is no timestamp
/// stays as it is.
pub proof fn later_is_minutes_later(ts: Seq<char>, minutes: int)
    ensures
        time::instant(ts) is None ==> time::later_text(ts, minutes) == ts,
        time::instant(ts) matches Some(t) ==> (t.nanos < 1_000_000_000 && time::FIRST_SECOND
            <= t.secs + 60 * minutes <= time::LAST_SECOND ==> time::later_text(ts, minutes)
            == time::rfc3339(
            time::Timestamp { secs: (t.secs + 60 * minutes) as i64, nanos: t.nanos },
        )),
{
}

/// The time from one instant to another is as long as the way back: seconds are
/// cut off towards zero on both sides, and a leap second counts on both ways.
pub proof fn time_is_as_long_backwards(a: time::Timestamp, b: time::Timestamp)
    ensures
        time::elapsed_seconds(a, b) == -time::elapsed_seconds(b, a),
        time::elapsed_nanos(a, b) == -time::elapsed_nanos(b, a),
{
}

} // verus!

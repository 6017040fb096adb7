//! Properties of the library as a whole, proved over the specifications
//! that the functions' contracts use.

use crate::announce::{announce_text, crlf_to_lf, lf_to_br, paragraph_close, paragraph_open};
use crate::chrono_bridge::in_chrono_range;
use crate::commands::{conversion_outcome, converted_prefix, rendered_back, ConversionResult};
use crate::datetime::{
    flexible_unix_fixed, flexible_unix_local_outcome, slash_format, unix_seconds_of_input,
    zone_renders, Zone,
};
use crate::decimal::{
    all_digits, decimal, digit_char, digit_value, digits_of, digits_value, integer_spelled,
    is_digit, parsed_i64,
};
use crate::text::{is_white_space, trim, trim_end, trim_start};
use vstd::prelude::*;

verus! {

proof fn lemma_trim_start_front(s: Seq<char>)
    ensures
        trim_start(s).len() > 0 ==> !is_white_space(trim_start(s)[0]),
    decreases s.len(),
{
    if s.len() > 0 && is_white_space(s[0]) {
        lemma_trim_start_front(s.drop_first());
    }
}

proof fn lemma_trim_end_prefix(s: Seq<char>)
    ensures
        trim_end(s).len() <= s.len(),
        trim_end(s) == s.subrange(0, trim_end(s).len() as int),
        trim_end(s).len() > 0 ==> !is_white_space(trim_end(s).last()),
    decreases s.len(),
{
    if s.len() > 0 && is_white_space(s.last()) {
        lemma_trim_end_prefix(s.drop_last());
        let t = trim_end(s.drop_last());
        assert(s.drop_last().subrange(0, t.len() as int) =~= s.subrange(0, t.len() as int));
    } else {
        assert(s.subrange(0, s.len() as int) =~= s);
    }
}

/// A trimmed text that starts and ends with a character other than white
/// space is its own trim.
proof fn lemma_trim_of_bare(s: Seq<char>)
    requires
        s.len() > 0 ==> !is_white_space(s[0]) && !is_white_space(s.last()),
    ensures
        trim(s) == s,
{
    assert(trim_start(s) == s);
    assert(trim_end(s) == s);
}

proof fn lemma_trim_start_cut(s: Seq<char>) -> (lo: int)
    ensures
        0 <= lo <= s.len(),
        trim_start(s) == s.subrange(lo, s.len() as int),
        forall|i: int| 0 <= i < lo ==> is_white_space(#[trigger] s[i]),
        lo < s.len() ==> !is_white_space(s[lo]),
    decreases s.len(),
{
    if s.len() > 0 && is_white_space(s[0]) {
        let k = lemma_trim_start_cut(s.drop_first());
        assert(s.drop_first().subrange(k, s.len() - 1) =~= s.subrange(k + 1, s.len() as int));
        assert forall|i: int| 0 <= i < k + 1 implies is_white_space(#[trigger] s[i]) by {
            if i > 0 {
                assert(s[i] == s.drop_first()[i - 1]);
            }
        }
        if k + 1 < s.len() {
            assert(s[k + 1] == s.drop_first()[k]);
        }
        k + 1
    } else {
        assert(s.subrange(0, s.len() as int) =~= s);
        0
    }
}

proof fn lemma_trim_end_cut(s: Seq<char>) -> (hi: int)
    ensures
        0 <= hi <= s.len(),
        trim_end(s) == s.subrange(0, hi),
        forall|i: int| hi <= i < s.len() ==> is_white_space(#[trigger] s[i]),
        hi > 0 ==> !is_white_space(s[hi - 1]),
    decreases s.len(),
{
    if s.len() > 0 && is_white_space(s.last()) {
        let k = lemma_trim_end_cut(s.drop_last());
        assert(s.drop_last().subrange(0, k) =~= s.subrange(0, k));
        assert forall|i: int| k <= i < s.len() implies is_white_space(#[trigger] s[i]) by {
            if i < s.len() - 1 {
                assert(s[i] == s.drop_last()[i]);
            }
        }
        if k > 0 {
            assert(s[k - 1] == s.drop_last()[k - 1]);
        }
        k
    } else {
        assert(s.subrange(0, s.len() as int) =~= s);
        s.len() as int
    }
}

/// Trimming removes exactly the white space at either end: the result is
/// the piece of `s` between a run of white space at its start and one at
/// its end, and that piece, where it is not empty, starts and ends with a
/// character other than white space.
pub proof fn lemma_trim_cuts_outer_white_space(s: Seq<char>) -> (bounds: (int, int))
    ensures
        0 <= bounds.0 <= bounds.1 <= s.len(),
        trim(s) == s.subrange(bounds.0, bounds.1),
        forall|i: int| 0 <= i < bounds.0 ==> is_white_space(#[trigger] s[i]),
        forall|i: int| bounds.1 <= i < s.len() ==> is_white_space(#[trigger] s[i]),
        bounds.0 < bounds.1 ==> !is_white_space(s[bounds.0]) && !is_white_space(s[bounds.1 - 1]),
{
    let lo = lemma_trim_start_cut(s);
    let x = s.subrange(lo, s.len() as int);
    let k = lemma_trim_end_cut(x);
    assert(x.subrange(0, k) =~= s.subrange(lo, lo + k));
    assert forall|i: int| lo + k <= i < s.len() implies is_white_space(#[trigger] s[i]) by {
        assert(s[i] == x[i - lo]);
    }
    if k > 0 {
        assert(s[lo + k - 1] == x[k - 1]);
    }
    (lo, lo + k)
}

/// Trimming twice is trimming once.
pub proof fn lemma_trim_idempotent(s: Seq<char>)
    ensures
        trim(trim(s)) == trim(s),
        trim(s).len() > 0 ==> !is_white_space(trim(s).last()) && !is_white_space(trim(s)[0]),
{
    let x = trim_start(s);
    lemma_trim_start_front(s);
    lemma_trim_end_prefix(x);
    let y = trim_end(x);
    if y.len() > 0 {
        assert(y[0] == x[0]);
    }
    lemma_trim_of_bare(y);
}

/// White space around unix time input never changes the instant that it
/// stands for.
pub proof fn lemma_unix_input_ignores_surrounding_space(input: Seq<char>)
    ensures
        unix_seconds_of_input(trim(input)) == unix_seconds_of_input(input),
{
    lemma_trim_idempotent(input);
}

/// White space around date/time text never changes what it reads as, in a
/// fixed zone or (as far as it is known) in the local zone.
pub proof fn lemma_datetime_text_ignores_surrounding_space(input: Seq<char>, offset: i32, r: Option<i64>)
    ensures
        flexible_unix_fixed(trim(input), offset) == flexible_unix_fixed(input, offset),
        flexible_unix_local_outcome(trim(input), r) == flexible_unix_local_outcome(input, r),
{
    lemma_trim_idempotent(input);
}

proof fn lemma_digits_of(m: nat)
    ensures
        digits_of(m).len() > 0,
        all_digits(digits_of(m)),
        digits_value(digits_of(m)) == m,
    decreases m,
{
    assert(digit_value(digit_char(m % 10)) == m % 10);
    if m >= 10 {
        lemma_digits_of(m / 10);
        let p = digits_of(m / 10);
        let s = digits_of(m);
        assert(s == p.push(digit_char(m % 10)));
        assert(s.drop_last() =~= p);
        assert forall|i: int| 0 <= i < s.len() implies is_digit(#[trigger] s[i]) by {
            if i < p.len() {
                assert(s[i] == p[i]);
            }
        }
        assert(digits_value(s) == digits_value(p) * 10 + digit_value(s.last()));
        assert(s.last() == digit_char(m % 10));
        assert((m / 10) * 10 + m % 10 == m);
    } else {
        let s = digits_of(m);
        assert(s.drop_last() =~= Seq::<char>::empty());
        assert(digits_value(s.drop_last()) == 0);
        assert(s.last() == digit_char(m));
        assert(digit_value(digit_char(m)) == m);
    }
}

/// Writing an `i64` in decimal and reading the text back as an `i64`
/// gives the same number.
pub proof fn lemma_decimal_round_trip(n: i64)
    ensures
        parsed_i64(decimal(n as int)) == Some(n),
        trim(decimal(n as int)) == decimal(n as int),
{
    let s = decimal(n as int);
    if n < 0 {
        let m = (-n) as nat;
        lemma_digits_of(m);
        assert(s.drop_first() =~= digits_of(m));
        assert(integer_spelled(s) == Some(n as int));
        assert(s.last() == digits_of(m).last());
    } else {
        lemma_digits_of(n as nat);
        assert(is_digit(s[0]));
        assert(is_digit(s.last()));
    }
    lemma_trim_of_bare(s);
}

/// The unix time that the "copy unix time" action writes is read back by
/// the unix time form as the same instant, except that a text of exactly
/// 13 characters is read as milliseconds.
pub proof fn lemma_unix_text_read_back(t: i64)
    ensures
        unix_seconds_of_input(decimal(t as int)) == Some(
            if decimal(t as int).len() == 13 {
                (t / 1000) as i64
            } else {
                t
            },
        ),
{
    lemma_decimal_round_trip(t);
}

/// Unix time text of 13 characters is read as milliseconds: it names the
/// same instant as the seconds that it holds, rounded down.
pub proof fn lemma_milliseconds_text(ms: i64)
    requires
        decimal(ms as int).len() == 13,
    ensures
        unix_seconds_of_input(decimal(ms as int)) == Some((ms / 1000) as i64),
{
    lemma_decimal_round_trip(ms);
}

/// The date/time-text form, where the text is not blank and reads as the
/// instant `u`, gives `u` in decimal and a message that shows `u` rendered
/// in the same zone, wherever that decimal is not 13 characters long (such
/// a text is read back as milliseconds).
pub proof fn lemma_conversion_message_shows_instant(
    input: Seq<char>,
    zone: Zone,
    u: i64,
    r: ConversionResult,
)
    requires
        conversion_outcome(input, zone, Some(u), r),
        trim(input).len() > 0,
        decimal(u as int).len() != 13,
    ensures
        r.unixtime matches Some(text) && text@ == decimal(u as int),
        exists|rendered: Seq<char>|
            r.message@ == converted_prefix() + rendered && #[trigger] zone_renders(
                zone,
                u,
                slash_format(),
                rendered,
            ),
{
    lemma_decimal_round_trip(u);
    let rendered = choose|rendered: Seq<char>|
        r.message@ == converted_prefix() + rendered && #[trigger] rendered_back(u, zone, rendered);
    assert(zone_renders(zone, u, slash_format(), rendered));
}

proof fn lemma_lf_to_br_marks_breaks(s: Seq<char>)
    ensures
        forall|i: int|
            0 <= i < lf_to_br(s).len() && #[trigger] lf_to_br(s)[i] == '\n' ==> i >= 1 && lf_to_br(
                s,
            )[i - 1] == '>',
    decreases s.len(),
{
    if s.len() > 0 {
        lemma_lf_to_br_marks_breaks(s.drop_first());
        let rest = lf_to_br(s.drop_first());
        let head = if s[0] == '\n' {
            seq!['<', 'b', 'r', '/', '>', '\n']
        } else {
            seq![s[0]]
        };
        assert(lf_to_br(s) == head + rest);
        assert forall|i: int|
            0 <= i < lf_to_br(s).len() && #[trigger] lf_to_br(s)[i] == '\n' implies i >= 1
            && lf_to_br(s)[i - 1] == '>' by {
            if i >= head.len() {
                assert(lf_to_br(s)[i] == rest[i - head.len()]);
                if i - head.len() >= 1 {
                    assert(lf_to_br(s)[i - 1] == rest[i - head.len() - 1]);
                }
            }
        }
    }
}

proof fn lemma_lf_to_br_last(s: Seq<char>)
    requires
        s.len() > 0,
        s.last() != '\n',
    ensures
        lf_to_br(s).len() > 0,
        lf_to_br(s).last() == s.last(),
    decreases s.len(),
{
    let head = if s[0] == '\n' {
        seq!['<', 'b', 'r', '/', '>', '\n']
    } else {
        seq![s[0]]
    };
    let rest = lf_to_br(s.drop_first());
    assert(lf_to_br(s) == head + rest);
    if s.len() == 1 {
        assert(s.drop_first() =~= Seq::<char>::empty());
        assert(rest.len() == 0);
        assert(head + rest =~= head);
    } else {
        assert(s.drop_first().last() == s.last());
        lemma_lf_to_br_last(s.drop_first());
        assert((head + rest).last() == rest.last());
    }
}

proof fn lemma_crlf_to_lf_last(s: Seq<char>)
    requires
        s.len() > 0,
        s.last() != '\n',
    ensures
        crlf_to_lf(s).len() > 0,
        crlf_to_lf(s).last() == s.last(),
    decreases s.len(),
{
    if s.len() >= 2 && s[0] == '\r' && s[1] == '\n' {
        assert(s.len() > 2);
        assert(s.skip(2).last() == s.last());
        lemma_crlf_to_lf_last(s.skip(2));
    } else if s.len() == 1 {
        assert(s.drop_first() =~= Seq::<char>::empty());
    } else {
        assert(s.drop_first().last() == s.last());
        lemma_crlf_to_lf_last(s.drop_first());
    }
}

/// The text that "AnnounceP" writes back holds no Windows line break: no
/// line feed in it follows a carriage return.
pub proof fn lemma_announce_has_no_crlf(clip: Seq<char>)
    ensures
        forall|i: int|
            0 < i < announce_text(clip).len() && #[trigger] announce_text(clip)[i] == '\n'
                ==> announce_text(clip)[i - 1] != '\r',
{
    let t = trim(clip);
    lemma_trim_idempotent(clip);
    let body = lf_to_br(crlf_to_lf(t));
    lemma_lf_to_br_marks_breaks(crlf_to_lf(t));
    if t.len() > 0 {
        lemma_crlf_to_lf_last(t);
        lemma_lf_to_br_last(crlf_to_lf(t));
    } else {
        assert(crlf_to_lf(t) =~= Seq::<char>::empty());
        assert(body =~= Seq::<char>::empty());
    }
    let r = announce_text(clip);
    assert(r == paragraph_open() + body + paragraph_close());
    assert forall|i: int| 0 < i < r.len() && #[trigger] r[i] == '\n' implies r[i - 1] != '\r' by {
        if i < 4 {
        } else if i < 4 + body.len() {
            assert(r[i] == body[i - 4]);
            assert(r[i - 1] == body[i - 5]);
        } else if i == 4 + body.len() {
            if body.len() > 0 {
                assert(r[i - 1] == body.last());
            }
        } else {
            assert(r[i] == paragraph_close()[i - 4 - body.len()]);
        }
    }
}

} // verus!

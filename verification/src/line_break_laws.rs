//! Laws of the "AnnounceP" rewrite that pin down its two replacements: they
//! act character by character (splitting the text anywhere but inside a
//! `\r\n` pair splits the result the same way), and every line break of the
//! trimmed clipboard text becomes exactly one `<br/>` line break.

use crate::announce::{announce_text, br_line_break, crlf_to_lf, lf_to_br, paragraph_close, paragraph_open};
use crate::text::trim;
use vstd::prelude::*;

verus! {

/// How many times `c` occurs in `s`.
pub open spec fn count_char(s: Seq<char>, c: char) -> nat
    decreases s.len(),
{
    if s.len() == 0 {
        0
    } else {
        (if s[0] == c {
            1nat
        } else {
            0nat
        }) + count_char(s.drop_first(), c)
    }
}

proof fn lemma_count_single(x: char, c: char)
    ensures
        count_char(seq![x], c) == (if x == c {
            1nat
        } else {
            0nat
        }),
{
    assert(seq![x].drop_first().len() == 0);
    assert(count_char(seq![x].drop_first(), c) == 0);
}

/// Counting over a concatenation adds the counts.
pub proof fn lemma_count_char_concat(a: Seq<char>, b: Seq<char>, c: char)
    ensures
        count_char(a + b, c) == count_char(a, c) + count_char(b, c),
    decreases a.len(),
{
    if a.len() > 0 {
        assert((a + b).drop_first() =~= a.drop_first() + b);
        lemma_count_char_concat(a.drop_first(), b, c);
    } else {
        assert(a + b =~= b);
    }
}

/// A lone character other than a line break is kept, and a lone `\r\n`
/// pair becomes a single line feed.
pub proof fn lemma_crlf_to_lf_units(c: char)
    ensures
        crlf_to_lf(seq![c]) == seq![c],
        crlf_to_lf(seq!['\r', '\n']) == seq!['\n'],
{
    let one = seq![c];
    assert(crlf_to_lf(one.drop_first()).len() == 0);
    assert(crlf_to_lf(one) =~= seq![c] + crlf_to_lf(one.drop_first()));
    assert(crlf_to_lf(one) =~= seq![c]);
    let p = seq!['\r', '\n'];
    assert(crlf_to_lf(p.skip(2)).len() == 0);
    assert(crlf_to_lf(p) =~= seq!['\n'] + crlf_to_lf(p.skip(2)));
    assert(crlf_to_lf(p) =~= seq!['\n']);
}

/// Turning `\r\n` into `\n` works piece by piece: wherever the text is cut
/// other than between the `\r` and the `\n` of a pair, the result is the
/// results of the two pieces, joined.
pub proof fn lemma_crlf_to_lf_splits(a: Seq<char>, b: Seq<char>)
    requires
        !(a.len() > 0 && a.last() == '\r' && b.len() > 0 && b[0] == '\n'),
    ensures
        crlf_to_lf(a + b) == crlf_to_lf(a) + crlf_to_lf(b),
    decreases a.len(),
{
    let s = a + b;
    if a.len() == 0 {
        assert(s =~= b);
        assert(crlf_to_lf(a) =~= Seq::<char>::empty());
        assert(Seq::<char>::empty() + crlf_to_lf(b) =~= crlf_to_lf(b));
    } else if a.len() >= 2 && a[0] == '\r' && a[1] == '\n' {
        assert(s[0] == '\r' && s[1] == '\n');
        assert(s.skip(2) =~= a.skip(2) + b);
        if a.len() > 2 {
            assert(a.skip(2).last() == a.last());
        }
        lemma_crlf_to_lf_splits(a.skip(2), b);
        assert(crlf_to_lf(s) =~= seq!['\n'] + crlf_to_lf(a.skip(2) + b));
        assert(crlf_to_lf(a) =~= seq!['\n'] + crlf_to_lf(a.skip(2)));
        assert(crlf_to_lf(s) =~= crlf_to_lf(a) + crlf_to_lf(b));
    } else {
        assert(!(s.len() >= 2 && s[0] == '\r' && s[1] == '\n')) by {
            if a.len() == 1 && s.len() >= 2 {
                assert(s[1] == b[0]);
                assert(a.last() == a[0]);
            }
        }
        assert(s.drop_first() =~= a.drop_first() + b);
        if a.len() > 1 {
            assert(a.drop_first().last() == a.last());
        }
        lemma_crlf_to_lf_splits(a.drop_first(), b);
        assert(crlf_to_lf(s) =~= seq![a[0]] + crlf_to_lf(a.drop_first() + b));
        assert(crlf_to_lf(a) =~= seq![a[0]] + crlf_to_lf(a.drop_first()));
        assert(crlf_to_lf(s) =~= crlf_to_lf(a) + crlf_to_lf(b));
    }
}

/// Turning `\r\n` into `\n` keeps one line feed per line break: the
/// number of line feeds does not change.
pub proof fn lemma_crlf_to_lf_keeps_line_feeds(s: Seq<char>)
    ensures
        count_char(crlf_to_lf(s), '\n') == count_char(s, '\n'),
    decreases s.len(),
{
    if s.len() == 0 {
    } else if s.len() >= 2 && s[0] == '\r' && s[1] == '\n' {
        lemma_crlf_to_lf_keeps_line_feeds(s.skip(2));
        lemma_count_char_concat(seq!['\n'], crlf_to_lf(s.skip(2)), '\n');
        lemma_count_single('\n', '\n');
        lemma_count_single('\r', '\n');
        assert(count_char(s.drop_first(), '\n') == 1 + count_char(s.drop_first().drop_first(), '\n'));
        assert(s.drop_first().drop_first() =~= s.skip(2));
        assert(s.drop_first()[0] == '\n');
    } else {
        lemma_crlf_to_lf_keeps_line_feeds(s.drop_first());
        lemma_count_char_concat(seq![s[0]], crlf_to_lf(s.drop_first()), '\n');
        lemma_count_single(s[0], '\n');
    }
}

/// Turning `\r\n` into `\n` removes exactly the carriage returns that stand
/// right before a line feed: one per pair, and nothing else.
pub proof fn lemma_crlf_to_lf_removes_only_pairs(s: Seq<char>)
    ensures
        count_char(crlf_to_lf(s), '\r') + crlf_pairs(s) == count_char(s, '\r'),
        crlf_to_lf(s).len() + crlf_pairs(s) == s.len(),
    decreases s.len(),
{
    if s.len() == 0 {
    } else if s.len() >= 2 && s[0] == '\r' && s[1] == '\n' {
        let rest = s.skip(2);
        lemma_crlf_to_lf_removes_only_pairs(rest);
        assert(crlf_to_lf(s) == seq!['\n'] + crlf_to_lf(rest));
        lemma_count_char_concat(seq!['\n'], crlf_to_lf(rest), '\r');
        lemma_count_single('\n', '\r');
        assert(s.drop_first().drop_first() =~= rest);
        assert(s.drop_first()[0] == '\n');
        assert(count_char(s.drop_first(), '\r') == count_char(rest, '\r'));
        assert(count_char(s, '\r') == 1 + count_char(rest, '\r'));
        assert(s.skip(1) =~= s.drop_first());
        assert(s.skip(1).skip(1) =~= rest);
        assert(crlf_pairs(s.skip(1)) == crlf_pairs(rest));
        assert(crlf_pairs(s) == 1 + crlf_pairs(rest));
    } else {
        let rest = s.drop_first();
        lemma_crlf_to_lf_removes_only_pairs(rest);
        assert(crlf_to_lf(s) == seq![s[0]] + crlf_to_lf(rest));
        lemma_count_char_concat(seq![s[0]], crlf_to_lf(rest), '\r');
        lemma_count_single(s[0], '\r');
        assert(s.skip(1) =~= rest);
        assert(crlf_pairs(s) == crlf_pairs(rest));
    }
}

/// How many `\r\n` pairs `s` holds (they never overlap).
pub open spec fn crlf_pairs(s: Seq<char>) -> nat
    decreases s.len(),
{
    if s.len() < 2 {
        0
    } else {
        (if s[0] == '\r' && s[1] == '\n' {
            1nat
        } else {
            0nat
        }) + crlf_pairs(s.skip(1))
    }
}

/// Marking line breaks works piece by piece: the result for a joined text
/// is the results for its pieces, joined; and a single character is kept,
/// except a line feed, which becomes `<br/>` and a line feed.
pub proof fn lemma_lf_to_br_splits(a: Seq<char>, b: Seq<char>, c: char)
    ensures
        lf_to_br(a + b) == lf_to_br(a) + lf_to_br(b),
        lf_to_br(seq![c]) == (if c == '\n' {
            br_line_break()
        } else {
            seq![c]
        }),
    decreases a.len(),
{
    let one = seq![c];
    assert(lf_to_br(one.drop_first()).len() == 0);
    assert(lf_to_br(one) =~= (if c == '\n' {
        br_line_break()
    } else {
        seq![c]
    }) + lf_to_br(one.drop_first()));
    if a.len() == 0 {
        assert(a + b =~= b);
        assert(Seq::<char>::empty() + lf_to_br(b) =~= lf_to_br(b));
    } else {
        assert((a + b).drop_first() =~= a.drop_first() + b);
        assert((a + b)[0] == a[0]);
        lemma_lf_to_br_splits(a.drop_first(), b, c);
        let head = if a[0] == '\n' {
            br_line_break()
        } else {
            seq![a[0]]
        };
        assert(lf_to_br(a + b) =~= head + lf_to_br(a.drop_first() + b));
        assert(lf_to_br(a) =~= head + lf_to_br(a.drop_first()));
        assert(lf_to_br(a + b) =~= lf_to_br(a) + lf_to_br(b));
    }
}

/// Marking line breaks keeps the number of line feeds, and adds the five
/// characters of `<br/>` before each.
pub proof fn lemma_lf_to_br_counts(s: Seq<char>)
    ensures
        count_char(lf_to_br(s), '\n') == count_char(s, '\n'),
        lf_to_br(s).len() == s.len() + 5 * count_char(s, '\n'),
    decreases s.len(),
{
    if s.len() > 0 {
        lemma_lf_to_br_counts(s.drop_first());
        let head = if s[0] == '\n' {
            br_line_break()
        } else {
            seq![s[0]]
        };
        lemma_count_char_concat(head, lf_to_br(s.drop_first()), '\n');
        if s[0] == '\n' {
            let h = br_line_break();
            assert(h.drop_first().drop_first().drop_first().drop_first().drop_first() =~= seq!['\n']);
            assert(seq!['\n'].drop_first() =~= Seq::<char>::empty());
            assert(count_char(h, '\n') == 1) by {
                reveal_with_fuel(count_char, 7);
            }
        } else {
            lemma_count_single(s[0], '\n');
        }
    }
}

/// The text that "AnnounceP" writes back holds one line break per line
/// break of the trimmed clipboard text (whether written `\n` or `\r\n`),
/// each marked with `<br/>`, plus the two around the paragraph; its length
/// is the trimmed text's, less one per `\r\n`, plus five per line break and
/// the nine characters of `<p>\n` and `\n</p>`.
pub proof fn lemma_announce_keeps_every_line_break(clip: Seq<char>)
    ensures
        count_char(announce_text(clip), '\n') == count_char(trim(clip), '\n') + 2,
        announce_text(clip).len() + crlf_pairs(trim(clip)) == trim(clip).len() + 5 * count_char(
            trim(clip),
            '\n',
        ) + 9,
{
    let t = trim(clip);
    let lf = crlf_to_lf(t);
    let body = lf_to_br(lf);
    lemma_crlf_to_lf_keeps_line_feeds(t);
    lemma_crlf_to_lf_removes_only_pairs(t);
    lemma_lf_to_br_counts(lf);
    lemma_count_char_concat(paragraph_open(), body, '\n');
    lemma_count_char_concat(paragraph_open() + body, paragraph_close(), '\n');
    assert(count_char(paragraph_open(), '\n') == 1) by {
        reveal_with_fuel(count_char, 5);
    }
    assert(count_char(paragraph_close(), '\n') == 1) by {
        reveal_with_fuel(count_char, 6);
    }
}

} // verus!

//! The "AnnounceP" transformation of clipboard text: trimmed, with its line
//! breaks marked by `<br/>` and the whole wrapped in a paragraph.

use crate::text::{string_from_chars, trim, trimmed_chars};
use vstd::prelude::*;

verus! {

/// `s` with every `\r\n` replaced by `\n`, left to right, as
/// `s.replace("\r\n", "\n")` gives it.
pub open spec fn crlf_to_lf(s: Seq<char>) -> Seq<char>
    decreases s.len(),
{
    if s.len() == 0 {
        s
    } else if s.len() >= 2 && s[0] == '\r' && s[1] == '\n' {
        seq!['\n'] + crlf_to_lf(s.skip(2))
    } else {
        seq![s[0]] + crlf_to_lf(s.drop_first())
    }
}

/// `<br/>` followed by a line break.
pub open spec fn br_line_break() -> Seq<char> {
    seq!['<', 'b', 'r', '/', '>', '\n']
}

/// `s` with every `\n` replaced by `<br/>\n`, as
/// `s.replace('\n', "<br/>\n")` gives it.
pub open spec fn lf_to_br(s: Seq<char>) -> Seq<char>
    decreases s.len(),
{
    if s.len() == 0 {
        s
    } else if s[0] == '\n' {
        br_line_break() + lf_to_br(s.drop_first())
    } else {
        seq![s[0]] + lf_to_br(s.drop_first())
    }
}

pub open spec fn paragraph_open() -> Seq<char> {
    seq!['<', 'p', '>', '\n']
}

pub open spec fn paragraph_close() -> Seq<char> {
    seq!['\n', '<', '/', 'p', '>']
}

/// The text that "AnnounceP" writes back for the clipboard text `clip`:
/// `<p>`, a line break, the trimmed text with its `\r\n` turned into `\n`
/// and every `\n` into `<br/>\n`, a line break, and `</p>`.
pub open spec fn announce_text(clip: Seq<char>) -> Seq<char> {
    paragraph_open() + lf_to_br(crlf_to_lf(trim(clip))) + paragraph_close()
}

fn push_all(out: &mut Vec<char>, more: &[char])
    ensures
        final(out)@ == old(out)@ + more@,
{
    let mut i: usize = 0;
    while i < more.len()
        invariant
            i <= more.len(),
            out@ == old(out)@ + more@.subrange(0, i as int),
        decreases more.len() - i,
    {
        out.push(more[i]);
        i = i + 1;
        assert(out@ =~= old(out)@ + more@.subrange(0, i as int));
    }
    assert(more@.subrange(0, more.len() as int) =~= more@);
}

/// `s` with its `\r\n` turned into `\n`.
fn replace_crlf(s: &Vec<char>) -> (r: Vec<char>)
    ensures
        r@ == crlf_to_lf(s@),
{
    let n = s.len();
    let mut out: Vec<char> = Vec::new();
    let mut i: usize = 0;
    assert(s@.subrange(0, n as int) =~= s@);
    while i < n
        invariant
            n == s.len(),
            i <= n,
            out@ + crlf_to_lf(s@.subrange(i as int, n as int)) == crlf_to_lf(s@),
        decreases n - i,
    {
        let ghost rest = s@.subrange(i as int, n as int);
        let ghost before = out@;
        if i + 1 < n && s[i] == '\r' && s[i + 1] == '\n' {
            assert(rest.skip(2) =~= s@.subrange(i + 2, n as int));
            out.push('\n');
            assert(out@ + crlf_to_lf(s@.subrange(i + 2, n as int)) =~= before + crlf_to_lf(rest));
            i = i + 2;
        } else {
            assert(rest.drop_first() =~= s@.subrange(i + 1, n as int));
            out.push(s[i]);
            assert(out@ + crlf_to_lf(s@.subrange(i + 1, n as int)) =~= before + crlf_to_lf(rest));
            i = i + 1;
        }
    }
    assert(out@ + Seq::<char>::empty() =~= out@);
    out
}

/// Appends `s` to `out` with every `\n` turned into `<br/>\n`.
fn push_with_br(out: &mut Vec<char>, s: &Vec<char>)
    ensures
        final(out)@ == old(out)@ + lf_to_br(s@),
{
    let n = s.len();
    let mut i: usize = 0;
    assert(s@.subrange(0, n as int) =~= s@);
    while i < n
        invariant
            n == s.len(),
            i <= n,
            out@ + lf_to_br(s@.subrange(i as int, n as int)) == old(out)@ + lf_to_br(s@),
        decreases n - i,
    {
        let ghost rest = s@.subrange(i as int, n as int);
        let ghost before = out@;
        assert(rest.drop_first() =~= s@.subrange(i + 1, n as int));
        if s[i] == '\n' {
            push_all(out, &['<', 'b', 'r', '/', '>', '\n']);
            assert(out@ + lf_to_br(s@.subrange(i + 1, n as int)) =~= before + lf_to_br(rest));
        } else {
            out.push(s[i]);
            assert(out@ + lf_to_br(s@.subrange(i + 1, n as int)) =~= before + lf_to_br(rest));
        }
        i = i + 1;
    }
    assert(out@ + Seq::<char>::empty() =~= out@);
}

/// The text that "AnnounceP" writes back to the clipboard for `clip`.
pub fn announce_p_text(clip: &str) -> (r: String)
    ensures
        r@ == announce_text(clip@),
{
    let lines = replace_crlf(&trimmed_chars(clip));
    let mut out: Vec<char> = Vec::new();
    push_all(&mut out, &['<', 'p', '>', '\n']);
    push_with_br(&mut out, &lines);
    push_all(&mut out, &['\n', '<', '/', 'p', '>']);
    assert(out@ =~= announce_text(clip@));
    string_from_chars(&out)
}

} // verus!

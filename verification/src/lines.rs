//! The lines of a text, as `str::lines` gives them: the text is split at
//! each `\n`, a `\r` right before a `\n` is dropped, and a final line
//! ending adds no empty line.

use vstd::prelude::*;
use crate::string_set::strings_view;

verus! {

/// The pieces of `s` between its `\n` characters: one more piece than `s`
/// has `\n` characters.
pub open spec fn newline_pieces(s: Seq<char>) -> Seq<Seq<char>>
    decreases s.len(),
{
    if s.len() == 0 {
        seq![Seq::<char>::empty()]
    } else {
        let ps = newline_pieces(s.drop_last());
        if s.last() == '\n' {
            ps.push(Seq::<char>::empty())
        } else {
            ps.update(ps.len() - 1, ps.last().push(s.last()))
        }
    }
}

/// A line without the `\r` that ends it, if one does.
pub open spec fn strip_cr(p: Seq<char>) -> Seq<char> {
    if p.len() > 0 && p.last() == '\r' {
        p.drop_last()
    } else {
        p
    }
}

/// The lines of `s`: every piece ended by `\n`, without a `\r` right
/// before that `\n`, then the piece after the last `\n` unless it is empty.
pub open spec fn spec_lines(s: Seq<char>) -> Seq<Seq<char>> {
    let ps = newline_pieces(s);
    let ended = ps.drop_last().map_values(|p: Seq<char>| strip_cr(p));
    if ps.last().len() == 0 {
        ended
    } else {
        ended.push(ps.last())
    }
}

/// There is always at least one piece.
pub proof fn lemma_newline_pieces_len(s: Seq<char>)
    ensures
        newline_pieces(s).len() >= 1,
    decreases s.len(),
{
    if s.len() > 0 {
        lemma_newline_pieces_len(s.drop_last());
    }
}

/// Calls `String::push`. The contract claims what its documentation says:
/// afterwards the string is the old one with `c` appended.
#[verifier::external_body]
pub(crate) fn push_char(s: &mut String, c: char)
    ensures
        final(s)@ == old(s)@.push(c),
{
    s.push(c);
}

/// The lines of `content`, as `str::lines` gives them.
pub fn split_lines(content: &str) -> (lines: Vec<String>)
    ensures
        strings_view(lines@) == spec_lines(content@),
{
    let ghost text = content@;
    let mut lines: Vec<String> = Vec::new();
    let mut cur = String::new();
    let mut pending_cr = false;
    let ghost mut i: int = 0;
    proof {
        assert(text.take(0) =~= Seq::<char>::empty());
        assert(strings_view(lines@) =~= Seq::<Seq<char>>::empty());
        assert(newline_pieces(Seq::<char>::empty()).drop_last() =~= Seq::<Seq<char>>::empty());
    }
    for c in it: content.chars()
        invariant
            it.seq() == text,
            i == it.index(),
            text == content@,
            i <= text.len(),
            newline_pieces(text.take(i)).len() >= 1,
            strings_view(lines@) == newline_pieces(text.take(i)).drop_last().map_values(
                |p: Seq<char>| strip_cr(p),
            ),
            newline_pieces(text.take(i)).last() == (if pending_cr {
                cur@.push('\r')
            } else {
                cur@
            }),
            !pending_cr ==> !(cur@.len() > 0 && cur@.last() == '\r'),
    {
        proof {
            assert(c == text[i]);
        }
        let ghost before = text.take(i);
        let ghost ps = newline_pieces(before);
        let ghost after = text.take(i + 1);
        proof {
            assert(after.drop_last() =~= before);
            assert(after.last() == c);
            lemma_newline_pieces_len(after);
        }
        if c == '\n' {
            let line = cur;
            let ghost lv = line@;
            proof {
                assert(strip_cr(ps.last()) == lv);
                assert(newline_pieces(after) == ps.push(Seq::<char>::empty()));
                assert(newline_pieces(after).drop_last() =~= ps);
                assert(ps =~= ps.drop_last().push(ps.last()));
                assert(ps.map_values(|p: Seq<char>| strip_cr(p)) =~= ps.drop_last().map_values(
                    |p: Seq<char>| strip_cr(p),
                ).push(strip_cr(ps.last())));
            }
            let ghost prev = lines@;
            lines.push(line);
            proof {
                assert(strings_view(lines@) =~= strings_view(prev).push(lv));
            }
            cur = String::new();
            pending_cr = false;
        } else {
            if pending_cr {
                push_char(&mut cur, '\r');
            }
            proof {
                assert(newline_pieces(after) == ps.update(ps.len() - 1, ps.last().push(c)));
                assert(newline_pieces(after).drop_last() =~= ps.drop_last());
            }
            if c == '\r' {
                pending_cr = true;
            } else {
                push_char(&mut cur, c);
                pending_cr = false;
            }
        }
        proof {
            i = i + 1;
        }
    }
    proof {
        assert(text.take(text.len() as int) =~= text);
    }
    if pending_cr {
        push_char(&mut cur, '\r');
    }
    if cur.unicode_len() > 0 {
        let ghost prev = lines@;
        let ghost cv = cur@;
        lines.push(cur);
        proof {
            assert(strings_view(lines@) =~= strings_view(prev).push(cv));
        }
    }
    lines
}

} // verus!

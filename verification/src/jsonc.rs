//! Reading configuration files that may hold comments and trailing commas:
//! comments are removed and trailing commas dropped, so that what is left is
//! plain JSON.

use vstd::prelude::*;
use crate::configuration::lookup::JsonParserOptions;
use crate::lines::push_char;

verus! {

/// Where the scan of a text stands.
#[derive(Clone, Copy, Debug, PartialEq, Eq, Structural)]
pub enum CommentState {
    /// Outside strings and comments.
    Code,
    /// Right after a `/` outside strings and comments.
    Slash,
    /// Inside a string.
    Str,
    /// Right after a `\` inside a string.
    StrEscape,
    /// Inside a `//` comment.
    LineComment,
    /// Inside a `/* */` comment.
    Block,
    /// Inside a `/* */` comment, right after a `*`.
    BlockStar,
}

/// What a character outside strings and comments does.
pub open spec fn code_step(c: char) -> (CommentState, Seq<char>) {
    if c == '"' {
        (CommentState::Str, seq![c])
    } else if c == '/' {
        (CommentState::Slash, Seq::empty())
    } else {
        (CommentState::Code, seq![c])
    }
}

/// The next state, and the characters kept, when `c` is read in `st`: a
/// `//` comment is dropped up to its end of line, which is kept; a `/* */`
/// comment is replaced by a space; strings are kept whole.
pub open spec fn comment_step(st: CommentState, c: char) -> (CommentState, Seq<char>) {
    match st {
        CommentState::Code => code_step(c),
        CommentState::Slash => if c == '/' {
            (CommentState::LineComment, Seq::empty())
        } else if c == '*' {
            (CommentState::Block, Seq::empty())
        } else {
            (code_step(c).0, seq!['/'] + code_step(c).1)
        },
        CommentState::Str => if c == '"' {
            (CommentState::Code, seq![c])
        } else if c == '\\' {
            (CommentState::StrEscape, seq![c])
        } else {
            (CommentState::Str, seq![c])
        },
        CommentState::StrEscape => (CommentState::Str, seq![c]),
        CommentState::LineComment => if c == '\n' {
            (CommentState::Code, seq![c])
        } else {
            (CommentState::LineComment, Seq::empty())
        },
        CommentState::Block => if c == '*' {
            (CommentState::BlockStar, Seq::empty())
        } else {
            (CommentState::Block, Seq::empty())
        },
        CommentState::BlockStar => if c == '/' {
            (CommentState::Code, seq![' '])
        } else if c == '*' {
            (CommentState::BlockStar, Seq::empty())
        } else {
            (CommentState::Block, Seq::empty())
        },
    }
}

/// The state after reading `s` from the start, and the characters kept.
pub open spec fn comment_run(s: Seq<char>) -> (CommentState, Seq<char>)
    decreases s.len(),
{
    if s.len() == 0 {
        (CommentState::Code, Seq::empty())
    } else {
        let (st, out) = comment_run(s.drop_last());
        let (next, kept) = comment_step(st, s.last());
        (next, out + kept)
    }
}

/// `s` without its comments; nothing where a `/* */` comment is not closed.
pub open spec fn strip_comments_spec(s: Seq<char>) -> Option<Seq<char>> {
    let (st, out) = comment_run(s);
    match st {
        CommentState::Slash => Some(out.push('/')),
        CommentState::Block | CommentState::BlockStar => None,
        _ => Some(out),
    }
}

/// Where the scan for trailing commas stands.
pub enum CommaState {
    /// Outside strings, no comma held back; `after_value` says whether the
    /// last character that is not white space ends a value.
    Code(bool),
    /// Inside a string.
    Str,
    /// Right after a `\` inside a string.
    StrEscape,
    /// A comma that follows a value was read outside strings, followed by
    /// this white space.
    Pending(Seq<char>),
}

/// White space between JSON tokens.
pub open spec fn is_json_space(c: char) -> bool {
    c == ' ' || c == '\t' || c == '\n' || c == '\r'
}

/// A character after which no value has ended: the start of an array or
/// object, a colon, or a comma.
pub open spec fn opens_value(c: char) -> bool {
    c == '[' || c == '{' || c == ':' || c == ','
}

/// What a character outside strings does when no comma is held back: a
/// comma that follows a value is held back, any other comma is written.
pub open spec fn comma_code_step(after_value: bool, c: char) -> (CommaState, Seq<char>) {
    if c == ',' && after_value {
        (CommaState::Pending(Seq::empty()), Seq::empty())
    } else if c == '"' {
        (CommaState::Str, seq![c])
    } else if is_json_space(c) {
        (CommaState::Code(after_value), seq![c])
    } else {
        (CommaState::Code(!opens_value(c)), seq![c])
    }
}

/// The next state, and the characters written, when `c` is read in `st`: a
/// comma that follows a value outside strings is held back with the white
/// space after it, and dropped where a `}` or `]` comes next.
pub open spec fn comma_step(st: CommaState, c: char) -> (CommaState, Seq<char>) {
    match st {
        CommaState::Code(after_value) => comma_code_step(after_value, c),
        CommaState::Str => if c == '"' {
            (CommaState::Code(true), seq![c])
        } else if c == '\\' {
            (CommaState::StrEscape, seq![c])
        } else {
            (CommaState::Str, seq![c])
        },
        CommaState::StrEscape => (CommaState::Str, seq![c]),
        CommaState::Pending(w) => if is_json_space(c) {
            (CommaState::Pending(w.push(c)), Seq::empty())
        } else if c == '}' || c == ']' {
            (CommaState::Code(true), w.push(c))
        } else {
            (comma_code_step(false, c).0, seq![','] + w + comma_code_step(false, c).1)
        },
    }
}

/// The state after reading `s` from the start, and the characters written.
pub open spec fn comma_run(s: Seq<char>) -> (CommaState, Seq<char>)
    decreases s.len(),
{
    if s.len() == 0 {
        (CommaState::Code(false), Seq::empty())
    } else {
        let (st, out) = comma_run(s.drop_last());
        let (next, kept) = comma_step(st, s.last());
        (next, out + kept)
    }
}

/// `s` without the commas, outside strings, that follow a value and come
/// right before a `}` or `]`.
pub open spec fn drop_trailing_commas_spec(s: Seq<char>) -> Seq<char> {
    let (st, out) = comma_run(s);
    match st {
        CommaState::Pending(w) => out + seq![','] + w,
        _ => out,
    }
}

/// The plain JSON of a configuration file read with `options`; nothing where
/// a comment is not closed.
pub open spec fn prepare_json_spec(s: Seq<char>, options: JsonParserOptions) -> Option<Seq<char>> {
    let stripped = if options.allow_comments {
        strip_comments_spec(s)
    } else {
        Some(s)
    };
    match stripped {
        Some(t) => Some(
            if options.allow_trailing_commas {
                drop_trailing_commas_spec(t)
            } else {
                t
            },
        ),
        None => None,
    }
}

/// Appends the characters of `t` to `s`.
fn push_str(s: &mut String, t: &String)
    ensures
        final(s)@ == old(s)@ + t@,
{
    s.append(t.as_str());
}

/// Reads `c` in `st`, writing what is kept to `out`.
fn comment_step_exec(st: &mut CommentState, c: char, out: &mut String)
    ensures
        *final(st) == comment_step(*old(st), c).0,
        final(out)@ == old(out)@ + comment_step(*old(st), c).1,
{
    let ghost o = out@;
    match *st {
        CommentState::Code => {
            if c == '"' {
                push_char(out, c);
                *st = CommentState::Str;
            } else if c == '/' {
                *st = CommentState::Slash;
            } else {
                push_char(out, c);
            }
        },
        CommentState::Slash => {
            if c == '/' {
                *st = CommentState::LineComment;
            } else if c == '*' {
                *st = CommentState::Block;
            } else {
                push_char(out, '/');
                if c == '"' {
                    push_char(out, c);
                    *st = CommentState::Str;
                } else if c == '/' {
                    *st = CommentState::Slash;
                } else {
                    push_char(out, c);
                    *st = CommentState::Code;
                }
            }
        },
        CommentState::Str => {
            push_char(out, c);
            if c == '"' {
                *st = CommentState::Code;
            } else if c == '\\' {
                *st = CommentState::StrEscape;
            }
        },
        CommentState::StrEscape => {
            push_char(out, c);
            *st = CommentState::Str;
        },
        CommentState::LineComment => {
            if c == '\n' {
                push_char(out, c);
                *st = CommentState::Code;
            }
        },
        CommentState::Block => {
            if c == '*' {
                *st = CommentState::BlockStar;
            }
        },
        CommentState::BlockStar => {
            if c == '/' {
                push_char(out, ' ');
                *st = CommentState::Code;
            } else if c != '*' {
                *st = CommentState::Block;
            }
        },
    }
    assert(out@ =~= o + comment_step(*old(st), c).1);
}

/// `content` without its comments: a `//` comment is dropped up to its end
/// of line, a `/* */` comment is replaced by a space, and strings are kept
/// whole; nothing where a `/* */` comment is not closed.
pub fn strip_comments(content: &str) -> (r: Option<String>)
    ensures
        opt_string_view(r) == strip_comments_spec(content@),
{
    let ghost text = content@;
    let mut out = String::new();
    let mut st = CommentState::Code;
    let ghost mut i: int = 0;
    assert(text.take(0) =~= Seq::<char>::empty());
    for c in it: content.chars()
        invariant
            it.seq() == text,
            i == it.index(),
            0 <= i <= text.len(),
            (st, out@) == comment_run(text.take(i)),
    {
        proof {
            assert(text.take(i + 1).drop_last() =~= text.take(i));
            assert(text.take(i + 1).last() == c);
        }
        comment_step_exec(&mut st, c, &mut out);
        proof {
            i = i + 1;
        }
    }
    assert(text.take(text.len() as int) =~= text);
    match st {
        CommentState::Slash => {
            push_char(&mut out, '/');
            Some(out)
        },
        CommentState::Block | CommentState::BlockStar => None,
        _ => Some(out),
    }
}

/// The view of an optional string.
pub open spec fn opt_string_view(o: Option<String>) -> Option<Seq<char>> {
    match o {
        Some(s) => Some(s@),
        None => None,
    }
}

/// The executable state of the scan for trailing commas.
enum CommaScan {
    Code(bool),
    Str,
    StrEscape,
    Pending(String),
}

/// The view of the executable state.
spec fn comma_scan_view(s: CommaScan) -> CommaState {
    match s {
        CommaScan::Code(b) => CommaState::Code(b),
        CommaScan::Str => CommaState::Str,
        CommaScan::StrEscape => CommaState::StrEscape,
        CommaScan::Pending(w) => CommaState::Pending(w@),
    }
}

/// Reads `c` outside strings with no comma held back.
fn comma_code_step_exec(after_value: bool, c: char, out: &mut String) -> (st: CommaScan)
    ensures
        comma_scan_view(st) == comma_code_step(after_value, c).0,
        final(out)@ == old(out)@ + comma_code_step(after_value, c).1,
{
    let ghost o = out@;
    if c == ',' && after_value {
        assert(out@ =~= o + Seq::<char>::empty());
        CommaScan::Pending(String::new())
    } else if c == '"' {
        push_char(out, c);
        CommaScan::Str
    } else if c == ' ' || c == '\t' || c == '\n' || c == '\r' {
        push_char(out, c);
        CommaScan::Code(after_value)
    } else {
        push_char(out, c);
        CommaScan::Code(!(c == '[' || c == '{' || c == ':' || c == ','))
    }
}

/// Reads `c` in `st`, writing what is kept to `out`.
fn comma_step_exec(st: CommaScan, c: char, out: &mut String) -> (next: CommaScan)
    ensures
        comma_scan_view(next) == comma_step(comma_scan_view(st), c).0,
        final(out)@ == old(out)@ + comma_step(comma_scan_view(st), c).1,
{
    let ghost o = out@;
    match st {
        CommaScan::Code(after_value) => comma_code_step_exec(after_value, c, out),
        CommaScan::Str => {
            push_char(out, c);
            if c == '"' {
                CommaScan::Code(true)
            } else if c == '\\' {
                CommaScan::StrEscape
            } else {
                CommaScan::Str
            }
        },
        CommaScan::StrEscape => {
            push_char(out, c);
            CommaScan::Str
        },
        CommaScan::Pending(w) => {
            let ghost wv = w@;
            if c == ' ' || c == '\t' || c == '\n' || c == '\r' {
                let mut w = w;
                push_char(&mut w, c);
                assert(out@ =~= o + Seq::<char>::empty());
                CommaScan::Pending(w)
            } else if c == '}' || c == ']' {
                push_str(out, &w);
                push_char(out, c);
                assert(out@ =~= o + wv.push(c));
                CommaScan::Code(true)
            } else {
                push_char(out, ',');
                push_str(out, &w);
                let next = comma_code_step_exec(false, c, out);
                assert(out@ =~= o + (seq![','] + wv + comma_code_step(false, c).1));
                next
            }
        },
    }
}

/// `content` without the commas, outside strings, that follow a value and
/// come right before a `}` or `]` (white space between them is kept).
pub fn drop_trailing_commas(content: &str) -> (r: String)
    ensures
        r@ == drop_trailing_commas_spec(content@),
{
    let ghost text = content@;
    let mut out = String::new();
    let mut st = CommaScan::Code(false);
    let ghost mut i: int = 0;
    assert(text.take(0) =~= Seq::<char>::empty());
    for c in it: content.chars()
        invariant
            it.seq() == text,
            i == it.index(),
            0 <= i <= text.len(),
            (comma_scan_view(st), out@) == comma_run(text.take(i)),
    {
        proof {
            assert(text.take(i + 1).drop_last() =~= text.take(i));
            assert(text.take(i + 1).last() == c);
        }
        st = comma_step_exec(st, c, &mut out);
        proof {
            i = i + 1;
        }
    }
    assert(text.take(text.len() as int) =~= text);
    match st {
        CommaScan::Pending(w) => {
            push_char(&mut out, ',');
            push_str(&mut out, &w);
            out
        },
        _ => out,
    }
}

/// The plain JSON of a configuration file read with `options`: comments are
/// removed where they are allowed, then trailing commas where they are
/// allowed; nothing where a comment is not closed.
pub fn prepare_json(content: &str, options: JsonParserOptions) -> (r: Option<String>)
    ensures
        opt_string_view(r) == prepare_json_spec(content@, options),
{
    let stripped = if options.allow_comments {
        strip_comments(content)
    } else {
        Some(String::from_str(content))
    };
    match stripped {
        Some(t) => {
            if options.allow_trailing_commas {
                Some(drop_trailing_commas(t.as_str()))
            } else {
                Some(t)
            }
        },
        None => None,
    }
}

} // verus!

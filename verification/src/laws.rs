//! Laws of configurations: how extending and migrating behave over every
//! input, and what the line splitting of ignore files keeps.

use vstd::prelude::*;
use crate::configuration::{
    extended_with, gitignore_search_spec, merge_all, migrated, PartialConfigurationView,
};
use crate::lines::{lemma_newline_pieces_len, newline_pieces, spec_lines};
use crate::string_set::{lemma_seq_union_contains, lemma_seq_union_prefix, lemma_seq_union_subsumed, seq_union};
use crate::configuration::vcs::ignore_file_name;
use crate::diagnostics::WorkspaceError;
use crate::jsonc::{
    comma_run, comma_step, comment_run, comment_step, drop_trailing_commas_spec, is_json_space, strip_comments_spec,
    CommaState, CommentState,
};

verus! {

/// Merging the configurations of `s + t` from left to right is merging
/// those of `s`, merging those of `t`, and merging the two results.
pub proof fn law_merge_all_concat(s: Seq<PartialConfigurationView>, t: Seq<PartialConfigurationView>)
    ensures
        merge_all(s + t) == PartialConfigurationView::merge(merge_all(s), merge_all(t)),
    decreases t.len(),
{
    if t.len() == 0 {
        assert(s + t =~= s);
        PartialConfigurationView::lemma_merge_identity(merge_all(s));
    } else {
        law_merge_all_concat(s, t.drop_last());
        assert((s + t).drop_last() =~= s + t.drop_last());
        assert((s + t).last() == t.last());
        PartialConfigurationView::lemma_merge_associative(merge_all(s), merge_all(t.drop_last()), t.last());
    }
}

/// A configuration that extends nothing stays as it is.
pub proof fn law_extend_nothing(c: PartialConfigurationView)
    ensures
        extended_with(c, Seq::empty()) == c,
{
    PartialConfigurationView::lemma_merge_identity(c);
}

/// What a configuration sets itself is kept when it is extended: the
/// configurations it extends only fill in what it leaves unset (and add
/// entries to its lists).
pub proof fn law_explicit_fields_win(c: PartialConfigurationView, ext: Seq<PartialConfigurationView>)
    ensures
        c.is_kept_in(extended_with(c, ext)),
{
    PartialConfigurationView::lemma_merge_keeps(merge_all(ext), c);
}

/// The extended configurations are applied from left to right: what the
/// last one sets wins over the ones before it.
pub proof fn law_last_extended_wins(ext: Seq<PartialConfigurationView>)
    requires
        ext.len() > 0,
    ensures
        ext.last().is_kept_in(merge_all(ext)),
{
    PartialConfigurationView::lemma_merge_keeps(merge_all(ext.drop_last()), ext.last());
}

/// Extending by the first configurations and then by the rest is extending
/// by all of them at once.
pub proof fn law_extend_in_two_steps(
    c: PartialConfigurationView,
    s: Seq<PartialConfigurationView>,
    t: Seq<PartialConfigurationView>,
)
    ensures
        extended_with(c, s + t) == PartialConfigurationView::merge(
            merge_all(s),
            extended_with(c, t),
        ),
{
    law_merge_all_concat(s, t);
    PartialConfigurationView::lemma_merge_associative(merge_all(s), merge_all(t), c);
}

/// Extending a configuration again by the same configurations changes
/// nothing.
pub proof fn law_extend_twice(c: PartialConfigurationView, ext: Seq<PartialConfigurationView>)
    ensures
        extended_with(extended_with(c, ext), ext) == extended_with(c, ext),
{
    let m = merge_all(ext);
    PartialConfigurationView::lemma_merge_associative(m, m, c);
    PartialConfigurationView::lemma_merge_idempotent(m);
}

/// Merging a configuration with itself changes nothing.
pub proof fn law_merge_idempotent(c: PartialConfigurationView)
    ensures
        PartialConfigurationView::merge(c, c) == c,
{
    PartialConfigurationView::lemma_merge_idempotent(c);
}

/// Migrating the deprecated fields a second time changes nothing.
pub proof fn law_migrate_idempotent(c: PartialConfigurationView)
    ensures
        migrated(migrated(c)) == migrated(c),
{
}

/// Adding an entry twice to a set of strings is adding it once.
pub proof fn law_insert_twice(a: Seq<Seq<char>>, x: Seq<char>)
    ensures
        seq_union(seq_union(a, seq![x]), seq![x]) == seq_union(a, seq![x]),
{
    let b = seq_union(a, seq![x]);
    crate::string_set::lemma_seq_union_contains(a, seq![x], x);
    assert(seq![x][0] == x);
    assert forall|y: Seq<char>| seq![x].contains(y) implies b.contains(y) by {
        let k = choose|k: int| 0 <= k < 1 && seq![x][k] == y;
    }
    lemma_seq_union_subsumed(b, seq![x]);
}

/// A text that ends with a final `\n` has the same lines as the text
/// without it, unless the text is only that `\n` or its last line ends
/// with `\r`.
pub proof fn law_final_newline(s: Seq<char>)
    requires
        s.len() > 0,
        s.last() != '\n',
        s.last() != '\r',
    ensures
        spec_lines(s.push('\n')) == spec_lines(s),
{
    let t = s.push('\n');
    assert(t.drop_last() =~= s);
    lemma_newline_pieces_len(s);
    let ps = newline_pieces(s);
    lemma_last_piece_nonempty(s);
    assert(newline_pieces(t) == ps.push(Seq::<char>::empty()));
    assert(newline_pieces(t).drop_last() =~= ps);
    assert(ps =~= ps.drop_last().push(ps.last()));
    assert(ps.map_values(|p: Seq<char>| crate::lines::strip_cr(p)) =~= ps.drop_last().map_values(
        |p: Seq<char>| crate::lines::strip_cr(p),
    ).push(crate::lines::strip_cr(ps.last())));
}

/// A text that ends with a final `\r\n` has the same lines as the text
/// without it, unless the text is only that `\r\n`.
pub proof fn law_final_crlf(s: Seq<char>)
    requires
        s.len() > 0,
        s.last() != '\n',
    ensures
        spec_lines(s.push('\r').push('\n')) == spec_lines(s),
{
    let u = s.push('\r');
    let t = u.push('\n');
    assert(t.drop_last() =~= u);
    assert(u.drop_last() =~= s);
    lemma_newline_pieces_len(s);
    let ps = newline_pieces(s);
    lemma_last_piece_nonempty(s);
    let pu = newline_pieces(u);
    assert(pu == ps.update(ps.len() - 1, ps.last().push('\r')));
    assert(pu.drop_last() =~= ps.drop_last());
    assert(pu.last() == ps.last().push('\r'));
    assert(crate::lines::strip_cr(pu.last()) =~= ps.last());
    assert(newline_pieces(t) == pu.push(Seq::<char>::empty()));
    assert(newline_pieces(t).drop_last() =~= pu);
    assert(pu =~= pu.drop_last().push(pu.last()));
    assert(pu.map_values(|p: Seq<char>| crate::lines::strip_cr(p)) =~= ps.drop_last().map_values(
        |p: Seq<char>| crate::lines::strip_cr(p),
    ).push(ps.last()));
}

/// The last piece of a text that does not end with `\n` ends with the last
/// character of the text.
proof fn lemma_last_piece_nonempty(s: Seq<char>)
    requires
        s.len() > 0,
        s.last() != '\n',
    ensures
        newline_pieces(s).last().len() > 0,
        newline_pieces(s).last().last() == s.last(),
{
    lemma_newline_pieces_len(s.drop_last());
}

/// Reading `s + t` is reading `s`, then `t` from where `s` left off, one
/// character at a time: the last step of the run over `s + t`.
proof fn lemma_comment_run_push(s: Seq<char>, t: Seq<char>)
    requires
        t.len() > 0,
    ensures
        comment_run(s + t) == ({
            let (st, out) = comment_run(s + t.drop_last());
            let (next, kept) = comment_step(st, t.last());
            (next, out + kept)
        }),
{
    assert((s + t).drop_last() =~= s + t.drop_last());
    assert((s + t).last() == t.last());
}

/// Text without `/` loses nothing to comment stripping.
pub proof fn law_no_slash_no_comment(s: Seq<char>)
    requires
        forall|i: int| 0 <= i < s.len() ==> s[i] != '/',
    ensures
        strip_comments_spec(s) == Some(s),
{
    lemma_no_slash_run(s);
}

/// Without `/`, the scan keeps every character and never enters a comment.
proof fn lemma_no_slash_run(s: Seq<char>)
    requires
        forall|i: int| 0 <= i < s.len() ==> s[i] != '/',
    ensures
        comment_run(s).1 == s,
        comment_run(s).0 == CommentState::Code || comment_run(s).0 == CommentState::Str || comment_run(s).0
            == CommentState::StrEscape,
    decreases s.len(),
{
    if s.len() > 0 {
        assert forall|i: int| 0 <= i < s.drop_last().len() implies s.drop_last()[i] != '/' by {
            assert(s.drop_last()[i] == s[i]);
        }
        lemma_no_slash_run(s.drop_last());
        assert(s.last() == s[s.len() - 1]);
        assert(s =~= s.drop_last().push(s.last()));
    }
}

/// Inside a string, text without `"` or a backslash is kept as it is.
pub proof fn law_string_text_kept(s: Seq<char>, t: Seq<char>)
    requires
        comment_run(s).0 == CommentState::Str,
        forall|i: int| 0 <= i < t.len() ==> t[i] != '"' && t[i] != '\\',
    ensures
        comment_run(s + t) == (CommentState::Str, comment_run(s).1 + t),
    decreases t.len(),
{
    if t.len() == 0 {
        assert(s + t =~= s);
    } else {
        assert forall|i: int| 0 <= i < t.drop_last().len() implies t.drop_last()[i] != '"' && t.drop_last()[i]
            != '\\' by {
            assert(t.drop_last()[i] == t[i]);
        }
        law_string_text_kept(s, t.drop_last());
        lemma_comment_run_push(s, t);
        assert(t.last() == t[t.len() - 1]);
        assert(comment_run(s).1 + t.drop_last() + seq![t.last()] =~= comment_run(s).1 + t);
    }
}

/// Outside strings, a `//` comment adds nothing up to its end of line.
pub proof fn law_line_comment_dropped(s: Seq<char>, u: Seq<char>)
    requires
        comment_run(s).0 == CommentState::Code,
        forall|i: int| 0 <= i < u.len() ==> u[i] != '\n',
    ensures
        comment_run(s + seq!['/', '/'] + u) == (CommentState::LineComment, comment_run(s).1),
    decreases u.len(),
{
    if u.len() == 0 {
        let t = seq!['/', '/'];
        assert(s + t + u =~= s + t);
        lemma_comment_run_push(s, t);
        assert(t.drop_last() =~= seq!['/']);
        lemma_comment_run_push(s, seq!['/']);
        assert(seq!['/'].drop_last() =~= Seq::<char>::empty());
        assert(s + Seq::<char>::empty() =~= s);
        assert(comment_run(s).1 + Seq::<char>::empty() + Seq::<char>::empty() =~= comment_run(s).1);
    } else {
        assert forall|i: int| 0 <= i < u.drop_last().len() implies u.drop_last()[i] != '\n' by {
            assert(u.drop_last()[i] == u[i]);
        }
        law_line_comment_dropped(s, u.drop_last());
        let p = s + seq!['/', '/'];
        lemma_comment_run_push(p, u);
        assert(p + u == s + seq!['/', '/'] + u);
        assert(u.last() == u[u.len() - 1]);
        assert(comment_run(s).1 + Seq::<char>::empty() =~= comment_run(s).1);
    }
}

/// Outside strings, a `/* */` comment without `*` inside is replaced by one
/// space.
pub proof fn law_block_comment_replaced(s: Seq<char>, u: Seq<char>)
    requires
        comment_run(s).0 == CommentState::Code,
        forall|i: int| 0 <= i < u.len() ==> u[i] != '*',
    ensures
        comment_run(s + seq!['/', '*'] + u + seq!['*', '/']) == (CommentState::Code, comment_run(s).1.push(' ')),
{
    lemma_block_inside(s, u);
    let p = s + seq!['/', '*'] + u;
    let t = seq!['*', '/'];
    lemma_comment_run_push(p, t);
    assert(t.drop_last() =~= seq!['*']);
    lemma_comment_run_push(p, seq!['*']);
    assert(seq!['*'].drop_last() =~= Seq::<char>::empty());
    assert(p + Seq::<char>::empty() =~= p);
    assert(p + t == s + seq!['/', '*'] + u + seq!['*', '/']);
    assert(comment_run(s).1 + Seq::<char>::empty() + Seq::<char>::empty() + seq![' '] =~= comment_run(s).1.push(
        ' ',
    ));
}

/// Inside a `/* */` comment, text without `*` adds nothing.
proof fn lemma_block_inside(s: Seq<char>, u: Seq<char>)
    requires
        comment_run(s).0 == CommentState::Code,
        forall|i: int| 0 <= i < u.len() ==> u[i] != '*',
    ensures
        comment_run(s + seq!['/', '*'] + u) == (CommentState::Block, comment_run(s).1),
    decreases u.len(),
{
    if u.len() == 0 {
        let t = seq!['/', '*'];
        assert(s + t + u =~= s + t);
        lemma_comment_run_push(s, t);
        assert(t.drop_last() =~= seq!['/']);
        lemma_comment_run_push(s, seq!['/']);
        assert(seq!['/'].drop_last() =~= Seq::<char>::empty());
        assert(s + Seq::<char>::empty() =~= s);
        assert(comment_run(s).1 + Seq::<char>::empty() + Seq::<char>::empty() =~= comment_run(s).1);
    } else {
        assert forall|i: int| 0 <= i < u.drop_last().len() implies u.drop_last()[i] != '*' by {
            assert(u.drop_last()[i] == u[i]);
        }
        lemma_block_inside(s, u.drop_last());
        let p = s + seq!['/', '*'];
        lemma_comment_run_push(p, u);
        assert(p + u == s + seq!['/', '*'] + u);
        assert(u.last() == u[u.len() - 1]);
        assert(comment_run(s).1 + Seq::<char>::empty() =~= comment_run(s).1);
    }
}

/// Text without `,` loses nothing to the removal of trailing commas.
pub proof fn law_no_comma_unchanged(s: Seq<char>)
    requires
        forall|i: int| 0 <= i < s.len() ==> s[i] != ',',
    ensures
        drop_trailing_commas_spec(s) == s,
{
    lemma_no_comma_run(s);
}

/// Without `,`, the scan writes every character and holds nothing back.
proof fn lemma_no_comma_run(s: Seq<char>)
    requires
        forall|i: int| 0 <= i < s.len() ==> s[i] != ',',
    ensures
        comma_run(s).1 == s,
        !(comma_run(s).0 is Pending),
    decreases s.len(),
{
    if s.len() > 0 {
        assert forall|i: int| 0 <= i < s.drop_last().len() implies s.drop_last()[i] != ',' by {
            assert(s.drop_last()[i] == s[i]);
        }
        lemma_no_comma_run(s.drop_last());
        assert(s.last() == s[s.len() - 1]);
        assert(s =~= s.drop_last().push(s.last()));
    }
}

/// Merging keeps every VCS option that the second configuration leaves unset, and takes every one it sets.
pub proof fn law_merge_vcs_fields(a: PartialConfigurationView, b: PartialConfigurationView)
    ensures
        a.vcs is None ==> PartialConfigurationView::merge(a, b).vcs == b.vcs,
        b.vcs is None ==> PartialConfigurationView::merge(a, b).vcs == a.vcs,
        a.vcs matches Some(x) ==> b.vcs matches Some(y) ==> PartialConfigurationView::merge(a, b).vcs matches Some(z) && {
            &&& (y.enabled is None ==> z.enabled == x.enabled)
            &&& (y.enabled is Some ==> z.enabled == y.enabled)
            &&& (y.client_kind is None ==> z.client_kind == x.client_kind)
            &&& (y.client_kind is Some ==> z.client_kind == y.client_kind)
            &&& (y.use_ignore_file is None ==> z.use_ignore_file == x.use_ignore_file)
            &&& (y.use_ignore_file is Some ==> z.use_ignore_file == y.use_ignore_file)
            &&& (y.root is None ==> z.root == x.root)
            &&& (y.root is Some ==> z.root == y.root)
        },
{
}

/// Merging keeps every formatter option that the second configuration leaves unset, and takes every one it sets.
pub proof fn law_merge_formatter_fields(a: PartialConfigurationView, b: PartialConfigurationView)
    ensures
        a.formatter is None ==> PartialConfigurationView::merge(a, b).formatter == b.formatter,
        b.formatter is None ==> PartialConfigurationView::merge(a, b).formatter == a.formatter,
        a.formatter matches Some(x) ==> b.formatter matches Some(y) ==> PartialConfigurationView::merge(a, b).formatter matches Some(z) && {
            &&& (y.enabled is None ==> z.enabled == x.enabled)
            &&& (y.enabled is Some ==> z.enabled == y.enabled)
            &&& (y.indent_size is None ==> z.indent_size == x.indent_size)
            &&& (y.indent_size is Some ==> z.indent_size == y.indent_size)
            &&& (y.indent_width is None ==> z.indent_width == x.indent_width)
            &&& (y.indent_width is Some ==> z.indent_width == y.indent_width)
        },
{
}

/// Merging keeps the import sorting option where the second configuration leaves it unset, and takes it where it is set.
pub proof fn law_merge_organize_imports_fields(a: PartialConfigurationView, b: PartialConfigurationView)
    ensures
        a.organize_imports is None ==> PartialConfigurationView::merge(a, b).organize_imports == b.organize_imports,
        b.organize_imports is None ==> PartialConfigurationView::merge(a, b).organize_imports == a.organize_imports,
        a.organize_imports matches Some(x) ==> b.organize_imports matches Some(y) ==> PartialConfigurationView::merge(a, b).organize_imports matches Some(z) && {
            &&& (y.enabled is None ==> z.enabled == x.enabled)
            &&& (y.enabled is Some ==> z.enabled == y.enabled)
        },
{
}

/// Merging keeps every plain option of `files` that the second configuration leaves unset, and takes every one it sets.
pub proof fn law_merge_files_fields(a: PartialConfigurationView, b: PartialConfigurationView)
    ensures
        a.files is None ==> PartialConfigurationView::merge(a, b).files == b.files,
        b.files is None ==> PartialConfigurationView::merge(a, b).files == a.files,
        a.files matches Some(x) ==> b.files matches Some(y) ==> PartialConfigurationView::merge(a, b).files matches Some(z) && {
            &&& (y.max_size is None ==> z.max_size == x.max_size)
            &&& (y.max_size is Some ==> z.max_size == y.max_size)
            &&& (y.ignore_unknown is None ==> z.ignore_unknown == x.ignore_unknown)
            &&& (y.ignore_unknown is Some ==> z.ignore_unknown == y.ignore_unknown)
        },
{
}

/// Merging keeps every linter option, down to each rule option, that the second configuration leaves unset, and takes every one it sets.
pub proof fn law_merge_linter_fields(a: PartialConfigurationView, b: PartialConfigurationView)
    ensures
        a.linter is None ==> PartialConfigurationView::merge(a, b).linter == b.linter,
        b.linter is None ==> PartialConfigurationView::merge(a, b).linter == a.linter,
        a.linter matches Some(x) ==> b.linter matches Some(y) ==> PartialConfigurationView::merge(a, b).linter matches Some(z) && {
            &&& (y.enabled is None ==> z.enabled == x.enabled)
            &&& (y.enabled is Some ==> z.enabled == y.enabled)
        },
        a.linter matches Some(x) ==> b.linter matches Some(y) ==> x.rules is None ==> (PartialConfigurationView::merge(a, b).linter matches Some(z) && z.rules == y.rules),
        a.linter matches Some(x) ==> b.linter matches Some(y) ==> y.rules is None ==> (PartialConfigurationView::merge(a, b).linter matches Some(z) && z.rules == x.rules),
        a.linter matches Some(x) ==> b.linter matches Some(y) ==> x.rules matches Some(xs) ==> y.rules matches Some(ys) ==> (PartialConfigurationView::merge(a, b).linter matches Some(z) && z.rules matches Some(zs) && {
            &&& (ys.recommended is None ==> zs.recommended == xs.recommended)
            &&& (ys.recommended is Some ==> zs.recommended == ys.recommended)
            &&& (ys.all is None ==> zs.all == xs.all)
            &&& (ys.all is Some ==> zs.all == ys.all)
        }),
{
}

/// Merging keeps every option of the javascript formatter that the second configuration leaves unset, and takes every one it sets.
pub proof fn law_merge_javascript_fields(a: PartialConfigurationView, b: PartialConfigurationView)
    ensures
        a.javascript is None ==> PartialConfigurationView::merge(a, b).javascript == b.javascript,
        b.javascript is None ==> PartialConfigurationView::merge(a, b).javascript == a.javascript,
        a.javascript matches Some(x) ==> b.javascript matches Some(y) ==> x.formatter is None ==> (PartialConfigurationView::merge(a, b).javascript matches Some(z) && z.formatter == y.formatter),
        a.javascript matches Some(x) ==> b.javascript matches Some(y) ==> y.formatter is None ==> (PartialConfigurationView::merge(a, b).javascript matches Some(z) && z.formatter == x.formatter),
        a.javascript matches Some(x) ==> b.javascript matches Some(y) ==> x.formatter matches Some(xs) ==> y.formatter matches Some(ys) ==> (PartialConfigurationView::merge(a, b).javascript matches Some(z) && z.formatter matches Some(zs) && {
            &&& (ys.indent_size is None ==> zs.indent_size == xs.indent_size)
            &&& (ys.indent_size is Some ==> zs.indent_size == ys.indent_size)
            &&& (ys.indent_width is None ==> zs.indent_width == xs.indent_width)
            &&& (ys.indent_width is Some ==> zs.indent_width == ys.indent_width)
        }),
{
}

/// Merging keeps every option of the json formatter that the second configuration leaves unset, and takes every one it sets.
pub proof fn law_merge_json_fields(a: PartialConfigurationView, b: PartialConfigurationView)
    ensures
        a.json is None ==> PartialConfigurationView::merge(a, b).json == b.json,
        b.json is None ==> PartialConfigurationView::merge(a, b).json == a.json,
        a.json matches Some(x) ==> b.json matches Some(y) ==> x.formatter is None ==> (PartialConfigurationView::merge(a, b).json matches Some(z) && z.formatter == y.formatter),
        a.json matches Some(x) ==> b.json matches Some(y) ==> y.formatter is None ==> (PartialConfigurationView::merge(a, b).json matches Some(z) && z.formatter == x.formatter),
        a.json matches Some(x) ==> b.json matches Some(y) ==> x.formatter matches Some(xs) ==> y.formatter matches Some(ys) ==> (PartialConfigurationView::merge(a, b).json matches Some(z) && z.formatter matches Some(zs) && {
            &&& (ys.indent_size is None ==> zs.indent_size == xs.indent_size)
            &&& (ys.indent_size is Some ==> zs.indent_size == ys.indent_size)
            &&& (ys.indent_width is None ==> zs.indent_width == xs.indent_width)
            &&& (ys.indent_width is Some ==> zs.indent_width == ys.indent_width)
        }),
{
}

/// Merging keeps every option of the css formatter that the second configuration leaves unset, and takes every one it sets.
pub proof fn law_merge_css_fields(a: PartialConfigurationView, b: PartialConfigurationView)
    ensures
        a.css is None ==> PartialConfigurationView::merge(a, b).css == b.css,
        b.css is None ==> PartialConfigurationView::merge(a, b).css == a.css,
        a.css matches Some(x) ==> b.css matches Some(y) ==> x.formatter is None ==> (PartialConfigurationView::merge(a, b).css matches Some(z) && z.formatter == y.formatter),
        a.css matches Some(x) ==> b.css matches Some(y) ==> y.formatter is None ==> (PartialConfigurationView::merge(a, b).css matches Some(z) && z.formatter == x.formatter),
        a.css matches Some(x) ==> b.css matches Some(y) ==> x.formatter matches Some(xs) ==> y.formatter matches Some(ys) ==> (PartialConfigurationView::merge(a, b).css matches Some(z) && z.formatter matches Some(zs) && {
            &&& (ys.indent_size is None ==> zs.indent_size == xs.indent_size)
            &&& (ys.indent_size is Some ==> zs.indent_size == ys.indent_size)
            &&& (ys.indent_width is None ==> zs.indent_width == xs.indent_width)
            &&& (ys.indent_width is Some ==> zs.indent_width == ys.indent_width)
        }),
{
}

/// Merging two lists of strings (`extends`, and the patterns of `files`)
/// gives exactly the entries of both, those of the first in their order
/// first.
pub proof fn law_merge_lists(a: PartialConfigurationView, b: PartialConfigurationView)
    ensures
        a.extends matches Some(x) ==> b.extends matches Some(y) ==> PartialConfigurationView::merge(a, b).extends matches Some(z) && {
            &&& z.subrange(0, x.len() as int) == x
            &&& forall|e: Seq<char>| z.contains(e) <==> (x.contains(e) || y.contains(e))
        },
        a.files matches Some(f) ==> b.files matches Some(g) ==> f.ignore matches Some(x) ==> g.ignore matches Some(y)
            ==> (PartialConfigurationView::merge(a, b).files matches Some(h) && h.ignore matches Some(z) && {
            &&& z.subrange(0, x.len() as int) == x
            &&& forall|e: Seq<char>| z.contains(e) <==> (x.contains(e) || y.contains(e))
        }),
        a.files matches Some(f) ==> b.files matches Some(g) ==> f.included matches Some(x) ==> g.included matches Some(y)
            ==> (PartialConfigurationView::merge(a, b).files matches Some(h) && h.included matches Some(z) && {
            &&& z.subrange(0, x.len() as int) == x
            &&& forall|e: Seq<char>| z.contains(e) <==> (x.contains(e) || y.contains(e))
        }),
{
    if a.extends is Some && b.extends is Some {
        let (x, y) = (a.extends.unwrap(), b.extends.unwrap());
        lemma_seq_union_prefix(x, y);
        assert forall|e: Seq<char>| seq_union(x, y).contains(e) <==> (x.contains(e) || y.contains(e)) by {
            lemma_seq_union_contains(x, y, e);
        }
    }
    if a.files is Some && b.files is Some {
        let (f, g) = (a.files.unwrap(), b.files.unwrap());
        if f.ignore is Some && g.ignore is Some {
            let (x, y) = (f.ignore.unwrap(), g.ignore.unwrap());
            lemma_seq_union_prefix(x, y);
            assert forall|e: Seq<char>| seq_union(x, y).contains(e) <==> (x.contains(e) || y.contains(e)) by {
                lemma_seq_union_contains(x, y, e);
            }
        }
        if f.included is Some && g.included is Some {
            let (x, y) = (f.included.unwrap(), g.included.unwrap());
            lemma_seq_union_prefix(x, y);
            assert forall|e: Seq<char>| seq_union(x, y).contains(e) <==> (x.contains(e) || y.contains(e)) by {
                lemma_seq_union_contains(x, y, e);
            }
        }
    }
}

/// Extending fills in every option that the configuration leaves unset
/// with the value of the extended configurations, down to each rule option
/// of the linter and each VCS option, and keeps every option it sets.
pub proof fn law_extends_fill_nested_options(c: PartialConfigurationView, ext: Seq<PartialConfigurationView>)
    ensures
        c.linter matches Some(l) ==> merge_all(ext).linter matches Some(m) ==> l.rules matches Some(r)
            ==> m.rules matches Some(q) ==> (extended_with(c, ext).linter matches Some(e) && e.rules matches Some(er)
            && {
            &&& (r.recommended is None ==> er.recommended == q.recommended)
            &&& (r.recommended is Some ==> er.recommended == r.recommended)
            &&& (r.all is None ==> er.all == q.all)
            &&& (r.all is Some ==> er.all == r.all)
        }),
        c.vcs matches Some(v) ==> merge_all(ext).vcs matches Some(w) ==> (extended_with(c, ext).vcs matches Some(e)
            && {
            &&& (v.enabled is None ==> e.enabled == w.enabled)
            &&& (v.enabled is Some ==> e.enabled == v.enabled)
            &&& (v.client_kind is None ==> e.client_kind == w.client_kind)
            &&& (v.client_kind is Some ==> e.client_kind == v.client_kind)
            &&& (v.use_ignore_file is None ==> e.use_ignore_file == w.use_ignore_file)
            &&& (v.use_ignore_file is Some ==> e.use_ignore_file == v.use_ignore_file)
            &&& (v.root is None ==> e.root == w.root)
            &&& (v.root is Some ==> e.root == v.root)
        }),
{
    law_merge_linter_fields(merge_all(ext), c);
    law_merge_vcs_fields(merge_all(ext), c);
}

/// After migration every formatter that is present has an indentation
/// width: the deprecated indentation size where only that was set, its own
/// width where it had one; every other option is left as it was.
pub proof fn law_migrate_fills_indent_width(c: PartialConfigurationView)
    ensures
        migrated(c).schema == c.schema,
        migrated(c).vcs == c.vcs,
        migrated(c).files == c.files,
        migrated(c).organize_imports == c.organize_imports,
        migrated(c).linter == c.linter,
        migrated(c).extends == c.extends,
        c.formatter is None ==> migrated(c).formatter is None,
        c.formatter matches Some(f) ==> (migrated(c).formatter matches Some(g) && {
            &&& g.enabled == f.enabled
            &&& g.indent_size == f.indent_size
            &&& (f.indent_width is Some ==> g.indent_width == f.indent_width)
            &&& (f.indent_width is None ==> g.indent_width == f.indent_size)
        }),
        c.javascript is None ==> migrated(c).javascript is None,
        c.javascript matches Some(j) ==> (migrated(c).javascript matches Some(k) && {
            &&& (j.formatter is None ==> k.formatter is None)
            &&& (j.formatter matches Some(f) ==> (k.formatter matches Some(g) && {
                &&& g.indent_size == f.indent_size
                &&& (f.indent_width is Some ==> g.indent_width == f.indent_width)
                &&& (f.indent_width is None ==> g.indent_width == f.indent_size)
            }))
        }),
        c.json is None ==> migrated(c).json is None,
        c.json matches Some(j) ==> (migrated(c).json matches Some(k) && {
            &&& (j.formatter is None ==> k.formatter is None)
            &&& (j.formatter matches Some(f) ==> (k.formatter matches Some(g) && {
                &&& g.indent_size == f.indent_size
                &&& (f.indent_width is Some ==> g.indent_width == f.indent_width)
                &&& (f.indent_width is None ==> g.indent_width == f.indent_size)
            }))
        }),
        c.css is None ==> migrated(c).css is None,
        c.css matches Some(j) ==> (migrated(c).css matches Some(k) && {
            &&& (j.formatter is None ==> k.formatter is None)
            &&& (j.formatter matches Some(f) ==> (k.formatter matches Some(g) && {
                &&& g.indent_size == f.indent_size
                &&& (f.indent_width is Some ==> g.indent_width == f.indent_width)
                &&& (f.indent_width is None ==> g.indent_width == f.indent_size)
            }))
        }),
{
}

/// Where the ignore file is looked for. Nothing is looked for without a VCS
/// section, unless it is enabled, without a client, or where the ignore
/// file is switched off. Where it is enabled with neither a base path nor a
/// root, that is an error. Otherwise the ignore file of the client is
/// looked for from the base path, joined with the root where both are
/// given, or from the root alone.
pub proof fn law_gitignore_search(c: PartialConfigurationView, base: Option<Seq<char>>)
    ensures
        c.vcs is None ==> gitignore_search_spec(c, base) == Ok::<Option<(Seq<char>, Option<Seq<char>>, Seq<char>)>, WorkspaceError>(None),
        c.vcs matches Some(v) ==> v.enabled != Some(true) ==> gitignore_search_spec(c, base) == Ok::<Option<(Seq<char>, Option<Seq<char>>, Seq<char>)>, WorkspaceError>(None),
        c.vcs matches Some(v) ==> v.enabled == Some(true) ==> base is None ==> v.root is None
            ==> gitignore_search_spec(c, base) == Err::<Option<(Seq<char>, Option<Seq<char>>, Seq<char>)>, WorkspaceError>(WorkspaceError::VcsDisabled),
        c.vcs matches Some(v) ==> v.enabled == Some(true) ==> (base is Some || v.root is Some) ==> (v.client_kind is None
            || v.use_ignore_file == Some(false)) ==> gitignore_search_spec(c, base) == Ok::<Option<(Seq<char>, Option<Seq<char>>, Seq<char>)>, WorkspaceError>(None),
        c.vcs matches Some(v) ==> (v.enabled == Some(true) && v.use_ignore_file != Some(false) ==> (v.client_kind matches Some(k)
            ==> (base matches Some(b) ==> gitignore_search_spec(c, base) == Ok::<Option<(Seq<char>, Option<Seq<char>>, Seq<char>)>, WorkspaceError>(Some((b, v.root, ignore_file_name(k))))))),
        c.vcs matches Some(v) ==> (v.enabled == Some(true) && v.use_ignore_file != Some(false) && base is None ==> (v.client_kind matches Some(k)
            ==> (v.root matches Some(r) ==> gitignore_search_spec(c, base) == Ok::<Option<(Seq<char>, Option<Seq<char>>, Seq<char>)>, WorkspaceError>(Some((r, None, ignore_file_name(k))))))),
{
}

/// Inside a `/* */` comment, text in which no `*` is followed by `/` adds
/// nothing; the scan is right after a `*` exactly when the text ends with
/// one.
proof fn lemma_block_body(p: Seq<char>, u: Seq<char>)
    requires
        comment_run(p).0 == CommentState::Block,
        forall|i: int| #![trigger u[i]] 0 <= i < u.len() - 1 ==> !(u[i] == '*' && u[i + 1] == '/'),
    ensures
        comment_run(p + u).1 == comment_run(p).1,
        comment_run(p + u).0 == (if u.len() > 0 && u.last() == '*' {
            CommentState::BlockStar
        } else {
            CommentState::Block
        }),
    decreases u.len(),
{
    if u.len() == 0 {
        assert(p + u =~= p);
    } else {
        let v = u.drop_last();
        assert forall|i: int| #![trigger v[i]] 0 <= i < v.len() - 1 implies !(v[i] == '*' && v[i + 1] == '/') by {
            assert(v[i] == u[i] && v[i + 1] == u[i + 1]);
        }
        lemma_block_body(p, v);
        lemma_comment_run_push(p, u);
        assert(u.last() == u[u.len() - 1]);
        if v.len() > 0 {
            assert(v.last() == u[u.len() - 2]);
        }
        assert(comment_run(p).1 + Seq::<char>::empty() =~= comment_run(p).1);
    }
}

/// Outside strings, a `/* */` comment is replaced by one space, whatever it
/// holds up to its first `*/`, `*` characters included.
pub proof fn law_block_comment_with_stars(s: Seq<char>, u: Seq<char>)
    requires
        comment_run(s).0 == CommentState::Code,
        forall|i: int| #![trigger u[i]] 0 <= i < u.len() - 1 ==> !(u[i] == '*' && u[i + 1] == '/'),
    ensures
        comment_run(s + seq!['/', '*'] + u + seq!['*', '/']) == (CommentState::Code, comment_run(s).1.push(' ')),
{
    lemma_block_inside(s, Seq::<char>::empty());
    let p = s + seq!['/', '*'];
    assert(s + seq!['/', '*'] + Seq::<char>::empty() =~= p);
    lemma_block_body(p, u);
    let q = p + u;
    let t = seq!['*', '/'];
    lemma_comment_run_push(q, t);
    assert(t.drop_last() =~= seq!['*']);
    lemma_comment_run_push(q, seq!['*']);
    assert(seq!['*'].drop_last() =~= Seq::<char>::empty());
    assert(q + Seq::<char>::empty() =~= q);
    assert(q + t == s + seq!['/', '*'] + u + seq!['*', '/']);
    assert(comment_run(s).1 + Seq::<char>::empty() + Seq::<char>::empty() + seq![' '] =~= comment_run(s).1.push(
        ' ',
    ));
}

/// Merging keeps the schema of the first configuration where the second
/// sets none, and takes the second one's otherwise.
pub proof fn law_merge_schema(a: PartialConfigurationView, b: PartialConfigurationView)
    ensures
        b.schema is None ==> PartialConfigurationView::merge(a, b).schema == a.schema,
        b.schema is Some ==> PartialConfigurationView::merge(a, b).schema == b.schema,
{
}

/// Reading `s + t` for trailing commas is reading `s`, then the last
/// character of `t` after the rest of it.
proof fn lemma_comma_run_push(s: Seq<char>, t: Seq<char>)
    requires
        t.len() > 0,
    ensures
        comma_run(s + t) == ({
            let (st, out) = comma_run(s + t.drop_last());
            let (next, kept) = comma_step(st, t.last());
            (next, out + kept)
        }),
{
    assert((s + t).drop_last() =~= s + t.drop_last());
    assert((s + t).last() == t.last());
}

/// After a comma that follows a value, white space is held back with it.
proof fn lemma_comma_pending(s: Seq<char>, w: Seq<char>)
    requires
        comma_run(s).0 == CommaState::Code(true),
        forall|i: int| 0 <= i < w.len() ==> is_json_space(#[trigger] w[i]),
    ensures
        comma_run(s + seq![','] + w) == (CommaState::Pending(w), comma_run(s).1),
    decreases w.len(),
{
    if w.len() == 0 {
        assert(s + seq![','] + w =~= s + seq![',']);
        assert(w =~= Seq::<char>::empty());
        lemma_comma_run_push(s, seq![',']);
        assert(seq![','].drop_last() =~= Seq::<char>::empty());
        assert(s + Seq::<char>::empty() =~= s);
        assert(comma_run(s).1 + Seq::<char>::empty() =~= comma_run(s).1);
    } else {
        let v = w.drop_last();
        assert forall|i: int| 0 <= i < v.len() implies is_json_space(#[trigger] v[i]) by {
            assert(v[i] == w[i]);
        }
        lemma_comma_pending(s, v);
        let p = s + seq![','];
        lemma_comma_run_push(p, w);
        assert(p + w == s + seq![','] + w);
        assert(p + v == s + seq![','] + v);
        assert(w.last() == w[w.len() - 1]);
        assert(v.push(w.last()) =~= w);
        assert(comma_run(s).1 + Seq::<char>::empty() =~= comma_run(s).1);
    }
}

/// Outside strings, a comma that follows a value and comes right before a
/// `}` or `]`, with only white space between them, is dropped; the white
/// space and the bracket are kept.
pub proof fn law_trailing_comma_dropped(s: Seq<char>, w: Seq<char>, c: char)
    requires
        comma_run(s).0 == CommaState::Code(true),
        forall|i: int| 0 <= i < w.len() ==> is_json_space(#[trigger] w[i]),
        c == '}' || c == ']',
    ensures
        comma_run(s + seq![','] + w + seq![c]) == (CommaState::Code(true), comma_run(s).1 + w + seq![c]),
{
    lemma_comma_pending(s, w);
    let p = s + seq![','] + w;
    lemma_comma_run_push(p, seq![c]);
    assert(seq![c].drop_last() =~= Seq::<char>::empty());
    assert(p + Seq::<char>::empty() =~= p);
    assert(seq![c].last() == c);
    assert(comma_run(s).1 + w.push(c) =~= comma_run(s).1 + w + seq![c]);
}

/// Outside strings, a comma that does not follow a value (right after `[`,
/// `{`, `:` or another comma) is written as it is.
pub proof fn law_comma_without_value_kept(s: Seq<char>)
    requires
        comma_run(s).0 == CommaState::Code(false),
    ensures
        comma_run(s + seq![',']) == (CommaState::Code(false), comma_run(s).1.push(',')),
{
    lemma_comma_run_push(s, seq![',']);
    assert(seq![','].drop_last() =~= Seq::<char>::empty());
    assert(s + Seq::<char>::empty() =~= s);
    assert(seq![','].last() == ',');
}

/// A comma that follows a value and is followed by another value is kept.
pub proof fn law_separating_comma_kept(s: Seq<char>, w: Seq<char>, c: char)
    requires
        comma_run(s).0 == CommaState::Code(true),
        forall|i: int| 0 <= i < w.len() ==> is_json_space(#[trigger] w[i]),
        !is_json_space(c),
        c != '}' && c != ']' && c != ',',
    ensures
        comma_run(s + seq![','] + w + seq![c]).1 == comma_run(s).1 + seq![','] + w + seq![c],
{
    lemma_comma_pending(s, w);
    let p = s + seq![','] + w;
    lemma_comma_run_push(p, seq![c]);
    assert(seq![c].drop_last() =~= Seq::<char>::empty());
    assert(p + Seq::<char>::empty() =~= p);
    assert(seq![c].last() == c);
    assert(comma_run(s).1 + (seq![','] + w + seq![c]) =~= comma_run(s).1 + seq![','] + w + seq![c]);
}

/// Pieces of text joined with `\n` between them.
pub open spec fn join_newline(ps: Seq<Seq<char>>) -> Seq<char>
    decreases ps.len(),
{
    if ps.len() == 0 {
        Seq::empty()
    } else if ps.len() == 1 {
        ps[0]
    } else {
        join_newline(ps.drop_last()) + seq!['\n'] + ps.last()
    }
}

/// Extending the last piece extends the joined text.
proof fn lemma_join_extend_last(ps: Seq<Seq<char>>, c: char)
    requires
        ps.len() > 0,
    ensures
        join_newline(ps.update(ps.len() - 1, ps.last().push(c))) == join_newline(ps).push(c),
{
    let qs = ps.update(ps.len() - 1, ps.last().push(c));
    if ps.len() > 1 {
        assert(qs.drop_last() =~= ps.drop_last());
    }
}

/// Joining the pieces of a text between its `\n` characters with `\n`
/// gives the text back, and no piece holds a `\n`.
pub proof fn law_newline_pieces_rejoin(s: Seq<char>)
    ensures
        join_newline(newline_pieces(s)) == s,
        forall|k: int, j: int| 0 <= k < newline_pieces(s).len() && 0 <= j < newline_pieces(s)[k].len()
            ==> newline_pieces(s)[k][j] != '\n',
    decreases s.len(),
{
    if s.len() > 0 {
        let t = s.drop_last();
        law_newline_pieces_rejoin(t);
        lemma_newline_pieces_len(t);
        let ps = newline_pieces(t);
        if s.last() == '\n' {
            assert(ps.push(Seq::<char>::empty()).drop_last() =~= ps);
            assert(t + seq!['\n'] + Seq::<char>::empty() =~= s);
        } else {
            lemma_join_extend_last(ps, s.last());
            assert(t.push(s.last()) =~= s);
            let qs = ps.update(ps.len() - 1, ps.last().push(s.last()));
            assert forall|k: int, j: int| 0 <= k < qs.len() && 0 <= j < qs[k].len() implies qs[k][j] != '\n' by {
                if k == qs.len() - 1 && j == ps.last().len() {
                } else if k == qs.len() - 1 {
                    assert(qs[k][j] == ps[k][j]);
                }
            }
        }
    }
}

/// No line of a text holds a `\n`.
pub proof fn law_lines_hold_no_newline(s: Seq<char>)
    ensures
        forall|k: int, j: int| 0 <= k < spec_lines(s).len() && 0 <= j < spec_lines(s)[k].len() ==> spec_lines(s)[k][j]
            != '\n',
{
    law_newline_pieces_rejoin(s);
    lemma_newline_pieces_len(s);
    let ps = newline_pieces(s);
    let ls = spec_lines(s);
    assert forall|k: int, j: int| 0 <= k < ls.len() && 0 <= j < ls[k].len() implies ls[k][j] != '\n' by {
        if k < ps.len() - 1 {
            let p = ps[k];
            assert(ls[k] == crate::lines::strip_cr(p));
            if p.len() > 0 && p.last() == '\r' {
                assert(ls[k][j] == p[j]);
            }
        } else {
            assert(ls[k] == ps.last());
            assert(ps.last() == ps[ps.len() - 1]);
        }
    }
}

} // verus!


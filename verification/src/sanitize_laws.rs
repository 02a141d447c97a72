//! Properties of the sanitizer: a sanitized text holds no run of
//! separator tokens, starts and ends with no separator token, and
//! sanitizing a second time changes nothing.

use vstd::prelude::*;
use crate::text::lemma_pat_at_skip;
use crate::sanitize::{
    sep_seq, sep_at, skip_spaces, trim_end_spaces, skip_sep_run, collapse_seps, collapse_ws,
    collapse_ws_go, strip_front, strip_back, sanitize_spec, is_space_char,
    lemma_skip_spaces_len, lemma_trim_end_len, lemma_skip_sep_run_len,
};

verus! {

/// Two separator tokens stand at `i`, adjacent or parted by one space.
pub open spec fn dup_sep_at(s: Seq<char>, i: int) -> bool {
    sep_at(s, i) && (sep_at(s, i + 5) || (i + 6 <= s.len() && s[i + 5] == ' ' && sep_at(s, i + 6)))
}

/// No position of `s` holds a run of separator tokens.
pub open spec fn no_dup_seps(s: Seq<char>) -> bool {
    forall|i: int| !dup_sep_at(s, i)
}

/// Separator occurrences shift under `skip`.
pub proof fn lemma_sep_at_skip(s: Seq<char>, k: int, i: int)
    requires
        0 <= k <= s.len(),
        0 <= i,
    ensures
        sep_at(s.skip(k), i) == sep_at(s, k + i),
{
    lemma_pat_at_skip(s, i, k, sep_seq());
}

/// Separator occurrences inside a prefix are occurrences of the whole.
pub proof fn lemma_sep_at_prefix(s: Seq<char>, m: int, i: int)
    requires
        0 <= i,
        i + 5 <= m <= s.len(),
    ensures
        sep_at(s.subrange(0, m), i) == sep_at(s, i),
{
    assert(s.subrange(0, m).subrange(i, i + 5) =~= s.subrange(i, i + 5));
}

/// Separator occurrences at or after a concatenation boundary lie in the
/// right part.
pub proof fn lemma_sep_at_concat_right(x: Seq<char>, y: Seq<char>, j: int)
    requires
        j >= x.len(),
    ensures
        sep_at(x + y, j) == sep_at(y, j - x.len()),
{
    let n = x.len() as int;
    if j + 5 <= x.len() + y.len() {
        assert((x + y).subrange(j, j + 5) =~= y.subrange(j - n, j - n + 5));
    }
}

/// No separator token starts strictly inside another separator token.
pub proof fn lemma_no_sep_inside_sep(y: Seq<char>, j: int)
    requires
        1 <= j < 5,
    ensures
        !sep_at(sep_seq() + y, j),
{
    let s = sep_seq() + y;
    if sep_at(s, j) {
        assert(s.subrange(j, j + 5)[0] == s[j]);
        assert(s[j] == sep_seq()[j]);
        assert(sep_seq()[j] != '{');
    }
}

/// A brace-free prefix of the separator-collapsed text is a prefix of the
/// uncollapsed text.
proof fn lemma_csp_brace_free_prefix(u: Seq<char>, p: Seq<char>)
    requires
        forall|k: int| 0 <= k < p.len() ==> p[k] != '{',
        p.len() <= collapse_seps(u).len(),
        collapse_seps(u).subrange(0, p.len() as int) == p,
    ensures
        p.len() <= u.len(),
        u.subrange(0, p.len() as int) == p,
    decreases u.len(),
{
    let r = collapse_seps(u);
    if p.len() == 0 {
        assert(u.subrange(0, 0) =~= p);
    } else {
        assert(u.len() > 0);
        assert(r.subrange(0, p.len() as int)[0] == r[0]);
        if sep_at(u, 0) {
            assert(r == sep_seq() + collapse_seps(skip_sep_run(u.skip(5))));
            assert(r[0] == '{');
            assert(p[0] == '{');
            assert(false);
        } else {
            let r1 = collapse_seps(u.skip(1));
            assert(r == seq![u[0]] + r1);
            assert(p[0] == u[0]);
            let p1 = p.skip(1);
            assert(p1.len() <= r1.len());
            assert(r1.subrange(0, p1.len() as int) =~= p1) by {
                assert forall|k: int| 0 <= k < p1.len() implies r1.subrange(0, p1.len() as int)[k]
                    == p1[k] by {
                    assert(r1[k] == r[k + 1]);
                    assert(r.subrange(0, p.len() as int)[k + 1] == r[k + 1]);
                }
            }
            lemma_csp_brace_free_prefix(u.skip(1), p1);
            assert(u.subrange(0, p.len() as int) =~= p) by {
                assert forall|k: int| 0 <= k < p.len() implies u.subrange(0, p.len() as int)[k]
                    == p[k] by {
                    if k > 0 {
                        assert(u.skip(1).subrange(0, p1.len() as int)[k - 1] == p1[k - 1]);
                    }
                }
            }
        }
    }
}

/// If the text does not begin with a separator token, neither does its
/// separator-collapsed form.
proof fn lemma_csp_head_not_sep(t: Seq<char>)
    requires
        !sep_at(t, 0),
    ensures
        !sep_at(collapse_seps(t), 0),
{
    let r = collapse_seps(t);
    if sep_at(r, 0) {
        assert(t.len() > 0);
        let r1 = collapse_seps(t.skip(1));
        assert(r == seq![t[0]] + r1);
        assert(r.subrange(0, 5)[0] == r[0]);
        assert(r[0] == '{');
        assert(t[0] == '{');
        let p = seq!['s', 'e', 'p', '}'];
        assert(p.len() <= r1.len());
        assert(r1.subrange(0, 4) =~= p) by {
            assert forall|k: int| 0 <= k < 4 implies r1.subrange(0, 4)[k] == p[k] by {
                assert(r1[k] == r[k + 1]);
                assert(r.subrange(0, 5)[k + 1] == r[k + 1]);
                assert(sep_seq()[k + 1] == p[k]);
            }
        }
        assert(forall|k: int| 0 <= k < p.len() ==> p[k] != '{');
        lemma_csp_brace_free_prefix(t.skip(1), p);
        assert(t.subrange(0, 5) =~= sep_seq()) by {
            assert forall|k: int| 0 <= k < 5 implies t.subrange(0, 5)[k] == sep_seq()[k] by {
                if k > 0 {
                    assert(t.skip(1).subrange(0, 4)[k - 1] == p[k - 1]);
                }
            }
        }
        assert(sep_at(t, 0));
    }
}

/// If the text does not begin with a space followed by a separator token,
/// neither does its separator-collapsed form.
proof fn lemma_csp_head_not_space_sep(t: Seq<char>)
    requires
        !sep_at(t, 0),
        !(t.len() >= 1 && t[0] == ' ' && sep_at(t, 1)),
    ensures
        !(collapse_seps(t).len() >= 1 && collapse_seps(t)[0] == ' ' && sep_at(
            collapse_seps(t),
            1,
        )),
{
    let r = collapse_seps(t);
    if r.len() >= 1 && r[0] == ' ' && sep_at(r, 1) {
        assert(t.len() > 0);
        let r1 = collapse_seps(t.skip(1));
        assert(r == seq![t[0]] + r1);
        assert(r[0] == t[0]);
        lemma_sep_at_concat_right(seq![t[0]], r1, 1);
        assert(sep_at(r1, 0));
        if !sep_at(t.skip(1), 0) {
            lemma_csp_head_not_sep(t.skip(1));
            assert(false);
        }
        lemma_sep_at_skip(t, 1, 0);
        assert(sep_at(t, 1));
    }
}

/// The run-skipping function stops before any further separator.
proof fn lemma_skip_sep_run_exit(t: Seq<char>)
    ensures
        !sep_at(skip_sep_run(t), 0),
        !(skip_sep_run(t).len() >= 1 && skip_sep_run(t)[0] == ' ' && sep_at(skip_sep_run(t), 1)),
    decreases t.len(),
{
    if sep_at(t, 0) {
        lemma_skip_sep_run_exit(t.skip(5));
    } else if t.len() >= 6 && t[0] == ' ' && sep_at(t, 1) {
        lemma_skip_sep_run_exit(t.skip(6));
    } else {
        if skip_sep_run(t).len() >= 1 && skip_sep_run(t)[0] == ' ' && sep_at(skip_sep_run(t), 1) {
            assert(t.len() >= 6);
        }
    }
}

/// Separator collapsing leaves no run of separator tokens.
pub proof fn lemma_csp_no_dup(t: Seq<char>)
    ensures
        no_dup_seps(collapse_seps(t)),
    decreases t.len(),
{
    let r = collapse_seps(t);
    if t.len() == 0 {
        assert forall|i: int| !dup_sep_at(r, i) by {}
    } else if sep_at(t, 0) {
        let u = skip_sep_run(t.skip(5));
        let r2 = collapse_seps(u);
        lemma_skip_sep_run_len(t.skip(5));
        lemma_csp_no_dup(u);
        lemma_skip_sep_run_exit(t.skip(5));
        lemma_csp_head_not_sep(u);
        lemma_csp_head_not_space_sep(u);
        assert(r == sep_seq() + r2);
        assert forall|i: int| !dup_sep_at(r, i) by {
            if sep_at(r, i) {
                if i == 0 {
                    lemma_sep_at_concat_right(sep_seq(), r2, 5);
                    lemma_sep_at_concat_right(sep_seq(), r2, 6);
                    assert(!sep_at(r, 5));
                    if i + 6 <= r.len() && r[5] == ' ' && sep_at(r, 6) {
                        assert(r[5] == r2[0]);
                        assert(r2.len() >= 1);
                        assert(sep_at(r2, 1));
                        assert(false);
                    }
                } else if i < 5 {
                    lemma_no_sep_inside_sep(r2, i);
                    assert(false);
                } else {
                    lemma_sep_at_concat_right(sep_seq(), r2, i);
                    lemma_sep_at_concat_right(sep_seq(), r2, i + 5);
                    lemma_sep_at_concat_right(sep_seq(), r2, i + 6);
                    assert(sep_at(r2, i - 5));
                    assert(!dup_sep_at(r2, i - 5));
                    if sep_at(r, i + 5) {
                        assert(sep_at(r2, i));
                        assert(false);
                    }
                    if i + 6 <= r.len() && r[i + 5] == ' ' && sep_at(r, i + 6) {
                        assert(r[i + 5] == r2[i]);
                        assert(sep_at(r2, i + 1));
                        assert(false);
                    }
                }
            }
        }
    } else {
        let r1 = collapse_seps(t.skip(1));
        lemma_csp_no_dup(t.skip(1));
        lemma_csp_head_not_sep(t);
        assert(r == seq![t[0]] + r1);
        assert forall|i: int| !dup_sep_at(r, i) by {
            if sep_at(r, i) {
                assert(i != 0);
                assert(i >= 1);
                lemma_sep_at_concat_right(seq![t[0]], r1, i);
                lemma_sep_at_concat_right(seq![t[0]], r1, i + 5);
                lemma_sep_at_concat_right(seq![t[0]], r1, i + 6);
                assert(sep_at(r1, i - 1));
                assert(!dup_sep_at(r1, i - 1));
                if sep_at(r, i + 5) {
                    assert(false);
                }
                if i + 6 <= r.len() && r[i + 5] == ' ' && sep_at(r, i + 6) {
                    assert(r[i + 5] == r1[i + 4]);
                    assert(false);
                }
            }
        }
    }
}

/// A suffix of a run-free text is run-free.
pub proof fn lemma_no_dup_skip(s: Seq<char>, k: int)
    requires
        no_dup_seps(s),
        0 <= k <= s.len(),
    ensures
        no_dup_seps(s.skip(k)),
{
    let t = s.skip(k);
    assert forall|i: int| !dup_sep_at(t, i) by {
        if 0 <= i {
            lemma_sep_at_skip(s, k, i);
            lemma_sep_at_skip(s, k, i + 5);
            lemma_sep_at_skip(s, k, i + 6);
            if dup_sep_at(t, i) {
                if i + 6 <= t.len() && t[i + 5] == ' ' && sep_at(t, i + 6) {
                    assert(t[i + 5] == s[k + i + 5]);
                }
                assert(dup_sep_at(s, k + i));
            }
        }
    }
}

/// A prefix of a run-free text is run-free.
pub proof fn lemma_no_dup_prefix(s: Seq<char>, m: int)
    requires
        no_dup_seps(s),
        0 <= m <= s.len(),
    ensures
        no_dup_seps(s.subrange(0, m)),
{
    let t = s.subrange(0, m);
    assert forall|i: int| !dup_sep_at(t, i) by {
        if dup_sep_at(t, i) {
            lemma_sep_at_prefix(s, m, i);
            if sep_at(t, i + 5) {
                lemma_sep_at_prefix(s, m, i + 5);
                assert(dup_sep_at(s, i));
            } else {
                lemma_sep_at_prefix(s, m, i + 6);
                assert(t[i + 5] == s[i + 5]);
                assert(dup_sep_at(s, i));
            }
            assert(false);
        }
    }
}

/// The front strip returns a suffix of its input.
pub proof fn lemma_strip_front_suffix(s: Seq<char>)
    ensures
        exists|k: int| 0 <= k <= s.len() && strip_front(s) == s.skip(k),
    decreases s.len(),
{
    if sep_at(s, 0) {
        let y = skip_spaces(s.skip(5));
        lemma_skip_spaces_len(s.skip(5));
        let k1 = choose|k: int| 0 <= k <= s.skip(5).len() && y == s.skip(5).skip(k);
        lemma_strip_front_suffix(y);
        let k2 = choose|k: int| 0 <= k <= y.len() && strip_front(y) == y.skip(k);
        assert(s.skip(5).skip(k1) =~= s.skip(5 + k1));
        assert(s.skip(5 + k1).skip(k2) =~= s.skip(5 + k1 + k2));
        assert(strip_front(s) == s.skip(5 + k1 + k2));
    } else {
        assert(strip_front(s) =~= s.skip(0));
    }
}

/// The back strip returns a prefix of its input.
pub proof fn lemma_strip_back_prefix(s: Seq<char>)
    ensures
        exists|m: int| 0 <= m <= s.len() && strip_back(s) == s.subrange(0, m),
    decreases s.len(),
{
    if s.len() >= 5 && sep_at(s, s.len() - 5) {
        let p = s.subrange(0, s.len() - 5);
        let y = trim_end_spaces(p);
        lemma_trim_end_len(p);
        let m1 = choose|m: int| 0 <= m <= p.len() && y == p.subrange(0, m);
        lemma_strip_back_prefix(y);
        let m2 = choose|m: int| 0 <= m <= y.len() && strip_back(y) == y.subrange(0, m);
        assert(p.subrange(0, m1) =~= s.subrange(0, m1));
        assert(s.subrange(0, m1).subrange(0, m2) =~= s.subrange(0, m2));
        assert(strip_back(s) == s.subrange(0, m2));
    } else {
        assert(strip_back(s) =~= s.subrange(0, s.len() as int));
    }
}

/// The front strip leaves no leading separator token.
pub proof fn lemma_strip_front_no_head_sep(s: Seq<char>)
    ensures
        !sep_at(strip_front(s), 0),
    decreases s.len(),
{
    if sep_at(s, 0) {
        lemma_skip_spaces_len(s.skip(5));
        lemma_strip_front_no_head_sep(skip_spaces(s.skip(5)));
    }
}

/// The back strip leaves no trailing separator token.
pub proof fn lemma_strip_back_no_tail_sep(s: Seq<char>)
    ensures
        !(strip_back(s).len() >= 5 && sep_at(strip_back(s), strip_back(s).len() - 5)),
    decreases s.len(),
{
    if s.len() >= 5 && sep_at(s, s.len() - 5) {
        lemma_trim_end_len(s.subrange(0, s.len() - 5));
        lemma_strip_back_no_tail_sep(trim_end_spaces(s.subrange(0, s.len() - 5)));
    }
}

/// A sanitized text holds no run of separator tokens: wherever a `{sep}`
/// stands, no second `{sep}` follows it, adjacent or parted by one space.
pub proof fn lemma_sanitized_no_dup_seps(s: Seq<char>)
    ensures
        no_dup_seps(sanitize_spec(s)),
{
    let c = collapse_seps(collapse_ws(s));
    let f = strip_front(c);
    lemma_csp_no_dup(collapse_ws(s));
    lemma_strip_front_suffix(c);
    let k = choose|k: int| 0 <= k <= c.len() && f == c.skip(k);
    lemma_no_dup_skip(c, k);
    lemma_strip_back_prefix(f);
    let m = choose|m: int| 0 <= m <= f.len() && strip_back(f) == f.subrange(0, m);
    lemma_no_dup_prefix(f, m);
}

/// A sanitized text neither starts nor ends with a separator token.
pub proof fn lemma_sanitized_no_boundary_sep(s: Seq<char>)
    ensures
        !sep_at(sanitize_spec(s), 0),
        !(sanitize_spec(s).len() >= 5 && sep_at(sanitize_spec(s), sanitize_spec(s).len() - 5)),
{
    let c = collapse_seps(collapse_ws(s));
    let f = strip_front(c);
    let r = strip_back(f);
    lemma_strip_front_no_head_sep(c);
    lemma_strip_back_no_tail_sep(f);
    lemma_strip_back_prefix(f);
    let m = choose|m: int| 0 <= m <= f.len() && r == f.subrange(0, m);
    if sep_at(r, 0) {
        lemma_sep_at_prefix(f, m, 0);
    }
}

/// Every whitespace character of `s` is a plain space.
pub open spec fn spaces_plain(s: Seq<char>) -> bool {
    forall|i: int| 0 <= i < s.len() && is_space_char(#[trigger] s[i]) ==> s[i] == ' '
}

/// No two adjacent characters of `s` are both whitespace.
pub open spec fn no_adjacent_spaces(s: Seq<char>) -> bool {
    forall|i: int|
        0 <= i && i + 1 < s.len() ==> !(is_space_char(#[trigger] s[i]) && is_space_char(s[i + 1]))
}

/// `s` does not start with whitespace.
pub open spec fn no_leading_space(s: Seq<char>) -> bool {
    s.len() > 0 ==> !is_space_char(s[0])
}

/// `s` does not end with whitespace.
pub open spec fn no_trailing_space(s: Seq<char>) -> bool {
    s.len() > 0 ==> !is_space_char(s[s.len() - 1])
}

/// What remains after skipping leading whitespace starts with none.
proof fn lemma_skip_spaces_head(s: Seq<char>)
    ensures
        skip_spaces(s).len() > 0 ==> !is_space_char(skip_spaces(s)[0]),
    decreases s.len(),
{
    if s.len() > 0 && is_space_char(s[0]) {
        lemma_skip_spaces_head(s.skip(1));
    }
}

/// What remains after trimming trailing whitespace ends with none.
proof fn lemma_trim_end_tail(s: Seq<char>)
    ensures
        no_trailing_space(trim_end_spaces(s)),
    decreases s.len(),
{
    if s.len() > 0 && is_space_char(s[s.len() - 1]) {
        lemma_trim_end_tail(s.subrange(0, s.len() - 1));
    }
}

/// The whitespace-interior properties carry to any suffix.
proof fn lemma_ws_props_skip(s: Seq<char>, k: int)
    requires
        0 <= k <= s.len(),
        spaces_plain(s),
        no_adjacent_spaces(s),
        no_trailing_space(s),
    ensures
        spaces_plain(s.skip(k)),
        no_adjacent_spaces(s.skip(k)),
        no_trailing_space(s.skip(k)),
{
    let t = s.skip(k);
    assert forall|i: int| 0 <= i < t.len() && is_space_char(#[trigger] t[i]) implies t[i] == ' ' by {
        assert(t[i] == s[k + i]);
    }
    assert forall|i: int|
        0 <= i && i + 1 < t.len() implies !(is_space_char(#[trigger] t[i]) && is_space_char(
        t[i + 1],
    )) by {
        assert(t[i] == s[k + i]);
        assert(t[i + 1] == s[k + i + 1]);
    }
    if t.len() > 0 {
        assert(t[t.len() - 1] == s[s.len() - 1]);
    }
}

/// The whitespace-interior properties, and a clean head, carry to any
/// prefix.
proof fn lemma_ws_props_prefix(s: Seq<char>, m: int)
    requires
        0 <= m <= s.len(),
        spaces_plain(s),
        no_adjacent_spaces(s),
        no_leading_space(s),
    ensures
        spaces_plain(s.subrange(0, m)),
        no_adjacent_spaces(s.subrange(0, m)),
        no_leading_space(s.subrange(0, m)),
{
    let t = s.subrange(0, m);
    assert forall|i: int| 0 <= i < t.len() && is_space_char(#[trigger] t[i]) implies t[i] == ' ' by {
        assert(t[i] == s[i]);
    }
    assert forall|i: int|
        0 <= i && i + 1 < t.len() implies !(is_space_char(#[trigger] t[i]) && is_space_char(
        t[i + 1],
    )) by {
        assert(t[i] == s[i]);
        assert(t[i + 1] == s[i + 1]);
    }
}

/// Whitespace collapsing yields plain single spaces, none adjacent, none
/// trailing, and (when nothing is pending) none leading.
proof fn lemma_cw_go_clean(s: Seq<char>, p: bool)
    ensures
        spaces_plain(collapse_ws_go(s, p)),
        no_adjacent_spaces(collapse_ws_go(s, p)),
        no_trailing_space(collapse_ws_go(s, p)),
        !p && no_leading_space(s) ==> no_leading_space(collapse_ws_go(s, p)),
    decreases s.len(),
{
    let r = collapse_ws_go(s, p);
    if s.len() == 0 {
    } else if is_space_char(s[0]) {
        lemma_cw_go_clean(s.skip(1), true);
    } else if p {
        let r1 = collapse_ws_go(s.skip(1), false);
        lemma_cw_go_clean(s.skip(1), false);
        assert(r == seq![' ', s[0]] + r1);
        assert forall|i: int| 0 <= i < r.len() && is_space_char(#[trigger] r[i]) implies r[i]
            == ' ' by {
            if i >= 2 {
                assert(r[i] == r1[i - 2]);
            }
        }
        assert forall|i: int|
            0 <= i && i + 1 < r.len() implies !(is_space_char(#[trigger] r[i]) && is_space_char(
            r[i + 1],
        )) by {
            if i == 1 {
                assert(r[1] == s[0]);
            } else if i >= 2 {
                assert(r[i] == r1[i - 2]);
                assert(r[i + 1] == r1[i - 1]);
            }
        }
        if r1.len() == 0 {
            assert(r[r.len() - 1] == s[0]);
        } else {
            assert(r[r.len() - 1] == r1[r1.len() - 1]);
        }
    } else {
        let r1 = collapse_ws_go(s.skip(1), false);
        lemma_cw_go_clean(s.skip(1), false);
        assert(r == seq![s[0]] + r1);
        assert forall|i: int| 0 <= i < r.len() && is_space_char(#[trigger] r[i]) implies r[i]
            == ' ' by {
            if i >= 1 {
                assert(r[i] == r1[i - 1]);
            }
        }
        assert forall|i: int|
            0 <= i && i + 1 < r.len() implies !(is_space_char(#[trigger] r[i]) && is_space_char(
            r[i + 1],
        )) by {
            if i >= 1 {
                assert(r[i] == r1[i - 1]);
                assert(r[i + 1] == r1[i]);
            }
        }
        if r1.len() == 0 {
            assert(r[r.len() - 1] == s[0]);
        } else {
            assert(r[r.len() - 1] == r1[r1.len() - 1]);
        }
    }
}

/// On text whose whitespace is already clean, collapsing changes nothing.
proof fn lemma_cw_go_fix(s: Seq<char>)
    requires
        spaces_plain(s),
        no_adjacent_spaces(s),
        no_trailing_space(s),
    ensures
        collapse_ws_go(s, false) == s,
    decreases s.len(),
{
    if s.len() == 0 {
        assert(collapse_ws_go(s, false) =~= s);
    } else if is_space_char(s[0]) {
        assert(s[0] == ' ');
        assert(s.len() >= 2);
        assert(!is_space_char(s[1]));
        assert(s.skip(1)[0] == s[1]);
        assert(s.skip(1).skip(1) =~= s.skip(2));
        assert(collapse_ws_go(s, false) == collapse_ws_go(s.skip(1), true));
        assert(collapse_ws_go(s.skip(1), true) == seq![' ', s[1]] + collapse_ws_go(
            s.skip(2),
            false,
        ));
        lemma_ws_props_skip(s, 2);
        lemma_cw_go_fix(s.skip(2));
        assert(seq![' ', s[1]] + s.skip(2) =~= s);
    } else {
        lemma_ws_props_skip(s, 1);
        lemma_cw_go_fix(s.skip(1));
        assert(seq![s[0]] + s.skip(1) =~= s);
    }
}

/// Separator collapsing of nonempty text is nonempty.
proof fn lemma_csp_nonempty(t: Seq<char>)
    ensures
        t.len() > 0 ==> collapse_seps(t).len() > 0,
{
}

/// Separator collapsing keeps whitespace clean, and puts no whitespace at
/// the head that was not already there.
proof fn lemma_csp_ws(t: Seq<char>)
    requires
        spaces_plain(t),
        no_adjacent_spaces(t),
        no_trailing_space(t),
    ensures
        spaces_plain(collapse_seps(t)),
        no_adjacent_spaces(collapse_seps(t)),
        no_trailing_space(collapse_seps(t)),
        collapse_seps(t).len() > 0 && is_space_char(collapse_seps(t)[0]) ==> t.len() > 0
            && is_space_char(t[0]),
    decreases t.len(),
{
    let r = collapse_seps(t);
    if t.len() == 0 {
    } else if sep_at(t, 0) {
        lemma_skip_sep_run_len(t.skip(5));
        let k = choose|k: int|
            0 <= k <= t.skip(5).len() && skip_sep_run(t.skip(5)) == t.skip(5).skip(k);
        let u = skip_sep_run(t.skip(5));
        assert(t.skip(5).skip(k) =~= t.skip(5 + k));
        lemma_ws_props_skip(t, 5 + k);
        lemma_csp_ws(u);
        let r2 = collapse_seps(u);
        assert(r == sep_seq() + r2);
        assert(!is_space_char('{') && !is_space_char('s') && !is_space_char('e') && !is_space_char(
            'p',
        ) && !is_space_char('}'));
        assert forall|i: int| 0 <= i < r.len() && is_space_char(#[trigger] r[i]) implies r[i]
            == ' ' by {
            if i >= 5 {
                assert(r[i] == r2[i - 5]);
            } else {
                assert(r[i] == sep_seq()[i]);
            }
        }
        assert forall|i: int|
            0 <= i && i + 1 < r.len() implies !(is_space_char(#[trigger] r[i]) && is_space_char(
            r[i + 1],
        )) by {
            if i < 5 {
                assert(r[i] == sep_seq()[i]);
            } else {
                assert(r[i] == r2[i - 5]);
                assert(r[i + 1] == r2[i - 4]);
            }
        }
        if r2.len() == 0 {
            assert(r[r.len() - 1] == sep_seq()[4]);
        } else {
            assert(r[r.len() - 1] == r2[r2.len() - 1]);
            lemma_csp_nonempty(u);
            assert(u.len() > 0);
        }
        assert(r[0] == sep_seq()[0]);
    } else {
        lemma_ws_props_skip(t, 1);
        lemma_csp_ws(t.skip(1));
        let r1 = collapse_seps(t.skip(1));
        assert(r == seq![t[0]] + r1);
        assert forall|i: int| 0 <= i < r.len() && is_space_char(#[trigger] r[i]) implies r[i]
            == ' ' by {
            if i >= 1 {
                assert(r[i] == r1[i - 1]);
            } else {
                assert(r[0] == t[0]);
            }
        }
        assert forall|i: int|
            0 <= i && i + 1 < r.len() implies !(is_space_char(#[trigger] r[i]) && is_space_char(
            r[i + 1],
        )) by {
            if i == 0 {
                assert(r[0] == t[0]);
                assert(r[1] == r1[0]);
                if is_space_char(t[0]) && is_space_char(r1[0]) {
                    assert(t.skip(1).len() > 0 && is_space_char(t.skip(1)[0]));
                    assert(is_space_char(t[1]));
                    assert(false);
                }
            } else {
                assert(r[i] == r1[i - 1]);
                assert(r[i + 1] == r1[i]);
            }
        }
        if r1.len() == 0 {
            assert(t.skip(1).len() == 0);
            assert(r[r.len() - 1] == t[t.len() - 1]);
        } else {
            assert(r[r.len() - 1] == r1[r1.len() - 1]);
        }
        assert(r[0] == t[0]);
    }
}

/// On text that holds no separator runs, collapsing changes nothing.
proof fn lemma_csp_fix(x: Seq<char>)
    requires
        no_dup_seps(x),
    ensures
        collapse_seps(x) == x,
    decreases x.len(),
{
    if x.len() == 0 {
        assert(collapse_seps(x) =~= x);
    } else if sep_at(x, 0) {
        assert(!dup_sep_at(x, 0));
        lemma_sep_at_skip(x, 5, 0);
        lemma_sep_at_skip(x, 5, 1);
        assert(!sep_at(x.skip(5), 0));
        if x.skip(5).len() >= 6 && x.skip(5)[0] == ' ' && sep_at(x.skip(5), 1) {
            assert(x[5] == ' ');
            assert(sep_at(x, 6));
            assert(dup_sep_at(x, 0));
            assert(false);
        }
        assert(skip_sep_run(x.skip(5)) == x.skip(5));
        lemma_no_dup_skip(x, 5);
        lemma_csp_fix(x.skip(5));
        assert(collapse_seps(x) == sep_seq() + x.skip(5));
        assert(sep_seq() + x.skip(5) =~= x) by {
            assert forall|i: int| 0 <= i < x.len() implies (sep_seq() + x.skip(5))[i] == x[i] by {
                if i < 5 {
                    assert(x.subrange(0, 5)[i] == x[i]);
                }
            }
        }
    } else {
        lemma_no_dup_skip(x, 1);
        lemma_csp_fix(x.skip(1));
        assert(collapse_seps(x) == seq![x[0]] + x.skip(1));
        assert(seq![x[0]] + x.skip(1) =~= x);
    }
}

/// The front strip keeps a whitespace-free head.
proof fn lemma_strip_front_no_head_space(s: Seq<char>)
    requires
        no_leading_space(s),
    ensures
        no_leading_space(strip_front(s)),
    decreases s.len(),
{
    if sep_at(s, 0) {
        lemma_skip_spaces_len(s.skip(5));
        lemma_skip_spaces_head(s.skip(5));
        lemma_strip_front_no_head_space(skip_spaces(s.skip(5)));
    }
}

/// The back strip keeps a whitespace-free tail.
proof fn lemma_strip_back_no_tail_space(s: Seq<char>)
    requires
        no_trailing_space(s),
    ensures
        no_trailing_space(strip_back(s)),
    decreases s.len(),
{
    if s.len() >= 5 && sep_at(s, s.len() - 5) {
        lemma_trim_end_len(s.subrange(0, s.len() - 5));
        lemma_trim_end_tail(s.subrange(0, s.len() - 5));
        lemma_strip_back_no_tail_space(trim_end_spaces(s.subrange(0, s.len() - 5)));
    }
}

/// Sanitizing is idempotent: sanitizing a second time changes nothing.
pub proof fn lemma_sanitize_idempotent(s: Seq<char>)
    ensures
        sanitize_spec(sanitize_spec(s)) == sanitize_spec(s),
{
    let w = collapse_ws(s);
    let c = collapse_seps(w);
    let f = strip_front(c);
    let r = strip_back(f);
    assert(r == sanitize_spec(s));

    lemma_skip_spaces_head(s);
    lemma_cw_go_clean(skip_spaces(s), false);
    lemma_csp_ws(w);
    lemma_strip_front_suffix(c);
    let k = choose|k: int| 0 <= k <= c.len() && f == c.skip(k);
    lemma_ws_props_skip(c, k);
    lemma_strip_front_no_head_space(c);
    lemma_strip_back_prefix(f);
    let m = choose|m: int| 0 <= m <= f.len() && r == f.subrange(0, m);
    lemma_ws_props_prefix(f, m);
    lemma_strip_back_no_tail_space(f);

    lemma_sanitized_no_dup_seps(s);
    lemma_sanitized_no_boundary_sep(s);

    assert(skip_spaces(r) == r);
    lemma_cw_go_fix(r);
    assert(collapse_ws(r) == r);
    lemma_csp_fix(r);
    assert(strip_front(r) == r);
    assert(strip_back(r) == r);
}

} // verus!

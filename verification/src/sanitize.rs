//! The display-format sanitizer: collapses whitespace runs, collapses runs
//! of the `{sep}` token, and strips `{sep}` from either end of the text.

use vstd::prelude::*;
use crate::text::{pat_at, subvec, match_at, lemma_pat_at_skip};

verus! {

/// Whether `c` has the Unicode `White_Space` property, as
/// `char::is_whitespace` reports it.
pub open spec fn is_space_char(c: char) -> bool {
    c == ' ' || c == '\t' || c == '\n' || c == '\u{b}' || c == '\u{c}' || c == '\r'
        || c == '\u{85}' || c == '\u{a0}' || c == '\u{1680}'
        || ('\u{2000}' <= c && c <= '\u{200a}')
        || c == '\u{2028}' || c == '\u{2029}' || c == '\u{202f}' || c == '\u{205f}'
        || c == '\u{3000}'
}

/// Exec mirror of [`is_space_char`].
pub fn is_space(c: char) -> (r: bool)
    ensures
        r == is_space_char(c),
{
    c == ' ' || c == '\t' || c == '\n' || c == '\u{b}' || c == '\u{c}' || c == '\r'
        || c == '\u{85}' || c == '\u{a0}' || c == '\u{1680}'
        || ('\u{2000}' <= c && c <= '\u{200a}')
        || c == '\u{2028}' || c == '\u{2029}' || c == '\u{202f}' || c == '\u{205f}'
        || c == '\u{3000}'
}

/// `s` without its leading whitespace.
pub open spec fn skip_spaces(s: Seq<char>) -> Seq<char>
    decreases s.len(),
{
    if s.len() > 0 && is_space_char(s[0]) {
        skip_spaces(s.skip(1))
    } else {
        s
    }
}

/// `s` without its trailing whitespace.
pub open spec fn trim_end_spaces(s: Seq<char>) -> Seq<char>
    decreases s.len(),
{
    if s.len() > 0 && is_space_char(s[s.len() - 1]) {
        trim_end_spaces(s.subrange(0, s.len() - 1))
    } else {
        s
    }
}

/// One step of whitespace collapsing: `pending` records that a whitespace
/// run has been seen and a single space must be emitted before the next
/// non-whitespace character.
pub open spec fn collapse_ws_go(s: Seq<char>, pending: bool) -> Seq<char>
    decreases s.len(),
{
    if s.len() == 0 {
        Seq::empty()
    } else if is_space_char(s[0]) {
        collapse_ws_go(s.skip(1), true)
    } else if pending {
        seq![' ', s[0]] + collapse_ws_go(s.skip(1), false)
    } else {
        seq![s[0]] + collapse_ws_go(s.skip(1), false)
    }
}

/// Whitespace runs collapsed to single spaces, leading and trailing
/// whitespace dropped.
pub open spec fn collapse_ws(s: Seq<char>) -> Seq<char> {
    collapse_ws_go(skip_spaces(s), false)
}

/// The separator token `{sep}`.
pub open spec fn sep_seq() -> Seq<char> {
    seq!['{', 's', 'e', 'p', '}']
}

/// Whether the separator token occurs in `s` at position `i`.
pub open spec fn sep_at(s: Seq<char>, i: int) -> bool {
    pat_at(s, i, sep_seq())
}

/// `skip_spaces` removes a prefix: the result is a suffix of `s`.
pub proof fn lemma_skip_spaces_len(s: Seq<char>)
    ensures
        skip_spaces(s).len() <= s.len(),
        exists|k: int| 0 <= k <= s.len() && skip_spaces(s) == s.skip(k),
    decreases s.len(),
{
    if s.len() > 0 && is_space_char(s[0]) {
        lemma_skip_spaces_len(s.skip(1));
        let k0 = choose|k: int| 0 <= k <= s.skip(1).len() && skip_spaces(s.skip(1)) == s.skip(
            1,
        ).skip(k);
        assert(s.skip(1).skip(k0) =~= s.skip(1 + k0));
        assert(skip_spaces(s) == s.skip(1 + k0));
    } else {
        assert(skip_spaces(s) =~= s.skip(0));
    }
}

/// `trim_end_spaces` removes a suffix: the result is a prefix of `s`.
pub proof fn lemma_trim_end_len(s: Seq<char>)
    ensures
        trim_end_spaces(s).len() <= s.len(),
        exists|m: int| 0 <= m <= s.len() && trim_end_spaces(s) == s.subrange(0, m),
    decreases s.len(),
{
    if s.len() > 0 && is_space_char(s[s.len() - 1]) {
        let p = s.subrange(0, s.len() - 1);
        lemma_trim_end_len(p);
        let m0 = choose|m: int| 0 <= m <= p.len() && trim_end_spaces(p) == p.subrange(0, m);
        assert(p.subrange(0, m0) =~= s.subrange(0, m0));
    } else {
        assert(trim_end_spaces(s) =~= s.subrange(0, s.len() as int));
    }
}

/// What follows a separator: further separators, each optionally preceded
/// by a single space, are consumed.
pub open spec fn skip_sep_run(s: Seq<char>) -> Seq<char>
    decreases s.len(),
{
    if sep_at(s, 0) {
        skip_sep_run(s.skip(5))
    } else if s.len() >= 6 && s[0] == ' ' && sep_at(s, 1) {
        skip_sep_run(s.skip(6))
    } else {
        s
    }
}

/// `skip_sep_run` removes a prefix: the result is a suffix of `s`.
pub proof fn lemma_skip_sep_run_len(s: Seq<char>)
    ensures
        skip_sep_run(s).len() <= s.len(),
        exists|k: int| 0 <= k <= s.len() && skip_sep_run(s) == s.skip(k),
    decreases s.len(),
{
    if sep_at(s, 0) {
        lemma_skip_sep_run_len(s.skip(5));
        let k0 = choose|k: int| 0 <= k <= s.skip(5).len() && skip_sep_run(s.skip(5)) == s.skip(
            5,
        ).skip(k);
        assert(s.skip(5).skip(k0) =~= s.skip(5 + k0));
    } else if s.len() >= 6 && s[0] == ' ' && sep_at(s, 1) {
        lemma_skip_sep_run_len(s.skip(6));
        let k0 = choose|k: int| 0 <= k <= s.skip(6).len() && skip_sep_run(s.skip(6)) == s.skip(
            6,
        ).skip(k);
        assert(s.skip(6).skip(k0) =~= s.skip(6 + k0));
    } else {
        assert(skip_sep_run(s) =~= s.skip(0));
    }
}

/// Runs of separator tokens, optionally joined by single spaces, collapsed
/// to one separator token each.
pub open spec fn collapse_seps(s: Seq<char>) -> Seq<char>
    decreases s.len(),
    via collapse_seps_dec
{
    if s.len() == 0 {
        Seq::empty()
    } else if sep_at(s, 0) {
        sep_seq() + collapse_seps(skip_sep_run(s.skip(5)))
    } else {
        seq![s[0]] + collapse_seps(s.skip(1))
    }
}

#[via_fn]
proof fn collapse_seps_dec(s: Seq<char>) {
    if s.len() != 0 && sep_at(s, 0) {
        lemma_skip_sep_run_len(s.skip(5));
    }
}

/// Leading separator tokens, with the whitespace that follows each,
/// removed.
pub open spec fn strip_front(s: Seq<char>) -> Seq<char>
    decreases s.len(),
    via strip_front_dec
{
    if sep_at(s, 0) {
        strip_front(skip_spaces(s.skip(5)))
    } else {
        s
    }
}

#[via_fn]
proof fn strip_front_dec(s: Seq<char>) {
    if sep_at(s, 0) {
        lemma_skip_spaces_len(s.skip(5));
    }
}

/// Trailing separator tokens, with the whitespace that precedes each,
/// removed.
pub open spec fn strip_back(s: Seq<char>) -> Seq<char>
    decreases s.len(),
    via strip_back_dec
{
    if s.len() >= 5 && sep_at(s, s.len() - 5) {
        strip_back(trim_end_spaces(s.subrange(0, s.len() - 5)))
    } else {
        s
    }
}

#[via_fn]
proof fn strip_back_dec(s: Seq<char>) {
    if s.len() >= 5 && sep_at(s, s.len() - 5) {
        lemma_trim_end_len(s.subrange(0, s.len() - 5));
    }
}

/// The whole sanitizer: collapse whitespace, collapse separator runs,
/// strip separators from both ends.
pub open spec fn sanitize_spec(s: Seq<char>) -> Seq<char> {
    strip_back(strip_front(collapse_seps(collapse_ws(s))))
}

/// The separator token as an executable vector.
pub fn sep_token() -> (v: Vec<char>)
    ensures
        v@ == sep_seq(),
{
    let mut v: Vec<char> = Vec::new();
    v.push('{');
    v.push('s');
    v.push('e');
    v.push('p');
    v.push('}');
    proof {
        assert(v@ =~= sep_seq());
    }
    v
}

/// Exec mirror of [`collapse_ws`].
pub fn collapse_ws_exec(v: &Vec<char>) -> (r: Vec<char>)
    ensures
        r@ == collapse_ws(v@),
{
    let mut i: usize = 0;
    proof {
        assert(v@.skip(0) =~= v@);
    }
    while i < v.len() && is_space(v[i])
        invariant
            i <= v@.len(),
            skip_spaces(v@) == skip_spaces(v@.skip(i as int)),
        decreases v@.len() - i,
    {
        proof {
            assert(v@.skip(i as int).skip(1) =~= v@.skip(i + 1));
        }
        i = i + 1;
    }
    proof {
        if i == v@.len() {
            assert(v@.skip(i as int) =~= Seq::<char>::empty());
        }
        assert(skip_spaces(v@.skip(i as int)) == v@.skip(i as int));
    }
    let mut out: Vec<char> = Vec::new();
    let mut pending = false;
    proof {
        assert(out@ + collapse_ws_go(v@.skip(i as int), false) =~= collapse_ws_go(
            v@.skip(i as int),
            false,
        ));
    }
    while i < v.len()
        invariant
            i <= v@.len(),
            collapse_ws(v@) == out@ + collapse_ws_go(v@.skip(i as int), pending),
        decreases v@.len() - i,
    {
        let ghost rest = v@.skip(i as int);
        let ghost pending0 = pending;
        let ghost out0 = out@;
        proof {
            assert(rest.skip(1) =~= v@.skip(i + 1));
            assert(rest[0] == v@[i as int]);
        }
        if is_space(v[i]) {
            pending = true;
        } else {
            if pending {
                out.push(' ');
            }
            out.push(v[i]);
            pending = false;
            proof {
                if pending0 {
                    assert(out@ =~= out0 + seq![' ', rest[0]]);
                    assert(out@ + collapse_ws_go(v@.skip(i + 1), false) =~= out0 + (seq![
                        ' ',
                        rest[0],
                    ] + collapse_ws_go(rest.skip(1), false)));
                } else {
                    assert(out@ =~= out0 + seq![rest[0]]);
                    assert(out@ + collapse_ws_go(v@.skip(i + 1), false) =~= out0 + (seq![rest[0]]
                        + collapse_ws_go(rest.skip(1), false)));
                }
            }
        }
        i = i + 1;
    }
    proof {
        assert(v@.skip(v@.len() as int) =~= Seq::<char>::empty());
        assert(out@ + collapse_ws_go(Seq::<char>::empty(), pending) =~= out@);
    }
    out
}

/// Exec mirror of [`skip_sep_run`]: returns the index where the run that
/// follows position `i` ends.
pub fn skip_sep_run_exec(v: &Vec<char>, i: usize) -> (j: usize)
    requires
        i <= v@.len(),
    ensures
        i <= j <= v@.len(),
        v@.skip(j as int) == skip_sep_run(v@.skip(i as int)),
{
    let sep = sep_token();
    let n = v.len();
    let mut j = i;
    loop
        invariant_except_break
            i <= j <= v@.len(),
            n == v@.len(),
            sep@ == sep_seq(),
            skip_sep_run(v@.skip(i as int)) == skip_sep_run(v@.skip(j as int)),
        ensures
            i <= j <= v@.len(),
            v@.skip(j as int) == skip_sep_run(v@.skip(i as int)),
        decreases v@.len() - j,
    {
        let ghost rest = v@.skip(j as int);
        proof {
            lemma_pat_at_skip(v@, 0, j as int, sep_seq());
        }
        if match_at(v, j, &sep) {
            proof {
                assert(rest.skip(5) =~= v@.skip(j + 5));
            }
            j = j + 5;
        } else if j < v.len() && v[j] == ' ' {
            proof {
                lemma_pat_at_skip(v@, 1, j as int, sep_seq());
            }
            if j + 1 <= v.len() && match_at(v, j + 1, &sep) {
                proof {
                    assert(rest.skip(6) =~= v@.skip(j + 6));
                    assert(rest.len() >= 6);
                }
                j = j + 6;
            } else {
                proof {
                    assert(skip_sep_run(rest) == rest);
                }
                break;
            }
        } else {
            proof {
                if j < v@.len() {
                    assert(rest[0] == v@[j as int]);
                }
                assert(skip_sep_run(rest) == rest);
            }
            break;
        }
    }
    j
}

/// Exec mirror of [`collapse_seps`].
pub fn collapse_seps_exec(v: &Vec<char>) -> (r: Vec<char>)
    ensures
        r@ == collapse_seps(v@),
{
    let sep = sep_token();
    let mut out: Vec<char> = Vec::new();
    let mut i: usize = 0;
    proof {
        assert(v@.skip(0) =~= v@);
        assert(out@ + collapse_seps(v@) =~= collapse_seps(v@));
    }
    while i < v.len()
        invariant
            i <= v@.len(),
            sep@ == sep_seq(),
            collapse_seps(v@) == out@ + collapse_seps(v@.skip(i as int)),
        decreases v@.len() - i,
    {
        let ghost rest = v@.skip(i as int);
        let ghost out0 = out@;
        proof {
            lemma_pat_at_skip(v@, 0, i as int, sep_seq());
        }
        if match_at(v, i, &sep) {
            out.push('{');
            out.push('s');
            out.push('e');
            out.push('p');
            out.push('}');
            proof {
                assert(rest.skip(5) =~= v@.skip(i + 5));
            }
            let j = skip_sep_run_exec(v, i + 5);
            proof {
                assert(out@ =~= out0 + sep_seq());
                assert(collapse_seps(rest) == sep_seq() + collapse_seps(skip_sep_run(rest.skip(5))));
                assert(out@ + collapse_seps(v@.skip(j as int)) =~= out0 + (sep_seq()
                    + collapse_seps(skip_sep_run(rest.skip(5)))));
            }
            i = j;
        } else {
            out.push(v[i]);
            proof {
                assert(rest[0] == v@[i as int]);
                assert(rest.skip(1) =~= v@.skip(i + 1));
                assert(collapse_seps(rest) == seq![rest[0]] + collapse_seps(rest.skip(1)));
                assert(out@ + collapse_seps(v@.skip(i + 1)) =~= out0 + (seq![rest[0]]
                    + collapse_seps(rest.skip(1))));
            }
            i = i + 1;
        }
    }
    proof {
        assert(v@.skip(v@.len() as int) =~= Seq::<char>::empty());
        assert(out@ + collapse_seps(Seq::<char>::empty()) =~= out@);
    }
    out
}

/// Exec mirror of [`strip_front`].
pub fn strip_front_exec(v: &Vec<char>) -> (r: Vec<char>)
    ensures
        r@ == strip_front(v@),
{
    let sep = sep_token();
    let n = v.len();
    let mut s: usize = 0;
    proof {
        assert(v@.skip(0) =~= v@);
    }
    loop
        invariant_except_break
            s <= v@.len(),
            n == v@.len(),
            sep@ == sep_seq(),
            strip_front(v@) == strip_front(v@.skip(s as int)),
        ensures
            s <= v@.len(),
            v@.skip(s as int) == strip_front(v@),
        decreases v@.len() - s,
    {
        let ghost rest = v@.skip(s as int);
        proof {
            lemma_pat_at_skip(v@, 0, s as int, sep_seq());
        }
        if match_at(v, s, &sep) {
            let ghost s0 = s;
            proof {
                assert(rest.skip(5) =~= v@.skip(s + 5));
            }
            s = s + 5;
            while s < v.len() && is_space(v[s])
                invariant
                    s0 + 5 <= s <= v@.len(),
                    skip_spaces(v@.skip(s0 + 5)) == skip_spaces(v@.skip(s as int)),
                decreases v@.len() - s,
            {
                proof {
                    assert(v@.skip(s as int).skip(1) =~= v@.skip(s + 1));
                }
                s = s + 1;
            }
            proof {
                if s == v@.len() {
                    assert(v@.skip(s as int) =~= Seq::<char>::empty());
                }
                assert(skip_spaces(v@.skip(s as int)) == v@.skip(s as int));
                assert(strip_front(rest) == strip_front(skip_spaces(rest.skip(5))));
            }
        } else {
            proof {
                assert(strip_front(rest) == rest);
            }
            break;
        }
    }
    let r = subvec(v, s, v.len());
    proof {
        assert(v@.subrange(s as int, v@.len() as int) =~= v@.skip(s as int));
    }
    r
}

/// Exec mirror of [`strip_back`].
pub fn strip_back_exec(v: &Vec<char>) -> (r: Vec<char>)
    ensures
        r@ == strip_back(v@),
{
    let sep = sep_token();
    let mut e: usize = v.len();
    proof {
        assert(v@.subrange(0, v@.len() as int) =~= v@);
    }
    loop
        invariant_except_break
            e <= v@.len(),
            sep@ == sep_seq(),
            strip_back(v@) == strip_back(v@.subrange(0, e as int)),
        ensures
            e <= v@.len(),
            v@.subrange(0, e as int) == strip_back(v@),
        decreases e,
    {
        let ghost cur = v@.subrange(0, e as int);
        if e >= 5 {
            proof {
                assert(cur.subrange(e - 5, e as int) =~= v@.subrange(e - 5, e as int));
            }
            if match_at(v, e - 5, &sep) {
                let ghost e0 = e;
                proof {
                    assert(v@.subrange(0, e as int).subrange(0, e - 5) =~= v@.subrange(0, e - 5));
                    assert(sep_at(cur, cur.len() - 5));
                }
                e = e - 5;
                while e > 0 && is_space(v[e - 1])
                    invariant
                        5 <= e0 <= v@.len(),
                        e <= e0 - 5,
                        trim_end_spaces(v@.subrange(0, e0 - 5)) == trim_end_spaces(
                            v@.subrange(0, e as int),
                        ),
                    decreases e,
                {
                    proof {
                        assert(v@.subrange(0, e as int).subrange(0, e - 1) =~= v@.subrange(
                            0,
                            e - 1,
                        ));
                    }
                    e = e - 1;
                }
                proof {
                    assert(trim_end_spaces(v@.subrange(0, e as int)) == v@.subrange(0, e as int));
                    assert(strip_back(cur) == strip_back(trim_end_spaces(cur.subrange(0, cur.len() - 5))));
                    assert(cur.subrange(0, cur.len() - 5) =~= v@.subrange(0, e0 - 5));
                }
            } else {
                proof {
                    assert(!sep_at(cur, cur.len() - 5));
                    assert(strip_back(cur) == cur);
                }
                break;
            }
        } else {
            proof {
                assert(strip_back(cur) == cur);
            }
            break;
        }
    }
    subvec(v, 0, e)
}

/// Exec mirror of [`sanitize_spec`], on character vectors.
pub fn sanitize_vec(v: &Vec<char>) -> (r: Vec<char>)
    ensures
        r@ == sanitize_spec(v@),
{
    let a = collapse_ws_exec(v);
    let b = collapse_seps_exec(&a);
    let c = strip_front_exec(&b);
    strip_back_exec(&c)
}

/// `s` without leading and trailing whitespace.
pub open spec fn trim_spec(s: Seq<char>) -> Seq<char> {
    trim_end_spaces(skip_spaces(s))
}

/// Exec mirror of [`trim_spec`].
pub fn trim_chars(v: &Vec<char>) -> (r: Vec<char>)
    ensures
        r@ == trim_spec(v@),
{
    let mut s: usize = 0;
    proof {
        assert(v@.skip(0) =~= v@);
    }
    while s < v.len() && is_space(v[s])
        invariant
            s <= v@.len(),
            skip_spaces(v@) == skip_spaces(v@.skip(s as int)),
        decreases v@.len() - s,
    {
        proof {
            assert(v@.skip(s as int).skip(1) =~= v@.skip(s + 1));
        }
        s = s + 1;
    }
    proof {
        if s == v@.len() {
            assert(v@.skip(s as int) =~= Seq::<char>::empty());
        }
        assert(skip_spaces(v@.skip(s as int)) == v@.skip(s as int));
    }
    let ghost tail = v@.skip(s as int);
    let mut e: usize = v.len();
    proof {
        assert(tail.subrange(0, (e - s) as int) =~= tail);
    }
    while e > s && is_space(v[e - 1])
        invariant
            s <= e <= v@.len(),
            tail == v@.skip(s as int),
            trim_end_spaces(tail) == trim_end_spaces(tail.subrange(0, e - s)),
        decreases e,
    {
        proof {
            let cur = tail.subrange(0, e - s);
            assert(cur[cur.len() - 1] == v@[e - 1]);
            assert(cur.subrange(0, cur.len() - 1) =~= tail.subrange(0, e - 1 - s));
        }
        e = e - 1;
    }
    proof {
        let cur = tail.subrange(0, e - s);
        if e > s {
            assert(cur[cur.len() - 1] == v@[e - 1]);
        }
        assert(trim_end_spaces(cur) == cur);
    }
    let r = subvec(v, s, e);
    proof {
        assert(v@.subrange(s as int, e as int) =~= tail.subrange(0, e - s));
    }
    r
}

} // verus!

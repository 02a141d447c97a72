//! Character-level text utilities shared by the display formatter: string
//! conversions, pattern search and replacement, number rendering and the
//! Discord length clamp.

use vstd::prelude::*;
use vstd::string::StrSliceExecFns;

verus! {

/// Relies on `String::push`: appends exactly the given character.
pub assume_specification[ String::push ](s: &mut String, ch: char)
    ensures
        final(s)@ == old(s)@.push(ch),
;

/// The characters of a string slice, as a vector.
pub fn chars_of(s: &str) -> (v: Vec<char>)
    ensures
        v@ == s@,
{
    let n = s.unicode_len();
    let mut v: Vec<char> = Vec::new();
    let mut i: usize = 0;
    while i < n
        invariant
            i <= n,
            n == s@.len(),
            v@ == s@.subrange(0, i as int),
        decreases n - i,
    {
        v.push(s.get_char(i));
        proof {
            assert(v@ =~= s@.subrange(0, i + 1));
        }
        i = i + 1;
    }
    proof {
        assert(v@ =~= s@);
    }
    v
}

/// The characters of a vector, joined into a string.
pub fn string_of(v: &Vec<char>) -> (s: String)
    ensures
        s@ == v@,
{
    let mut s = String::new();
    let mut i: usize = 0;
    while i < v.len()
        invariant
            i <= v@.len(),
            s@ == v@.subrange(0, i as int),
        decreases v@.len() - i,
    {
        s.push(v[i]);
        proof {
            assert(s@ =~= v@.subrange(0, i + 1));
        }
        i = i + 1;
    }
    proof {
        assert(s@ =~= v@);
    }
    s
}

/// The characters of `v` from `from` (inclusive) to `to` (exclusive).
pub fn subvec(v: &Vec<char>, from: usize, to: usize) -> (r: Vec<char>)
    requires
        from <= to <= v@.len(),
    ensures
        r@ == v@.subrange(from as int, to as int),
{
    let mut r: Vec<char> = Vec::new();
    let mut i: usize = from;
    while i < to
        invariant
            from <= i <= to <= v@.len(),
            r@ == v@.subrange(from as int, i as int),
        decreases to - i,
    {
        r.push(v[i]);
        proof {
            assert(r@ =~= v@.subrange(from as int, i + 1));
        }
        i = i + 1;
    }
    r
}

/// Whether `pat` occurs in `s` starting at position `i`.
pub open spec fn pat_at(s: Seq<char>, i: int, pat: Seq<char>) -> bool {
    0 <= i && i + pat.len() <= s.len() && s.subrange(i, i + pat.len()) == pat
}

/// Whether `pat` occurs anywhere in `s`.
pub open spec fn seq_contains(s: Seq<char>, pat: Seq<char>) -> bool {
    exists|i: int| pat_at(s, i, pat)
}

/// Whether the characters of `v` starting at `i` match `pat`.
pub fn match_at(v: &Vec<char>, i: usize, pat: &Vec<char>) -> (r: bool)
    requires
        i <= v@.len(),
    ensures
        r == pat_at(v@, i as int, pat@),
{
    if v.len() - i < pat.len() {
        return false;
    }
    let n = v.len();
    let mut k: usize = 0;
    while k < pat.len()
        invariant
            k <= pat@.len(),
            n == v@.len(),
            i + pat@.len() <= v@.len(),
            forall|j: int| 0 <= j < k ==> v@[i + j] == pat@[j],
        decreases pat@.len() - k,
    {
        if v[i + k] != pat[k] {
            proof {
                assert(v@.subrange(i as int, i + pat@.len())[k as int] != pat@[k as int]);
            }
            return false;
        }
        k = k + 1;
    }
    proof {
        assert(v@.subrange(i as int, i + pat@.len()) =~= pat@);
    }
    true
}

/// Whether `pat` occurs anywhere in `v`.
pub fn contains_pat(v: &Vec<char>, pat: &Vec<char>) -> (r: bool)
    ensures
        r == seq_contains(v@, pat@),
{
    let mut i: usize = 0;
    while i < v.len()
        invariant
            i <= v@.len(),
            forall|j: int| 0 <= j < i ==> !pat_at(v@, j, pat@),
        decreases v@.len() - i,
    {
        if match_at(v, i, pat) {
            return true;
        }
        i = i + 1;
    }
    if pat.len() == 0 {
        proof {
            assert(v@.subrange(0, 0) =~= pat@);
            assert(pat_at(v@, 0, pat@));
        }
        return true;
    }
    proof {
        assert forall|j: int| !pat_at(v@, j, pat@) by {
            if 0 <= j && j + pat@.len() <= v@.len() {
                assert(j < v@.len());
            }
        }
    }
    false
}

/// `s` with every occurrence of `pat` replaced by `val`, scanning left to
/// right without overlap; the empty pattern replaces nothing.
pub open spec fn replace_spec(s: Seq<char>, pat: Seq<char>, val: Seq<char>) -> Seq<char>
    decreases s.len(),
{
    if pat.len() == 0 || s.len() == 0 {
        s
    } else if pat_at(s, 0, pat) {
        val + replace_spec(s.skip(pat.len() as int), pat, val)
    } else {
        seq![s[0]] + replace_spec(s.skip(1), pat, val)
    }
}

/// `v` with every occurrence of `pat` replaced by `val`.
pub fn replace_all(v: &Vec<char>, pat: &Vec<char>, val: &Vec<char>) -> (r: Vec<char>)
    ensures
        r@ == replace_spec(v@, pat@, val@),
{
    let mut out: Vec<char> = Vec::new();
    if pat.len() == 0 {
        let r = subvec(v, 0, v.len());
        proof {
            assert(v@.subrange(0, v@.len() as int) =~= v@);
        }
        return r;
    }
    let mut i: usize = 0;
    proof {
        assert(v@.skip(0) =~= v@);
        assert(out@ + replace_spec(v@, pat@, val@) =~= replace_spec(v@, pat@, val@));
    }
    while i < v.len()
        invariant
            i <= v@.len(),
            pat@.len() > 0,
            replace_spec(v@, pat@, val@) == out@ + replace_spec(v@.skip(i as int), pat@, val@),
        decreases v@.len() - i,
    {
        proof {
            lemma_pat_at_skip(v@, 0, i as int, pat@);
        }
        if match_at(v, i, pat) {
            let ghost out0 = out@;
            let ghost rest = v@.skip(i as int);
            proof {
                assert(rest.skip(pat@.len() as int) =~= v@.skip(i + pat@.len()));
            }
            let mut k: usize = 0;
            while k < val.len()
                invariant
                    k <= val@.len(),
                    out@ == out0 + val@.subrange(0, k as int),
                decreases val@.len() - k,
            {
                out.push(val[k]);
                proof {
                    assert(out@ =~= out0 + val@.subrange(0, k + 1));
                }
                k = k + 1;
            }
            proof {
                assert(val@.subrange(0, val@.len() as int) =~= val@);
                assert(replace_spec(rest, pat@, val@)
                    == val@ + replace_spec(rest.skip(pat@.len() as int), pat@, val@));
                assert(out@ + replace_spec(v@.skip(i + pat@.len()), pat@, val@)
                    =~= out0 + (val@ + replace_spec(rest.skip(pat@.len() as int), pat@, val@)));
            }
            i = i + pat.len();
        } else {
            let ghost out0 = out@;
            let ghost rest = v@.skip(i as int);
            out.push(v[i]);
            proof {
                assert(rest[0] == v@[i as int]);
                assert(rest.skip(1) =~= v@.skip(i + 1));
                assert(replace_spec(rest, pat@, val@)
                    == seq![rest[0]] + replace_spec(rest.skip(1), pat@, val@));
                assert(out@ + replace_spec(v@.skip(i + 1), pat@, val@)
                    =~= out0 + (seq![rest[0]] + replace_spec(rest.skip(1), pat@, val@)));
            }
            i = i + 1;
        }
    }
    proof {
        assert(v@.skip(v@.len() as int) =~= Seq::<char>::empty());
        assert(out@ + replace_spec(v@.skip(v@.len() as int), pat@, val@) =~= out@);
    }
    out
}

/// Occurrences shift under `skip`: `pat` at `i + k` in `s` is `pat` at `i`
/// in `s.skip(k)`.
pub proof fn lemma_pat_at_skip(s: Seq<char>, i: int, k: int, pat: Seq<char>)
    requires
        0 <= k <= s.len(),
        0 <= i,
    ensures
        pat_at(s.skip(k), i, pat) == pat_at(s, k + i, pat),
{
    if i + pat.len() <= s.len() - k {
        assert(s.skip(k).subrange(i, i + pat.len()) =~= s.subrange(k + i, k + i + pat.len()));
    }
}

/// The decimal digit character for `d`.
pub open spec fn digit_char(d: int) -> char {
    if d == 0 { '0' }
    else if d == 1 { '1' }
    else if d == 2 { '2' }
    else if d == 3 { '3' }
    else if d == 4 { '4' }
    else if d == 5 { '5' }
    else if d == 6 { '6' }
    else if d == 7 { '7' }
    else if d == 8 { '8' }
    else { '9' }
}

/// The decimal digits of a nonnegative number, most significant first.
pub open spec fn dec_digits(n: int) -> Seq<char>
    recommends
        n >= 0,
    decreases n,
{
    if n < 10 {
        seq![digit_char(n)]
    } else {
        dec_digits(n / 10).push(digit_char(n % 10))
    }
}

/// The decimal rendering of an integer, with a leading minus sign when
/// negative.
pub open spec fn dec_int(n: int) -> Seq<char> {
    if n < 0 {
        seq!['-'] + dec_digits(-n)
    } else {
        dec_digits(n)
    }
}

/// The decimal rendering of an integer, zero-padded on the left to two
/// characters, as `{:02}` formatting gives it.
pub open spec fn dec_int_pad2(n: int) -> Seq<char> {
    if 0 <= n < 10 {
        seq!['0', digit_char(n)]
    } else {
        dec_int(n)
    }
}

/// Exec mirror of [`digit_char`].
pub fn digit_of(d: u64) -> (c: char)
    requires
        d < 10,
    ensures
        c == digit_char(d as int),
{
    if d == 0 { '0' }
    else if d == 1 { '1' }
    else if d == 2 { '2' }
    else if d == 3 { '3' }
    else if d == 4 { '4' }
    else if d == 5 { '5' }
    else if d == 6 { '6' }
    else if d == 7 { '7' }
    else if d == 8 { '8' }
    else { '9' }
}

/// Appends the decimal digits of `n` to `out`.
pub fn push_u64_digits(out: &mut Vec<char>, n: u64)
    ensures
        final(out)@ == old(out)@ + dec_digits(n as int),
    decreases n,
{
    if n < 10 {
        out.push(digit_of(n));
        proof {
            assert(out@ =~= old(out)@ + dec_digits(n as int));
        }
    } else {
        push_u64_digits(out, n / 10);
        out.push(digit_of(n % 10));
        proof {
            assert(out@ =~= old(out)@ + dec_digits(n as int));
        }
    }
}

/// The decimal rendering of an `i64`, as a character vector.
pub fn i64_to_chars(n: i64) -> (v: Vec<char>)
    ensures
        v@ == dec_int(n as int),
{
    let mut out: Vec<char> = Vec::new();
    if n < 0 {
        out.push('-');
        let m: u64 = ((-(n + 1)) as u64) + 1;
        proof {
            assert(m as int == -(n as int));
        }
        push_u64_digits(&mut out, m);
        proof {
            assert(out@ =~= seq!['-'] + dec_digits(m as int));
        }
    } else {
        push_u64_digits(&mut out, n as u64);
        proof {
            assert(out@ =~= dec_digits(n as int));
        }
    }
    out
}

/// The decimal rendering of an `i32`, as a character vector.
pub fn i32_to_chars(n: i32) -> (v: Vec<char>)
    ensures
        v@ == dec_int(n as int),
{
    i64_to_chars(n as i64)
}

/// The two-character zero-padded rendering of an `i32`.
pub fn i32_to_chars_pad2(n: i32) -> (v: Vec<char>)
    ensures
        v@ == dec_int_pad2(n as int),
{
    if 0 <= n && n < 10 {
        let mut out: Vec<char> = Vec::new();
        out.push('0');
        out.push(digit_of(n as u64));
        proof {
            assert(out@ =~= seq!['0', digit_char(n as int)]);
        }
        out
    } else {
        i32_to_chars(n)
    }
}

/// The invisible character used to pad short texts: a left-to-right mark,
/// which satisfies the minimum length without visible change.
pub open spec fn pad_char() -> char {
    '\u{200e}'
}

/// The Discord length contract: text of 128 characters or more is cut to
/// exactly 128; text under 3 characters is padded to exactly 3 with
/// invisible characters; anything between is unchanged.
pub open spec fn clamp_spec(s: Seq<char>) -> Seq<char> {
    if s.len() >= 128 {
        s.subrange(0, 128)
    } else if s.len() == 0 {
        seq![pad_char(), pad_char(), pad_char()]
    } else if s.len() == 1 {
        s + seq![pad_char(), pad_char()]
    } else if s.len() == 2 {
        s + seq![pad_char()]
    } else {
        s
    }
}

/// The clamped text is exactly 128 characters when the input was 128 or
/// longer, exactly 3 when it was under 3, and unchanged otherwise.
pub proof fn lemma_clamp_length(s: Seq<char>)
    ensures
        s.len() >= 128 ==> clamp_spec(s).len() == 128,
        s.len() < 3 ==> clamp_spec(s).len() == 3,
        3 <= s.len() < 128 ==> clamp_spec(s) == s,
        s.len() < 3 ==> clamp_spec(s).subrange(0, s.len() as int) == s,
        s.len() < 3 ==> (forall|i: int| s.len() <= i < 3 ==> clamp_spec(s)[i] == pad_char()),
{
    if s.len() < 3 {
        assert(clamp_spec(s).subrange(0, s.len() as int) =~= s);
    }
}

/// Exec mirror of [`clamp_spec`].
pub fn clamp_text(v: &Vec<char>) -> (r: Vec<char>)
    ensures
        r@ == clamp_spec(v@),
{
    if v.len() >= 128 {
        subvec(v, 0, 128)
    } else if v.len() < 3 {
        let mut out = subvec(v, 0, v.len());
        proof {
            assert(v@.subrange(0, v@.len() as int) =~= v@);
        }
        while out.len() < 3
            invariant
                v@.len() < 3,
                v@.len() <= out@.len() <= 3,
                out@.subrange(0, v@.len() as int) == v@,
                forall|i: int| v@.len() <= i < out@.len() ==> out@[i] == pad_char(),
            decreases 3 - out@.len(),
        {
            out.push('\u{200e}');
            proof {
                assert(out@.subrange(0, v@.len() as int) =~= v@);
            }
        }
        proof {
            assert(out@ =~= clamp_spec(v@));
        }
        out
    } else {
        let r = subvec(v, 0, v.len());
        proof {
            assert(v@.subrange(0, v@.len() as int) =~= v@);
        }
        r
    }
}

/// Appends every character of `add` to `out`.
pub fn extend_chars(out: &mut Vec<char>, add: &Vec<char>)
    ensures
        final(out)@ == old(out)@ + add@,
{
    let mut i: usize = 0;
    proof {
        assert(out@ =~= old(out)@ + add@.subrange(0, 0));
    }
    while i < add.len()
        invariant
            i <= add@.len(),
            out@ == old(out)@ + add@.subrange(0, i as int),
        decreases add@.len() - i,
    {
        out.push(add[i]);
        proof {
            assert(out@ =~= old(out)@ + add@.subrange(0, i + 1));
        }
        i = i + 1;
    }
    proof {
        assert(add@.subrange(0, add@.len() as int) =~= add@);
    }
}

/// The connective before the last of several artists.
pub open spec fn and_join() -> Seq<char> {
    seq![' ', 'a', 'n', 'd', ' ']
}

/// The connective between artists other than the last pair.
pub open spec fn comma_join() -> Seq<char> {
    seq![',', ' ']
}

/// The artists from index `i` on, joined: a comma before each middle name,
/// the word `and` before the last.
pub open spec fn join_artists_from(names: Seq<Seq<char>>, i: int) -> Seq<char>
    decreases names.len() - i,
{
    if i < 0 || i >= names.len() {
        Seq::empty()
    } else {
        let sep = if i == 0 {
            Seq::<char>::empty()
        } else if i == names.len() - 1 {
            and_join()
        } else {
            comma_join()
        };
        sep + names[i] + join_artists_from(names, i + 1)
    }
}

/// All artists joined: commas between them, the word `and` before the
/// last; a single artist stands unchanged.
pub open spec fn join_artists_spec(names: Seq<Seq<char>>) -> Seq<char> {
    join_artists_from(names, 0)
}

/// The items from index `i` on, joined with a comma and a space.
pub open spec fn join_comma_from(items: Seq<Seq<char>>, i: int) -> Seq<char>
    decreases items.len() - i,
{
    if i < 0 || i >= items.len() {
        Seq::empty()
    } else {
        let sep = if i == 0 {
            Seq::<char>::empty()
        } else {
            comma_join()
        };
        sep + items[i] + join_comma_from(items, i + 1)
    }
}

/// All items joined with a comma and a space.
pub open spec fn join_comma_spec(items: Seq<Seq<char>>) -> Seq<char> {
    join_comma_from(items, 0)
}

/// Joins the names as [`join_artists_spec`] describes.
pub fn join_artists(names: &Vec<String>) -> (r: String)
    ensures
        r@ == join_artists_spec(names.deep_view()),
{
    let ghost dv = names.deep_view();
    let mut out: Vec<char> = Vec::new();
    let mut i: usize = 0;
    proof {
        assert(out@ + join_artists_from(dv, 0) =~= join_artists_from(dv, 0));
    }
    while i < names.len()
        invariant
            i <= names@.len(),
            dv == names.deep_view(),
            dv.len() == names@.len(),
            join_artists_spec(dv) == out@ + join_artists_from(dv, i as int),
        decreases names@.len() - i,
    {
        let ghost out0 = out@;
        if i != 0 {
            if i == names.len() - 1 {
                out.push(' ');
                out.push('a');
                out.push('n');
                out.push('d');
                out.push(' ');
            } else {
                out.push(',');
                out.push(' ');
            }
        }
        let cs = chars_of(names[i].as_str());
        proof {
            assert(dv[i as int] == names@[i as int]@);
        }
        extend_chars(&mut out, &cs);
        proof {
            let sep: Seq<char> = if i == 0 {
                Seq::<char>::empty()
            } else if i == dv.len() - 1 {
                and_join()
            } else {
                comma_join()
            };
            assert(out@ =~= out0 + sep + dv[i as int]);
            assert(join_artists_from(dv, i as int) == sep + dv[i as int] + join_artists_from(
                dv,
                i + 1,
            ));
            assert(out@ + join_artists_from(dv, i + 1) =~= out0 + join_artists_from(
                dv,
                i as int,
            ));
        }
        i = i + 1;
    }
    proof {
        assert(out@ + join_artists_from(dv, i as int) =~= out@);
    }
    string_of(&out)
}

/// Joins the items as [`join_comma_spec`] describes.
pub fn join_comma(items: &Vec<String>) -> (r: String)
    ensures
        r@ == join_comma_spec(items.deep_view()),
{
    let ghost dv = items.deep_view();
    let mut out: Vec<char> = Vec::new();
    let mut i: usize = 0;
    proof {
        assert(out@ + join_comma_from(dv, 0) =~= join_comma_from(dv, 0));
    }
    while i < items.len()
        invariant
            i <= items@.len(),
            dv == items.deep_view(),
            dv.len() == items@.len(),
            join_comma_spec(dv) == out@ + join_comma_from(dv, i as int),
        decreases items@.len() - i,
    {
        let ghost out0 = out@;
        if i != 0 {
            out.push(',');
            out.push(' ');
        }
        let cs = chars_of(items[i].as_str());
        proof {
            assert(dv[i as int] == items@[i as int]@);
        }
        extend_chars(&mut out, &cs);
        proof {
            let sep: Seq<char> = if i == 0 {
                Seq::<char>::empty()
            } else {
                comma_join()
            };
            assert(out@ =~= out0 + sep + dv[i as int]);
            assert(join_comma_from(dv, i as int) == sep + dv[i as int] + join_comma_from(
                dv,
                i + 1,
            ));
            assert(out@ + join_comma_from(dv, i + 1) =~= out0 + join_comma_from(dv, i as int));
        }
        i = i + 1;
    }
    proof {
        assert(out@ + join_comma_from(dv, i as int) =~= out@);
    }
    string_of(&out)
}

/// Whether two string slices hold the same characters.
pub fn str_eq(a: &str, b: &str) -> (r: bool)
    ensures
        r == (a@ == b@),
{
    let va = chars_of(a);
    let vb = chars_of(b);
    if va.len() != vb.len() {
        return false;
    }
    let r = match_at(&va, 0, &vb);
    proof {
        if r {
            assert(va@.subrange(0, vb@.len() as int) =~= va@);
        } else {
            assert(va@.subrange(0, vb@.len() as int) =~= va@);
        }
    }
    r
}

/// Whether the characters of `b` are a prefix of `a`.
pub fn str_starts_with(a: &str, b: &str) -> (r: bool)
    ensures
        r == pat_at(a@, 0, b@),
{
    let va = chars_of(a);
    let vb = chars_of(b);
    match_at(&va, 0, &vb)
}

/// Whether `pat` occurs anywhere in `s`.
pub fn str_contains(s: &str, pat: &str) -> (r: bool)
    ensures
        r == seq_contains(s@, pat@),
{
    let vs = chars_of(s);
    let vp = chars_of(pat);
    contains_pat(&vs, &vp)
}

} // verus!

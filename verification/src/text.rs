//! Character-sequence primitives: search, replacement, counting, trimming and
//! decimal rendering, each with a mathematical model over `Seq<char>`.
use vstd::prelude::*;

verus! {

/// `pat` occurs in `s` starting at index `i`.
pub open spec fn occurs_at(s: Seq<char>, pat: Seq<char>, i: int) -> bool {
    &&& 0 <= i
    &&& i + pat.len() <= s.len()
    &&& forall|j: int| 0 <= j < pat.len() ==> #[trigger] s[i + j] == pat[j]
}

/// `pat` occurs somewhere in `s`.
pub open spec fn contains_pat(s: Seq<char>, pat: Seq<char>) -> bool {
    exists|i: int| occurs_at(s, pat, i)
}

/// `s` begins with `pat`.
pub open spec fn starts_with(s: Seq<char>, pat: Seq<char>) -> bool {
    occurs_at(s, pat, 0)
}

/// `s` ends with `pat`.
pub open spec fn ends_with(s: Seq<char>, pat: Seq<char>) -> bool {
    pat.len() <= s.len() && occurs_at(s, pat, s.len() - pat.len())
}

/// Left-to-right, non-overlapping replacement of every occurrence of `pat`
/// in `s` by `rep`; the semantics of `str::replace` (an empty pattern
/// matches before every character and at the end).
pub open spec fn replace_all(s: Seq<char>, pat: Seq<char>, rep: Seq<char>) -> Seq<char>
    decreases s.len(),
{
    if pat.len() == 0 {
        if s.len() == 0 {
            rep
        } else {
            rep + seq![s[0]] + replace_all(s.skip(1), pat, rep)
        }
    } else if s.len() < pat.len() {
        s
    } else if occurs_at(s, pat, 0) {
        rep + replace_all(s.skip(pat.len() as int), pat, rep)
    } else {
        seq![s[0]] + replace_all(s.skip(1), pat, rep)
    }
}

/// Number of left-to-right, non-overlapping occurrences of `pat` in `s`;
/// the semantics of `str::matches(pat).count()` (an empty pattern matches
/// before every character and at the end).
pub open spec fn count_matches(s: Seq<char>, pat: Seq<char>) -> nat
    decreases s.len(),
{
    if pat.len() == 0 {
        s.len() + 1
    } else if s.len() < pat.len() {
        0
    } else if occurs_at(s, pat, 0) {
        1 + count_matches(s.skip(pat.len() as int), pat)
    } else {
        count_matches(s.skip(1), pat)
    }
}

/// Each counted occurrence consumes `pat.len()` characters of `s`.
pub proof fn lemma_count_matches_bound(s: Seq<char>, pat: Seq<char>)
    ensures
        count_matches(s, pat) * pat.len() <= s.len(),
    decreases s.len(),
{
    if pat.len() == 0 {
        assert(count_matches(s, pat) * 0 == 0) by (nonlinear_arith);
    } else if s.len() < pat.len() {
        assert(count_matches(s, pat) == 0);
        assert(0 * pat.len() == 0) by (nonlinear_arith);
    } else if occurs_at(s, pat, 0) {
        let t = s.skip(pat.len() as int);
        lemma_count_matches_bound(t, pat);
        let c = count_matches(t, pat);
        assert(count_matches(s, pat) == 1 + c);
        assert(t.len() == s.len() - pat.len());
        assert((1 + c) * pat.len() == pat.len() + c * pat.len()) by (nonlinear_arith);
    } else {
        let t = s.skip(1);
        lemma_count_matches_bound(t, pat);
        assert(count_matches(s, pat) == count_matches(t, pat));
        assert(t.len() == s.len() - 1);
    }
}

/// Whether `pat` occurs in `s` at index `i`.
pub fn occurs_at_exec(s: &[char], pat: &[char], i: usize) -> (b: bool)
    ensures
        b == occurs_at(s@, pat@, i as int),
{
    if i > s.len() || s.len() - i < pat.len() {
        return false;
    }
    let mut j: usize = 0;
    while j < pat.len()
        invariant
            i + pat@.len() <= s@.len(),
            i + pat.len() <= s.len(),
            j <= pat@.len(),
            forall|k: int| 0 <= k < j ==> #[trigger] s@[i + k] == pat@[k],
        decreases pat@.len() - j,
    {
        if s[i + j] != pat[j] {
            assert(s@[i + j as int] != pat@[j as int]);
            return false;
        }
        j = j + 1;
    }
    true
}

/// Appends every character of `src` to `out`.
pub fn push_all(out: &mut Vec<char>, src: &[char])
    ensures
        final(out)@ == old(out)@ + src@,
{
    let mut k: usize = 0;
    while k < src.len()
        invariant
            k <= src@.len(),
            out@ == old(out)@ + src@.take(k as int),
        decreases src@.len() - k,
    {
        out.push(src[k]);
        k = k + 1;
        assert(src@.take(k as int) == src@.take(k - 1) + seq![src@[k - 1]]);
    }
    assert(src@.take(src@.len() as int) == src@);
}

proof fn lemma_skip_occurs(s: Seq<char>, pat: Seq<char>, i: int)
    requires
        0 <= i <= s.len(),
    ensures
        occurs_at(s.skip(i), pat, 0) == occurs_at(s, pat, i),
{
    if occurs_at(s, pat, i) {
        assert forall|j: int| 0 <= j < pat.len() implies #[trigger] s.skip(i)[0 + j] == pat[j] by {
            assert(s[i + j] == pat[j]);
        }
    }
    if occurs_at(s.skip(i), pat, 0) {
        assert forall|j: int| 0 <= j < pat.len() implies #[trigger] s[i + j] == pat[j] by {
            assert(s.skip(i)[0 + j] == pat[j]);
        }
    }
}

/// The replacement of `pat` by `rep` before every character of `s` and at
/// its end, as an empty pattern is replaced.
fn replace_empty_chars(s: &[char], pat: &[char], rep: &[char]) -> (out: Vec<char>)
    requires
        pat@.len() == 0,
    ensures
        out@ == replace_all(s@, pat@, rep@),
{
    let mut out: Vec<char> = Vec::new();
    let mut i: usize = 0;
    assert(s@.skip(0) == s@);
    while i < s.len()
        invariant
            pat@.len() == 0,
            i <= s@.len(),
            out@ + replace_all(s@.skip(i as int), pat@, rep@) == replace_all(s@, pat@, rep@),
        decreases s@.len() - i,
    {
        let ghost rest = s@.skip(i as int);
        assert(rest.skip(1) == s@.skip(i + 1));
        assert(replace_all(rest, pat@, rep@) == rep@ + seq![rest[0]] + replace_all(rest.skip(1), pat@, rep@));
        push_all(&mut out, rep);
        out.push(s[i]);
        i = i + 1;
    }
    assert(s@.skip(i as int).len() == 0);
    push_all(&mut out, rep);
    out
}

/// The replacement of `pat` by `rep` throughout `s`.
pub fn replace_chars(s: &[char], pat: &[char], rep: &[char]) -> (out: Vec<char>)
    ensures
        out@ == replace_all(s@, pat@, rep@),
{
    if pat.len() == 0 {
        return replace_empty_chars(s, pat, rep);
    }
    let mut out: Vec<char> = Vec::new();
    let mut i: usize = 0;
    assert(s@.skip(0) == s@);
    while i < s.len()
        invariant
            pat@.len() > 0,
            i <= s@.len(),
            out@ + replace_all(s@.skip(i as int), pat@, rep@) == replace_all(s@, pat@, rep@),
        decreases s@.len() - i,
    {
        let ghost rest = s@.skip(i as int);
        proof {
            lemma_skip_occurs(s@, pat@, i as int);
        }
        if occurs_at_exec(s, pat, i) {
            push_all(&mut out, rep);
            assert(rest.skip(pat@.len() as int) == s@.skip(i + pat@.len()));
            assert(out@ + replace_all(s@.skip(i + pat@.len()), pat@, rep@) == replace_all(s@, pat@, rep@)) by {
                assert(replace_all(rest, pat@, rep@) == rep@ + replace_all(rest.skip(pat@.len() as int), pat@, rep@));
            }
            i = i + pat.len();
        } else {
            out.push(s[i]);
            assert(rest.skip(1) == s@.skip(i + 1));
            assert(replace_all(rest, pat@, rep@) == seq![rest[0]] + replace_all(rest.skip(1), pat@, rep@)) by {
                if rest.len() < pat@.len() {
                    assert(rest.skip(1).len() < pat@.len());
                    assert(seq![rest[0]] + rest.skip(1) == rest);
                }
            }
            i = i + 1;
        }
    }
    assert(s@.skip(i as int).len() == 0);
    assert(out@ + s@.skip(i as int) == out@);
    out
}

/// The number of non-overlapping occurrences of `pat` in `s`.
pub fn count_chars(s: &[char], pat: &[char]) -> (n: usize)
    requires
        pat@.len() == 0 ==> s@.len() < usize::MAX,
    ensures
        n == count_matches(s@, pat@),
{
    if pat.len() == 0 {
        return s.len() + 1;
    }
    let mut n: usize = 0;
    let mut i: usize = 0;
    assert(s@.skip(0) == s@);
    proof {
        lemma_count_matches_bound(s@, pat@);
        let c = count_matches(s@, pat@);
        let m = pat@.len();
        assert(c <= c * m) by (nonlinear_arith) requires m >= 1;
    }
    while i < s.len()
        invariant
            pat@.len() > 0,
            i <= s@.len(),
            n + count_matches(s@.skip(i as int), pat@) == count_matches(s@, pat@),
            count_matches(s@, pat@) <= s@.len(),
        decreases s@.len() - i,
    {
        let ghost rest = s@.skip(i as int);
        proof {
            lemma_skip_occurs(s@, pat@, i as int);
        }
        if occurs_at_exec(s, pat, i) {
            assert(rest.skip(pat@.len() as int) == s@.skip(i + pat@.len()));
            n = n + 1;
            i = i + pat.len();
        } else {
            assert(rest.skip(1) == s@.skip(i + 1));
            i = i + 1;
        }
    }
    n
}

} // verus!

verus! {

/// `a` and `b` differ at some index that lies within both of them.
pub open spec fn diverge(a: Seq<char>, b: Seq<char>) -> bool
    decreases a.len(),
{
    if a.len() == 0 || b.len() == 0 {
        false
    } else if a[0] != b[0] {
        true
    } else {
        diverge(a.drop_first(), b.drop_first())
    }
}

/// For every `j` in `from..q.len()`, `rep` diverges from the tail of `q`
/// starting at `j`: text placed before `rep` cannot begin an occurrence of
/// `q` that `rep` completes or continues.
pub open spec fn cannot_continue(rep: Seq<char>, q: Seq<char>, from: int) -> bool
    decreases q.len() - from,
{
    if from < 0 || from >= q.len() {
        true
    } else {
        diverge(rep, q.skip(from)) && cannot_continue(rep, q, from + 1)
    }
}

/// For every `k` in `from..rep.len()`, the tail of `rep` starting at `k`
/// diverges from `q`: no occurrence of `q` can start inside `rep`.
pub open spec fn cannot_begin(rep: Seq<char>, q: Seq<char>, from: int) -> bool
    decreases rep.len() - from,
{
    if from < 0 || from >= rep.len() {
        true
    } else {
        diverge(rep.skip(from), q) && cannot_begin(rep, q, from + 1)
    }
}

/// Inserting `rep` into text can never create an occurrence of `q` that
/// overlaps `rep`.
pub open spec fn safe_replacement(rep: Seq<char>, q: Seq<char>) -> bool {
    cannot_continue(rep, q, 1) && cannot_begin(rep, q, 0)
}

proof fn lemma_diverge_witness(a: Seq<char>, b: Seq<char>) -> (i: int)
    requires
        diverge(a, b),
    ensures
        0 <= i < a.len(),
        i < b.len(),
        a[i] != b[i],
    decreases a.len(),
{
    if a[0] != b[0] {
        0
    } else {
        let k = lemma_diverge_witness(a.drop_first(), b.drop_first());
        k + 1
    }
}

proof fn lemma_cannot_continue_at(rep: Seq<char>, q: Seq<char>, from: int, j: int)
    requires
        cannot_continue(rep, q, from),
        0 <= from <= j < q.len(),
    ensures
        diverge(rep, q.skip(j)),
    decreases j - from,
{
    if from < j {
        lemma_cannot_continue_at(rep, q, from + 1, j);
    }
}

proof fn lemma_cannot_begin_at(rep: Seq<char>, q: Seq<char>, from: int, k: int)
    requires
        cannot_begin(rep, q, from),
        0 <= from <= k < rep.len(),
    ensures
        diverge(rep.skip(k), q),
    decreases k - from,
{
    if from < k {
        lemma_cannot_begin_at(rep, q, from + 1, k);
    }
}

/// An occurrence in a suffix is an occurrence in the whole.
proof fn lemma_occurs_in_skip(s: Seq<char>, q: Seq<char>, n: int, b: int)
    requires
        0 <= n <= s.len(),
        occurs_at(s.skip(n), q, b),
    ensures
        occurs_at(s, q, b + n),
{
    assert forall|j: int| 0 <= j < q.len() implies #[trigger] s[b + n + j] == q[j] by {
        assert(s.skip(n)[b + j] == q[j]);
    }
}

/// The core induction: scanning `t` after an already-produced prefix `w`
/// that holds no occurrence of `q` starting inside it, the output
/// `w + replace_all(t, p, rep)` holds no occurrence of `q` at all, provided
/// `rep` is a safe replacement with respect to `q` and either `q` is the
/// pattern being replaced or `t` is free of `q`.
proof fn lemma_free_after_scan(w: Seq<char>, t: Seq<char>, p: Seq<char>, rep: Seq<char>, q: Seq<char>)
    requires
        p.len() > 0,
        q.len() > 0,
        safe_replacement(rep, q),
        forall|a: int| 0 <= a < w.len() ==> !occurs_at(w + t, q, a),
        q == p || !contains_pat(t, q),
    ensures
        !contains_pat(w + replace_all(t, p, rep), q),
    decreases t.len(),
{
    if t.len() < p.len() {
        assert(replace_all(t, p, rep) == t);
        assert forall|a: int| !occurs_at(w + t, q, a) by {
            if a >= w.len() && occurs_at(w + t, q, a) {
                let b = a - w.len();
                assert forall|j: int| 0 <= j < q.len() implies #[trigger] t[b + j] == q[j] by {
                    assert((w + t)[a + j] == q[j]);
                }
                assert(occurs_at(t, q, b));
            }
        }
    } else if occurs_at(t, p, 0) {
        let t2 = t.skip(p.len() as int);
        let w2 = w + rep;
        assert(replace_all(t, p, rep) == rep + replace_all(t2, p, rep));
        assert forall|a: int| 0 <= a < w2.len() implies !occurs_at(w2 + t2, q, a) by {
            if a < w.len() {
                if a + q.len() <= w.len() {
                    if occurs_at(w2 + t2, q, a) {
                        assert forall|j: int| 0 <= j < q.len() implies #[trigger] (w + t)[a + j] == q[j] by {
                            assert((w2 + t2)[a + j] == q[j]);
                        }
                        assert(occurs_at(w + t, q, a));
                    }
                } else {
                    let j = w.len() - a;
                    lemma_cannot_continue_at(rep, q, 1, j);
                    let i = lemma_diverge_witness(rep, q.skip(j));
                    assert((w2 + t2)[a + (j + i)] == rep[i]);
                }
            } else {
                let k = a - w.len();
                lemma_cannot_begin_at(rep, q, 0, k);
                let i = lemma_diverge_witness(rep.skip(k), q);
                assert((w2 + t2)[a + i] == rep[k + i]);
            }
        }
        if q != p {
            assert forall|b: int| !occurs_at(t2, q, b) by {
                if occurs_at(t2, q, b) {
                    lemma_occurs_in_skip(t, q, p.len() as int, b);
                }
            }
        }
        lemma_free_after_scan(w2, t2, p, rep, q);
        assert(w2 + replace_all(t2, p, rep) == w + replace_all(t, p, rep));
    } else {
        let t1 = t.skip(1);
        let w1 = w + seq![t[0]];
        assert(replace_all(t, p, rep) == seq![t[0]] + replace_all(t1, p, rep));
        assert(w1 + t1 == w + t);
        assert forall|a: int| 0 <= a < w1.len() implies !occurs_at(w1 + t1, q, a) by {
            if a == w.len() && occurs_at(w + t, q, a) {
                assert forall|j: int| 0 <= j < q.len() implies #[trigger] t[0 + j] == q[j] by {
                    assert((w + t)[a + j] == q[j]);
                }
                assert(occurs_at(t, q, 0));
            }
        }
        if q != p {
            assert forall|b: int| !occurs_at(t1, q, b) by {
                if occurs_at(t1, q, b) {
                    lemma_occurs_in_skip(t, q, 1, b);
                }
            }
        }
        lemma_free_after_scan(w1, t1, p, rep, q);
        assert(w1 + replace_all(t1, p, rep) == w + replace_all(t, p, rep));
    }
}

/// Replacing every occurrence of `p` by a replacement that is safe with
/// respect to `p` leaves no occurrence of `p`.
pub proof fn lemma_replace_removes(s: Seq<char>, p: Seq<char>, rep: Seq<char>)
    requires
        p.len() > 0,
        safe_replacement(rep, p),
    ensures
        !contains_pat(replace_all(s, p, rep), p),
{
    let e = Seq::<char>::empty();
    assert(e + s == s);
    assert(e + replace_all(s, p, rep) == replace_all(s, p, rep));
    lemma_free_after_scan(e, s, p, rep, p);
}

/// Replacing occurrences of `p` by a replacement that is safe with respect
/// to `q` cannot introduce `q` into text that was free of it.
pub proof fn lemma_replace_keeps_free(s: Seq<char>, p: Seq<char>, rep: Seq<char>, q: Seq<char>)
    requires
        p.len() > 0,
        q.len() > 0,
        safe_replacement(rep, q),
        !contains_pat(s, q),
    ensures
        !contains_pat(replace_all(s, p, rep), q),
{
    let e = Seq::<char>::empty();
    assert(e + s == s);
    assert(e + replace_all(s, p, rep) == replace_all(s, p, rep));
    lemma_free_after_scan(e, s, p, rep, q);
}

/// Replacing a pattern that does not occur leaves the text unchanged.
pub proof fn lemma_replace_absent(s: Seq<char>, p: Seq<char>, rep: Seq<char>)
    requires
        !contains_pat(s, p),
    ensures
        replace_all(s, p, rep) == s,
    decreases s.len(),
{
    if p.len() == 0 {
        assert(occurs_at(s, p, 0));
    } else if s.len() < p.len() {
    } else {
        assert(!occurs_at(s, p, 0));
        let t1 = s.skip(1);
        assert forall|b: int| !occurs_at(t1, p, b) by {
            if occurs_at(t1, p, b) {
                lemma_occurs_in_skip(s, p, 1, b);
            }
        }
        lemma_replace_absent(t1, p, rep);
        assert(seq![s[0]] + t1 == s);
    }
}

} // verus!

verus! {

/// `String::push` appends one character at the end of the string.
#[verifier::external_body]
fn push_char(s: &mut String, c: char)
    ensures
        final(s)@ == old(s)@.push(c),
{
    s.push(c);
}

/// The characters of a string slice, in order.
pub fn chars_of(s: &str) -> (out: Vec<char>)
    ensures
        out@ == s@,
{
    let mut out: Vec<char> = Vec::new();
    for c in it: s.chars()
        invariant
            out@ == it.seq().take(it.index() as int),
            it.seq() == s@,
    {
        out.push(c);
    }
    out
}

/// The string made of the given characters, in order.
pub fn string_of(cs: &[char]) -> (out: String)
    ensures
        out@ == cs@,
{
    let mut out = String::new();
    let mut k: usize = 0;
    while k < cs.len()
        invariant
            k <= cs@.len(),
            out@ == cs@.take(k as int),
        decreases cs@.len() - k,
    {
        push_char(&mut out, cs[k]);
        k = k + 1;
        assert(cs@.take(k as int) == cs@.take(k - 1).push(cs@[k - 1]));
    }
    assert(cs@.take(cs@.len() as int) == cs@);
    out
}

/// `s` with every occurrence of `pat` replaced by `rep` (`str::replace`).
pub fn replace(s: &str, pat: &str, rep: &str) -> (out: String)
    ensures
        out@ == replace_all(s@, pat@, rep@),
{
    let sc = chars_of(s);
    let pc = chars_of(pat);
    let rc = chars_of(rep);
    let oc = replace_chars(sc.as_slice(), pc.as_slice(), rc.as_slice());
    string_of(oc.as_slice())
}

/// The number of non-overlapping occurrences of `pat` in `s`
/// (`str::matches(pat).count()`).
pub fn count(s: &str, pat: &str) -> (n: usize)
    requires
        pat@.len() == 0 ==> s@.len() < usize::MAX,
    ensures
        n == count_matches(s@, pat@),
{
    let sc = chars_of(s);
    let pc = chars_of(pat);
    count_chars(sc.as_slice(), pc.as_slice())
}

/// Whether `s` begins with `pat` (`str::starts_with`).
pub fn has_prefix(s: &str, pat: &str) -> (b: bool)
    ensures
        b == starts_with(s@, pat@),
{
    let sc = chars_of(s);
    let pc = chars_of(pat);
    occurs_at_exec(sc.as_slice(), pc.as_slice(), 0)
}

/// Whether `s` ends with `pat` (`str::ends_with`).
pub fn has_suffix(s: &str, pat: &str) -> (b: bool)
    ensures
        b == ends_with(s@, pat@),
{
    let sc = chars_of(s);
    let pc = chars_of(pat);
    if pc.len() > sc.len() {
        return false;
    }
    occurs_at_exec(sc.as_slice(), pc.as_slice(), sc.len() - pc.len())
}

/// Whether `pat` occurs anywhere in `cs`.
pub fn contains_chars(cs: &[char], pat: &[char]) -> (b: bool)
    ensures
        b == contains_pat(cs@, pat@),
{
    if pat.len() == 0 {
        assert(occurs_at(cs@, pat@, 0));
        return true;
    }
    let mut i: usize = 0;
    while i < cs.len()
        invariant
            pat@.len() > 0,
            i <= cs@.len(),
            forall|a: int| 0 <= a < i ==> !occurs_at(cs@, pat@, a),
        decreases cs@.len() - i,
    {
        if occurs_at_exec(cs, pat, i) {
            return true;
        }
        i = i + 1;
    }
    assert forall|a: int| !occurs_at(cs@, pat@, a) by {
        if a >= i {
            assert(a + pat@.len() > cs@.len());
        }
    }
    false
}

/// Whether `pat` occurs anywhere in `s` (`str::contains`).
pub fn has_substring(s: &str, pat: &str) -> (b: bool)
    ensures
        b == contains_pat(s@, pat@),
{
    let sc = chars_of(s);
    let pc = chars_of(pat);
    contains_chars(sc.as_slice(), pc.as_slice())
}

/// The characters with the Unicode `White_Space` property, the set that
/// `char::is_whitespace` tests for.
pub open spec fn is_white_space(c: char) -> bool {
    let u = c as u32;
    ||| 0x09 <= u <= 0x0d
    ||| u == 0x20
    ||| u == 0x85
    ||| u == 0xa0
    ||| u == 0x1680
    ||| 0x2000 <= u <= 0x200a
    ||| u == 0x2028
    ||| u == 0x2029
    ||| u == 0x202f
    ||| u == 0x205f
    ||| u == 0x3000
}

/// Whether `c` is a Unicode white-space character.
pub fn white_space(c: char) -> (b: bool)
    ensures
        b == is_white_space(c),
{
    let u = c as u32;
    (0x09 <= u && u <= 0x0d) || u == 0x20 || u == 0x85 || u == 0xa0 || u == 0x1680 || (0x2000 <= u
        && u <= 0x200a) || u == 0x2028 || u == 0x2029 || u == 0x202f || u == 0x205f || u == 0x3000
}

/// `s` without its leading characters that satisfy `strip`.
pub open spec fn strip_start(s: Seq<char>, strip: spec_fn(char) -> bool) -> Seq<char>
    decreases s.len(),
{
    if s.len() > 0 && strip(s[0]) {
        strip_start(s.drop_first(), strip)
    } else {
        s
    }
}

/// `s` without its trailing characters that satisfy `strip`.
pub open spec fn strip_end(s: Seq<char>, strip: spec_fn(char) -> bool) -> Seq<char>
    decreases s.len(),
{
    if s.len() > 0 && strip(s.last()) {
        strip_end(s.drop_last(), strip)
    } else {
        s
    }
}

/// `s` without leading and trailing white space (`str::trim`).
pub open spec fn trimmed(s: Seq<char>) -> Seq<char> {
    strip_end(strip_start(s, |c: char| is_white_space(c)), |c: char| is_white_space(c))
}

/// The predicate "is the character `q`".
pub open spec fn equal_to(q: char) -> spec_fn(char) -> bool {
    |c: char| c == q
}

/// `s` without leading and trailing copies of `q` (`str::trim_matches(q)`).
pub open spec fn trimmed_of(s: Seq<char>, q: char) -> Seq<char> {
    strip_end(strip_start(s, equal_to(q)), equal_to(q))
}

proof fn lemma_strip_start_from(s: Seq<char>, strip: spec_fn(char) -> bool, i: int)
    requires
        0 <= i <= s.len(),
        forall|k: int| 0 <= k < i ==> strip(#[trigger] s[k]),
    ensures
        strip_start(s, strip) == strip_start(s.skip(i), strip),
    decreases i,
{
    if i > 0 {
        assert(s.skip(1).skip(i - 1) == s.skip(i));
        assert forall|k: int| 0 <= k < i - 1 implies strip(#[trigger] s.skip(1)[k]) by {
            assert(s.skip(1)[k] == s[k + 1]);
        }
        lemma_strip_start_from(s.skip(1), strip, i - 1);
        assert(s.drop_first() == s.skip(1));
    } else {
        assert(s.skip(0) == s);
    }
}

proof fn lemma_strip_end_from(s: Seq<char>, strip: spec_fn(char) -> bool, j: int)
    requires
        0 <= j <= s.len(),
        forall|k: int| j <= k < s.len() ==> strip(#[trigger] s[k]),
    ensures
        strip_end(s, strip) == strip_end(s.take(j), strip),
    decreases s.len() - j,
{
    if j < s.len() {
        assert(s.drop_last().take(j) == s.take(j));
        assert forall|k: int| j <= k < s.drop_last().len() implies strip(#[trigger] s.drop_last()[k]) by {
            assert(s.drop_last()[k] == s[k]);
        }
        lemma_strip_end_from(s.drop_last(), strip, j);
    } else {
        assert(s.take(j) == s);
    }
}

/// `s` holds no copy of the character `c`.
pub open spec fn lacks_char(s: Seq<char>, c: char) -> bool {
    forall|k: int| 0 <= k < s.len() ==> #[trigger] s[k] != c
}

/// Stripping characters from either end introduces no character.
pub proof fn lemma_strip_keeps_lacking(s: Seq<char>, strip: spec_fn(char) -> bool, c: char)
    requires
        lacks_char(s, c),
    ensures
        lacks_char(strip_start(s, strip), c),
        lacks_char(strip_end(s, strip), c),
    decreases s.len(),
{
    if s.len() > 0 {
        assert(lacks_char(s.drop_first(), c)) by {
            assert forall|k: int| 0 <= k < s.drop_first().len() implies #[trigger] s.drop_first()[k] != c by {
                assert(s.drop_first()[k] == s[k + 1]);
            }
        }
        assert(lacks_char(s.drop_last(), c)) by {
            assert forall|k: int| 0 <= k < s.drop_last().len() implies #[trigger] s.drop_last()[k] != c by {
                assert(s.drop_last()[k] == s[k]);
            }
        }
        lemma_strip_keeps_lacking(s.drop_first(), strip, c);
        lemma_strip_keeps_lacking(s.drop_last(), strip, c);
    }
}

/// Trimming white space introduces no character.
pub proof fn lemma_trimmed_keeps_lacking(s: Seq<char>, c: char)
    requires
        lacks_char(s, c),
    ensures
        lacks_char(trimmed(s), c),
{
    let ws = |x: char| is_white_space(x);
    lemma_strip_keeps_lacking(s, ws, c);
    lemma_strip_keeps_lacking(strip_start(s, ws), ws, c);
}

/// The characters of `cs` between index `from` and index `to`.
pub fn slice_chars(cs: &[char], from: usize, to: usize) -> (out: Vec<char>)
    requires
        from <= to <= cs@.len(),
    ensures
        out@ == cs@.subrange(from as int, to as int),
{
    let mut out: Vec<char> = Vec::new();
    let mut k: usize = from;
    while k < to
        invariant
            from <= k <= to,
            to <= cs@.len(),
            out@ == cs@.subrange(from as int, k as int),
        decreases to - k,
    {
        out.push(cs[k]);
        k = k + 1;
        assert(cs@.subrange(from as int, k as int) == cs@.subrange(from as int, k - 1).push(cs@[k - 1]));
    }
    out
}

/// `cs` without leading and trailing white space.
pub fn trim_chars(cs: &[char]) -> (out: Vec<char>)
    ensures
        out@ == trimmed(cs@),
{
    let ghost ws = |c: char| is_white_space(c);
    let mut i: usize = 0;
    while i < cs.len() && white_space(cs[i])
        invariant
            i <= cs@.len(),
            forall|k: int| 0 <= k < i ==> is_white_space(#[trigger] cs@[k]),
        decreases cs@.len() - i,
    {
        i = i + 1;
    }
    let ghost rest = cs@.skip(i as int);
    proof {
        lemma_strip_start_from(cs@, ws, i as int);
        assert(strip_start(rest, ws) == rest);
    }
    let mut j: usize = cs.len();
    while j > i && white_space(cs[j - 1])
        invariant
            i <= j <= cs@.len(),
            forall|k: int| j <= k < cs@.len() ==> is_white_space(#[trigger] cs@[k]),
        decreases j,
    {
        j = j - 1;
    }
    proof {
        let m = (j - i) as int;
        assert forall|k: int| m <= k < rest.len() implies ws(#[trigger] rest[k]) by {
            assert(rest[k] == cs@[k + i]);
        }
        lemma_strip_end_from(rest, ws, m);
        assert(rest.take(m) == cs@.subrange(i as int, j as int));
        if m > 0 {
            assert(!ws(cs@[j - 1]));
        }
    }
    slice_chars(cs, i, j)
}

/// `s` without leading and trailing white space (`str::trim`).
pub fn trim(s: &str) -> (out: String)
    ensures
        out@ == trimmed(s@),
{
    let sc = chars_of(s);
    let t = trim_chars(sc.as_slice());
    string_of(t.as_slice())
}

/// `cs` without leading and trailing copies of `q`.
pub fn trim_char_chars(cs: &[char], q: char) -> (out: Vec<char>)
    ensures
        out@ == trimmed_of(cs@, q),
{
    let ghost is_q = equal_to(q);
    let mut i: usize = 0;
    while i < cs.len() && cs[i] == q
        invariant
            i <= cs@.len(),
            forall|k: int| 0 <= k < i ==> #[trigger] cs@[k] == q,
        decreases cs@.len() - i,
    {
        i = i + 1;
    }
    let ghost rest = cs@.skip(i as int);
    proof {
        lemma_strip_start_from(cs@, is_q, i as int);
        assert(strip_start(rest, is_q) == rest);
    }
    let mut j: usize = cs.len();
    while j > i && cs[j - 1] == q
        invariant
            i <= j <= cs@.len(),
            forall|k: int| j <= k < cs@.len() ==> #[trigger] cs@[k] == q,
        decreases j,
    {
        j = j - 1;
    }
    proof {
        let m = (j - i) as int;
        assert forall|k: int| m <= k < rest.len() implies is_q(#[trigger] rest[k]) by {
            assert(rest[k] == cs@[k + i]);
        }
        lemma_strip_end_from(rest, is_q, m);
        assert(rest.take(m) == cs@.subrange(i as int, j as int));
        if m > 0 {
            assert(!is_q(cs@[j - 1]));
        }
    }
    slice_chars(cs, i, j)
}

/// The decimal digit character for `d < 10`.
pub open spec fn digit_char(d: nat) -> char {
    ((48 + d) as u8) as char
}

/// The decimal rendering of `n`, as `Display` writes unsigned integers.
pub open spec fn decimal(n: nat) -> Seq<char>
    decreases n,
{
    if n < 10 {
        seq![digit_char(n)]
    } else {
        decimal(n / 10).push(digit_char(n % 10))
    }
}

fn decimal_chars(n: u128) -> (out: Vec<char>)
    ensures
        out@ == decimal(n as nat),
    decreases n,
{
    let d = (n % 10) as u8;
    let c = (48u8 + d) as char;
    if n < 10 {
        let mut v: Vec<char> = Vec::new();
        v.push(c);
        v
    } else {
        let mut v = decimal_chars(n / 10);
        v.push(c);
        v
    }
}

/// The decimal rendering of `n` (`n.to_string()`).
pub fn decimal_string(n: u128) -> (out: String)
    ensures
        out@ == decimal(n as nat),
{
    let v = decimal_chars(n);
    string_of(v.as_slice())
}

} // verus!

verus! {

/// Scanning `t` after a prefix `w` in which no occurrence of `p` starts
/// (within `w + t`), no occurrence of `p` starts inside `w` in
/// `w + replace_all(t, p, rep)` either, when `rep` cannot continue an
/// occurrence of `p` begun before it.
proof fn lemma_prefix_stays_free(w: Seq<char>, t: Seq<char>, p: Seq<char>, rep: Seq<char>)
    requires
        p.len() > 0,
        cannot_continue(rep, p, 1),
        forall|a: int| 0 <= a < w.len() ==> !occurs_at(w + t, p, a),
    ensures
        forall|a: int| 0 <= a < w.len() ==> !occurs_at(w + replace_all(t, p, rep), p, a),
    decreases t.len(),
{
    if t.len() < p.len() {
        assert(replace_all(t, p, rep) == t);
    } else if occurs_at(t, p, 0) {
        let t2 = t.skip(p.len() as int);
        let out = replace_all(t, p, rep);
        assert(out == rep + replace_all(t2, p, rep));
        assert forall|a: int| 0 <= a < w.len() implies !occurs_at(w + out, p, a) by {
            if a + p.len() <= w.len() {
                if occurs_at(w + out, p, a) {
                    assert forall|j: int| 0 <= j < p.len() implies #[trigger] (w + t)[a + j] == p[j] by {
                        assert((w + out)[a + j] == p[j]);
                    }
                    assert(occurs_at(w + t, p, a));
                }
            } else {
                let j = w.len() - a;
                lemma_cannot_continue_at(rep, p, 1, j);
                let i = lemma_diverge_witness(rep, p.skip(j));
                assert((w + out)[a + (j + i)] == rep[i]);
            }
        }
    } else {
        let t1 = t.skip(1);
        let w1 = w + seq![t[0]];
        assert(replace_all(t, p, rep) == seq![t[0]] + replace_all(t1, p, rep));
        assert(w1 + t1 == w + t);
        assert forall|a: int| 0 <= a < w1.len() implies !occurs_at(w1 + t1, p, a) by {
            if a == w.len() && occurs_at(w + t, p, a) {
                assert forall|j: int| 0 <= j < p.len() implies #[trigger] t[0 + j] == p[j] by {
                    assert((w + t)[a + j] == p[j]);
                }
                assert(occurs_at(t, p, 0));
            }
        }
        lemma_prefix_stays_free(w1, t1, p, rep);
        assert(w1 + replace_all(t1, p, rep) == w + replace_all(t, p, rep));
    }
}

/// `rep` begins with `p`, cannot continue an occurrence of `p` begun before
/// it, and holds no other start of `p`: a marked form of `p`.
pub open spec fn marks(rep: Seq<char>, p: Seq<char>) -> bool {
    &&& starts_with(rep, p)
    &&& cannot_continue(rep, p, 1)
    &&& cannot_begin(rep, p, 1)
}

/// Replacing `p` by a marked form `rep` of it leaves every occurrence of
/// `p` as the start of an occurrence of `rep`.
pub proof fn lemma_replace_marks(s: Seq<char>, p: Seq<char>, rep: Seq<char>)
    requires
        p.len() > 0,
        marks(rep, p),
    ensures
        forall|a: int|
            occurs_at(replace_all(s, p, rep), p, a) ==> occurs_at(replace_all(s, p, rep), rep, a),
    decreases s.len(),
{
    let out = replace_all(s, p, rep);
    if s.len() < p.len() {
        assert(out == s);
    } else if occurs_at(s, p, 0) {
        let t2 = s.skip(p.len() as int);
        let rest = replace_all(t2, p, rep);
        assert(out == rep + rest);
        lemma_replace_marks(t2, p, rep);
        assert forall|a: int| occurs_at(out, p, a) implies occurs_at(out, rep, a) by {
            if a == 0 {
                assert forall|j: int| 0 <= j < rep.len() implies #[trigger] out[0 + j] == rep[j] by {
                    assert(out[j] == rep[j]);
                }
            } else if a < rep.len() {
                lemma_cannot_begin_at(rep, p, 1, a);
                let i = lemma_diverge_witness(rep.skip(a), p);
                assert(out[a + i] == rep[a + i]);
            } else {
                let b = a - rep.len();
                assert forall|j: int| 0 <= j < p.len() implies #[trigger] rest[b + j] == p[j] by {
                    assert(out[a + j] == p[j]);
                }
                assert(occurs_at(rest, p, b));
                assert(occurs_at(rest, rep, b));
                assert forall|j: int| 0 <= j < rep.len() implies #[trigger] out[a + j] == rep[j] by {
                    assert(rest[b + j] == rep[j]);
                }
            }
        }
    } else {
        let t1 = s.skip(1);
        let rest = replace_all(t1, p, rep);
        let lead = seq![s[0]];
        assert(out == lead + rest);
        lemma_replace_marks(t1, p, rep);
        assert(lead + t1 == s);
        lemma_prefix_stays_free(lead, t1, p, rep);
        assert forall|a: int| occurs_at(out, p, a) implies occurs_at(out, rep, a) by {
            if a >= 1 {
                let b = a - 1;
                assert forall|j: int| 0 <= j < p.len() implies #[trigger] rest[b + j] == p[j] by {
                    assert(out[a + j] == p[j]);
                }
                assert(occurs_at(rest, p, b));
                assert forall|j: int| 0 <= j < rep.len() implies #[trigger] out[a + j] == rep[j] by {
                    assert(rest[b + j] == rep[j]);
                }
            }
        }
    }
}

/// Every occurrence of `p` in `s` is the start of an occurrence of `q`.
pub open spec fn marked(s: Seq<char>, p: Seq<char>, q: Seq<char>) -> bool {
    forall|a: int| occurs_at(s, p, a) ==> occurs_at(s, q, a)
}

/// One replacement step of the scan keeps the text marked: with `x`
/// occurring at the start of `t`, the text after putting `y` in its place
/// is marked whenever the text before was.
proof fn lemma_marked_step(w: Seq<char>, t: Seq<char>, x: Seq<char>, y: Seq<char>, p: Seq<char>, q: Seq<char>)
    requires
        x.len() > 0,
        p.len() > 0,
        safe_replacement(y, p),
        safe_replacement(q, x),
        occurs_at(t, x, 0),
        marked(w + t, p, q),
    ensures
        marked(w + y + t.skip(x.len() as int), p, q),
{
    let t2 = t.skip(x.len() as int);
    let n = w.len() as int;
    let m = y.len() as int;
    let before = w + t;
    let after = w + y + t2;
    assert forall|a: int| occurs_at(after, p, a) implies occurs_at(after, q, a) by {
        if a < n {
            if a + p.len() <= n {
                assert forall|j: int| 0 <= j < p.len() implies #[trigger] before[a + j] == p[j] by {
                    assert(after[a + j] == p[j]);
                }
                assert(occurs_at(before, p, a));
                assert(occurs_at(before, q, a));
                if a + q.len() <= n {
                    assert forall|j: int| 0 <= j < q.len() implies #[trigger] after[a + j] == q[j] by {
                        assert(before[a + j] == q[j]);
                    }
                } else {
                    let d = n - a;
                    lemma_cannot_begin_at(q, x, 0, d);
                    let i = lemma_diverge_witness(q.skip(d), x);
                    assert(before[a + (d + i)] == q[d + i]);
                    assert(t[0 + i] == x[i]);
                    assert(before[n + i] == t[i]);
                }
            } else {
                let j = n - a;
                lemma_cannot_continue_at(y, p, 1, j);
                let i = lemma_diverge_witness(y, p.skip(j));
                assert(after[a + (j + i)] == p[j + i]);
                assert(after[n + i] == y[i]);
            }
        } else if a < n + m {
            let k = a - n;
            lemma_cannot_begin_at(y, p, 0, k);
            let i = lemma_diverge_witness(y.skip(k), p);
            assert(after[a + i] == p[i]);
            assert(after[n + (k + i)] == y[k + i]);
        } else {
            let c = a - m + x.len();
            assert forall|j: int| 0 <= j < p.len() implies #[trigger] before[c + j] == p[j] by {
                assert(after[a + j] == p[j]);
                assert(after[a + j] == t2[a - n - m + j]);
                assert(before[c + j] == t[c - n + j]);
            }
            assert(occurs_at(before, p, c));
            assert(occurs_at(before, q, c));
            assert forall|j: int| 0 <= j < q.len() implies #[trigger] after[a + j] == q[j] by {
                assert(before[c + j] == q[j]);
                assert(before[c + j] == t[c - n + j]);
                assert(after[a + j] == t2[a - n - m + j]);
            }
        }
    }
}

/// The scan keeps the text marked: after a prefix `w`, with `w + t` marked,
/// `w + replace_all(t, x, y)` is marked.
proof fn lemma_marked_after_scan(w: Seq<char>, t: Seq<char>, x: Seq<char>, y: Seq<char>, p: Seq<char>, q: Seq<char>)
    requires
        x.len() > 0,
        p.len() > 0,
        safe_replacement(y, p),
        safe_replacement(q, x),
        marked(w + t, p, q),
    ensures
        marked(w + replace_all(t, x, y), p, q),
    decreases t.len(),
{
    if t.len() < x.len() {
        assert(replace_all(t, x, y) == t);
    } else if occurs_at(t, x, 0) {
        let t2 = t.skip(x.len() as int);
        lemma_marked_step(w, t, x, y, p, q);
        lemma_marked_after_scan(w + y, t2, x, y, p, q);
        assert(replace_all(t, x, y) == y + replace_all(t2, x, y));
        assert(w + y + replace_all(t2, x, y) == w + replace_all(t, x, y));
    } else {
        let t1 = t.skip(1);
        let w1 = w + seq![t[0]];
        assert(w1 + t1 == w + t);
        lemma_marked_after_scan(w1, t1, x, y, p, q);
        assert(replace_all(t, x, y) == seq![t[0]] + replace_all(t1, x, y));
        assert(w1 + replace_all(t1, x, y) == w + replace_all(t, x, y));
    }
}

/// Replacing `x` by `y` keeps every occurrence of `p` the start of an
/// occurrence of `q`, when `y` can neither hold nor complete an occurrence
/// of `p`, and no occurrence of `x` can overlap one of `q`.
pub proof fn lemma_replace_keeps_marked(s: Seq<char>, x: Seq<char>, y: Seq<char>, p: Seq<char>, q: Seq<char>)
    requires
        x.len() > 0,
        p.len() > 0,
        safe_replacement(y, p),
        safe_replacement(q, x),
        marked(s, p, q),
    ensures
        marked(replace_all(s, x, y), p, q),
{
    let e = Seq::<char>::empty();
    assert(e + s == s);
    lemma_marked_after_scan(e, s, x, y, p, q);
    assert(e + replace_all(s, x, y) == replace_all(s, x, y));
}

} // verus!

verus! {

/// The ASCII lowercase form of a character: `A`..`Z` become `a`..`z`,
/// every other character stays as it is (`char::to_ascii_lowercase`).
pub open spec fn ascii_lower_char(c: char) -> char {
    if 'A' <= c && c <= 'Z' {
        ((c as u32) + 32) as char
    } else {
        c
    }
}

/// The ASCII lowercase form of a text, character by character.
pub open spec fn ascii_lower(s: Seq<char>) -> Seq<char> {
    s.map_values(|c: char| ascii_lower_char(c))
}

/// `pat` occurs in `s` starting at index `i`, ASCII letter case aside.
pub open spec fn occurs_at_ci(s: Seq<char>, pat: Seq<char>, i: int) -> bool {
    &&& 0 <= i
    &&& i + pat.len() <= s.len()
    &&& forall|j: int| 0 <= j < pat.len() ==> #[trigger] ascii_lower_char(s[i + j]) == ascii_lower_char(pat[j])
}

/// Left-to-right, non-overlapping replacement of every occurrence of `pat`
/// in `s` by `rep`, where an occurrence may differ from `pat` in ASCII
/// letter case (tag and attribute names of HTML are matched this way).
pub open spec fn replace_all_ci(s: Seq<char>, pat: Seq<char>, rep: Seq<char>) -> Seq<char>
    decreases s.len(),
{
    if pat.len() == 0 {
        replace_all(s, pat, rep)
    } else if s.len() < pat.len() {
        s
    } else if occurs_at_ci(s, pat, 0) {
        rep + replace_all_ci(s.skip(pat.len() as int), pat, rep)
    } else {
        seq![s[0]] + replace_all_ci(s.skip(1), pat, rep)
    }
}

/// The ASCII lowercase form of a character.
pub fn lower_char(c: char) -> (d: char)
    ensures
        d == ascii_lower_char(c),
{
    if 'A' <= c && c <= 'Z' {
        let b: u8 = (c as u32 + 32) as u8;
        b as char
    } else {
        c
    }
}

/// Whether `pat` occurs in `s` at index `i`, ASCII letter case aside.
pub fn occurs_at_ci_exec(s: &[char], pat: &[char], i: usize) -> (b: bool)
    ensures
        b == occurs_at_ci(s@, pat@, i as int),
{
    if i > s.len() || s.len() - i < pat.len() {
        return false;
    }
    let mut j: usize = 0;
    while j < pat.len()
        invariant
            i + pat@.len() <= s@.len(),
            i + pat.len() <= s.len(),
            j <= pat@.len(),
            forall|k: int| 0 <= k < j ==> #[trigger] ascii_lower_char(s@[i + k]) == ascii_lower_char(pat@[k]),
        decreases pat@.len() - j,
    {
        if lower_char(s[i + j]) != lower_char(pat[j]) {
            assert(ascii_lower_char(s@[i + j as int]) != ascii_lower_char(pat@[j as int]));
            return false;
        }
        j = j + 1;
    }
    true
}

proof fn lemma_skip_occurs_ci(s: Seq<char>, pat: Seq<char>, i: int)
    requires
        0 <= i <= s.len(),
    ensures
        occurs_at_ci(s.skip(i), pat, 0) == occurs_at_ci(s, pat, i),
{
    if occurs_at_ci(s, pat, i) {
        assert forall|j: int| 0 <= j < pat.len() implies #[trigger] ascii_lower_char(s.skip(i)[0 + j])
            == ascii_lower_char(pat[j]) by {
            assert(ascii_lower_char(s[i + j]) == ascii_lower_char(pat[j]));
            assert(s.skip(i)[0 + j] == s[i + j]);
        }
    }
    if occurs_at_ci(s.skip(i), pat, 0) {
        assert forall|j: int| 0 <= j < pat.len() implies #[trigger] ascii_lower_char(s[i + j])
            == ascii_lower_char(pat[j]) by {
            assert(ascii_lower_char(s.skip(i)[0 + j]) == ascii_lower_char(pat[j]));
            assert(s.skip(i)[0 + j] == s[i + j]);
        }
    }
}

/// The replacement of `pat` by `rep` throughout `s`, ASCII letter case
/// aside.
pub fn replace_ci_chars(s: &[char], pat: &[char], rep: &[char]) -> (out: Vec<char>)
    ensures
        out@ == replace_all_ci(s@, pat@, rep@),
{
    if pat.len() == 0 {
        return replace_chars(s, pat, rep);
    }
    let mut out: Vec<char> = Vec::new();
    let mut i: usize = 0;
    assert(s@.skip(0) == s@);
    while i < s.len()
        invariant
            pat@.len() > 0,
            i <= s@.len(),
            out@ + replace_all_ci(s@.skip(i as int), pat@, rep@) == replace_all_ci(s@, pat@, rep@),
        decreases s@.len() - i,
    {
        let ghost rest = s@.skip(i as int);
        proof {
            lemma_skip_occurs_ci(s@, pat@, i as int);
        }
        if occurs_at_ci_exec(s, pat, i) {
            push_all(&mut out, rep);
            assert(rest.skip(pat@.len() as int) == s@.skip(i + pat@.len()));
            assert(out@ + replace_all_ci(s@.skip(i + pat@.len()), pat@, rep@) == replace_all_ci(s@, pat@, rep@)) by {
                assert(replace_all_ci(rest, pat@, rep@) == rep@ + replace_all_ci(rest.skip(pat@.len() as int), pat@, rep@));
            }
            i = i + pat.len();
        } else {
            out.push(s[i]);
            assert(rest.skip(1) == s@.skip(i + 1));
            assert(replace_all_ci(rest, pat@, rep@) == seq![rest[0]] + replace_all_ci(rest.skip(1), pat@, rep@)) by {
                if rest.len() < pat@.len() {
                    assert(rest.skip(1).len() < pat@.len());
                    assert(seq![rest[0]] + rest.skip(1) == rest);
                }
            }
            i = i + 1;
        }
    }
    assert(s@.skip(i as int).len() == 0);
    assert(out@ + s@.skip(i as int) == out@);
    out
}

proof fn lemma_lower_concat(a: Seq<char>, b: Seq<char>)
    ensures
        ascii_lower(a + b) == ascii_lower(a) + ascii_lower(b),
{
    assert(ascii_lower(a + b) =~= ascii_lower(a) + ascii_lower(b));
}

/// Replacing regardless of ASCII letter case, then lowering, is lowering,
/// then replacing exactly: the lowercase form of the result is an exact
/// replacement in the lowercase form of the text.
pub proof fn lemma_lower_replace_ci(s: Seq<char>, pat: Seq<char>, rep: Seq<char>)
    requires
        pat.len() > 0,
    ensures
        ascii_lower(replace_all_ci(s, pat, rep)) == replace_all(ascii_lower(s), ascii_lower(pat), ascii_lower(rep)),
    decreases s.len(),
{
    let ls = ascii_lower(s);
    let lp = ascii_lower(pat);
    let lr = ascii_lower(rep);
    if s.len() >= pat.len() {
        assert(occurs_at_ci(s, pat, 0) == occurs_at(ls, lp, 0)) by {
            if occurs_at_ci(s, pat, 0) {
                assert forall|j: int| 0 <= j < lp.len() implies #[trigger] ls[0 + j] == lp[j] by {
                    assert(ascii_lower_char(s[0 + j]) == ascii_lower_char(pat[j]));
                }
            }
            if occurs_at(ls, lp, 0) {
                assert forall|j: int| 0 <= j < pat.len() implies #[trigger] ascii_lower_char(s[0 + j])
                    == ascii_lower_char(pat[j]) by {
                    assert(ls[0 + j] == lp[j]);
                }
            }
        }
        if occurs_at_ci(s, pat, 0) {
            let t = s.skip(pat.len() as int);
            lemma_lower_replace_ci(t, pat, rep);
            assert(ascii_lower(t) =~= ls.skip(lp.len() as int));
            lemma_lower_concat(rep, replace_all_ci(t, pat, rep));
        } else {
            let t = s.skip(1);
            lemma_lower_replace_ci(t, pat, rep);
            assert(ascii_lower(t) =~= ls.skip(1));
            lemma_lower_concat(seq![s[0]], replace_all_ci(t, pat, rep));
            assert(ascii_lower(seq![s[0]]) =~= seq![ls[0]]);
        }
    }
}

/// No character of `s` from index `from` on is an ASCII capital letter.
pub open spec fn no_capitals_from(s: Seq<char>, from: int) -> bool
    decreases s.len() - from,
{
    if from < 0 || from >= s.len() {
        true
    } else {
        !('A' <= s[from] && s[from] <= 'Z') && no_capitals_from(s, from + 1)
    }
}

proof fn lemma_no_capitals_at(s: Seq<char>, from: int, k: int)
    requires
        no_capitals_from(s, from),
        0 <= from <= k < s.len(),
    ensures
        !('A' <= s[k] && s[k] <= 'Z'),
    decreases k - from,
{
    if from < k {
        lemma_no_capitals_at(s, from + 1, k);
    }
}

/// A text without ASCII capitals is its own lowercase form.
pub proof fn lemma_lower_of_lowercase(s: Seq<char>)
    requires
        no_capitals_from(s, 0),
    ensures
        ascii_lower(s) == s,
{
    assert forall|k: int| 0 <= k < s.len() implies #[trigger] ascii_lower(s)[k] == s[k] by {
        lemma_no_capitals_at(s, 0, k);
    }
    assert(ascii_lower(s) =~= s);
}

} // verus!

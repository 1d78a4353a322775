//! Byte-string helpers: searching, trimming and decimal rendering.

use vstd::prelude::*;

verus! {

/// The byte of `/`.
pub const SLASH: u8 = 47;

/// The byte of `.`.
pub const DOT: u8 = 46;

/// True when `s` holds two consecutive `.` bytes somewhere.
pub open spec fn has_dotdot(s: Seq<u8>) -> bool {
    exists|i: int| 0 <= i && i + 1 < s.len() && #[trigger] s[i] == DOT && s[i + 1] == DOT
}

/// `s` without the `/` bytes it starts with.
pub open spec fn trim_leading_slashes(s: Seq<u8>) -> Seq<u8>
    decreases s.len(),
{
    if s.len() > 0 && s[0] == SLASH {
        trim_leading_slashes(s.drop_first())
    } else {
        s
    }
}

/// The decimal digits of `m`, most significant first, without leading zeros.
pub open spec fn digits(m: nat) -> Seq<u8>
    decreases m,
{
    if m < 10 {
        seq![(48 + m) as u8]
    } else {
        digits(m / 10).push((48 + m % 10) as u8)
    }
}

/// The decimal rendering of `n`, with a leading `-` when it is negative.
pub open spec fn decimal(n: int) -> Seq<u8> {
    if n < 0 {
        seq![45u8] + digits((-n) as nat)
    } else {
        digits(n as nat)
    }
}

/// Removing leading `/` bytes keeps a string free of `..`, and leaves a
/// suffix of it.
pub proof fn lemma_trim_suffix(s: Seq<u8>)
    ensures
        trim_leading_slashes(s).len() <= s.len(),
        trim_leading_slashes(s) == s.skip(s.len() - trim_leading_slashes(s).len()),
        !has_dotdot(s) ==> !has_dotdot(trim_leading_slashes(s)),
    decreases s.len(),
{
    if s.len() > 0 && s[0] == SLASH {
        let t = s.drop_first();
        lemma_trim_suffix(t);
        let r = trim_leading_slashes(t);
        assert(t.skip(t.len() - r.len()) =~= s.skip(s.len() - r.len()));
        if !has_dotdot(s) {
            assert forall|i: int| 0 <= i && i + 1 < t.len() implies !(#[trigger] t[i] == DOT
                && t[i + 1] == DOT) by {
                assert(t[i] == s[i + 1] && t[i + 1] == s[i + 2]);
            }
        }
    } else {
        assert(s.skip(0) =~= s);
    }
}

/// Two strings free of `..` stay free of it when joined, unless the first
/// ends and the second starts with `.`.
pub proof fn lemma_concat_no_dotdot(a: Seq<u8>, b: Seq<u8>)
    requires
        !has_dotdot(a),
        !has_dotdot(b),
        a.len() == 0 || b.len() == 0 || a.last() != DOT || b[0] != DOT,
    ensures
        !has_dotdot(a + b),
{
    let c = a + b;
    assert forall|i: int| 0 <= i && i + 1 < c.len() implies !(#[trigger] c[i] == DOT && c[i + 1]
        == DOT) by {
        if i + 1 < a.len() {
            assert(c[i] == a[i] && c[i + 1] == a[i + 1]);
        } else if i >= a.len() {
            assert(c[i] == b[i - a.len()] && c[i + 1] == b[i + 1 - a.len()]);
        } else {
            assert(c[i] == a.last() && c[i + 1] == b[0]);
        }
    }
}

/// Every byte of a digit string is an ASCII digit, and there is at least one.
pub proof fn lemma_digits_bytes(m: nat)
    ensures
        digits(m).len() >= 1,
        forall|i: int| 0 <= i < digits(m).len() ==> 48 <= #[trigger] digits(m)[i] <= 57,
    decreases m,
{
    if m >= 10 {
        lemma_digits_bytes(m / 10);
    }
}

/// Whether `s` holds the substring `..`.
pub fn contains_dotdot(s: &[u8]) -> (r: bool)
    ensures
        r == has_dotdot(s@),
{
    let n = s.len();
    if n < 2 {
        return false;
    }
    let mut i: usize = 0;
    while i < n - 1
        invariant
            n == s@.len(),
            n >= 2,
            i <= n - 1,
            forall|j: int| 0 <= j < i ==> !(#[trigger] s@[j] == DOT && s@[j + 1] == DOT),
        decreases n - 1 - i,
    {
        if s[i] == DOT && s[i + 1] == DOT {
            assert(s@[i as int] == DOT && s@[i + 1] == DOT);
            return true;
        }
        i = i + 1;
    }
    false
}

/// How many `/` bytes `s` starts with: skipping them leaves
/// `trim_leading_slashes(s)`.
pub fn leading_slash_count(s: &[u8]) -> (k: usize)
    ensures
        k <= s@.len(),
        s@.skip(k as int) == trim_leading_slashes(s@),
        forall|j: int| 0 <= j < k ==> s@[j] == SLASH,
{
    let n = s.len();
    let mut k: usize = 0;
    assert(s@.skip(0) =~= s@);
    while k < n && s[k] == SLASH
        invariant
            n == s@.len(),
            k <= n,
            trim_leading_slashes(s@.skip(k as int)) == trim_leading_slashes(s@),
            forall|j: int| 0 <= j < k ==> s@[j] == SLASH,
        decreases n - k,
    {
        assert(s@.skip(k as int).drop_first() =~= s@.skip(k + 1));
        k = k + 1;
    }
    k
}

/// Appends the bytes of `s` from index `from` on to `out`.
pub fn extend_from(out: &mut Vec<u8>, s: &[u8], from: usize)
    requires
        from <= s@.len(),
    ensures
        final(out)@ == old(out)@ + s@.skip(from as int),
{
    let n = s.len();
    let mut i: usize = from;
    while i < n
        invariant
            n == s@.len(),
            from <= i <= n,
            out@ == old(out)@ + s@.subrange(from as int, i as int),
        decreases n - i,
    {
        out.push(s[i]);
        i = i + 1;
        assert(out@ =~= old(out)@ + s@.subrange(from as int, i as int));
    }
    assert(s@.subrange(from as int, n as int) =~= s@.skip(from as int));
}

/// Appends the decimal digits of `m` to `out`.
pub fn push_digits(out: &mut Vec<u8>, m: u64)
    ensures
        final(out)@ == old(out)@ + digits(m as nat),
    decreases m,
{
    if m >= 10 {
        push_digits(out, m / 10);
    }
    out.push(48 + (m % 10) as u8);
    assert(out@ =~= old(out)@ + digits(m as nat));
}

/// Appends the decimal rendering of `n` to `out`.
pub fn push_decimal(out: &mut Vec<u8>, n: i64)
    ensures
        final(out)@ == old(out)@ + decimal(n as int),
{
    if n < 0 {
        out.push(45u8);
        let m: u64 = ((-(n + 1)) as u64) + 1;
        push_digits(out, m);
        assert(out@ =~= old(out)@ + decimal(n as int));
    } else {
        push_digits(out, n as u64);
    }
}

} // verus!

//! Byte strings: equality, and the minimal big-endian form of an unsigned integer.

use vstd::prelude::*;

verus! {

/// The unsigned integer that `s` denotes, most significant byte first.
pub open spec fn be_value(s: Seq<u8>) -> nat
    decreases s.len(),
{
    if s.len() == 0 {
        0
    } else {
        be_value(s.drop_last()) * 256 + s.last() as nat
    }
}

/// `s` without its leading zero bytes.
pub open spec fn magnitude(s: Seq<u8>) -> Seq<u8>
    decreases s.len(),
{
    if s.len() == 0 {
        s
    } else if s[0] == 0 {
        magnitude(s.subrange(1, s.len() as int))
    } else {
        s
    }
}

/// How many zero bytes `s` begins with.
pub open spec fn leading_zeros(s: Seq<u8>) -> nat
    decreases s.len(),
{
    if s.len() == 0 || s[0] != 0 {
        0
    } else {
        1 + leading_zeros(s.subrange(1, s.len() as int))
    }
}

/// The magnitude is what follows the leading zeros.
pub proof fn lemma_magnitude_is_suffix(s: Seq<u8>)
    ensures
        leading_zeros(s) <= s.len(),
        magnitude(s) == s.subrange(leading_zeros(s) as int, s.len() as int),
        forall|i: int| 0 <= i < leading_zeros(s) ==> s[i] == 0,
        leading_zeros(s) < s.len() ==> s[leading_zeros(s) as int] != 0,
    decreases s.len(),
{
    if s.len() == 0 || s[0] != 0 {
        assert(s.subrange(0, s.len() as int) =~= s);
    } else {
        let t = s.subrange(1, s.len() as int);
        lemma_magnitude_is_suffix(t);
        let k = leading_zeros(t);
        assert(t.subrange(k as int, t.len() as int) =~= s.subrange(k as int + 1, s.len() as int));
        assert forall|i: int| 0 <= i < leading_zeros(s) implies s[i] == 0 by {
            if i > 0 {
                assert(s[i] == t[i - 1]);
            }
        }
        if leading_zeros(s) < s.len() {
            assert(s[leading_zeros(s) as int] == t[k as int]);
        }
    }
}

/// A leading zero byte adds nothing to the integer.
pub proof fn lemma_leading_zero_keeps_value(s: Seq<u8>)
    requires
        s.len() > 0,
        s[0] == 0,
    ensures
        be_value(s) == be_value(s.subrange(1, s.len() as int)),
    decreases s.len(),
{
    let rest = s.subrange(1, s.len() as int);
    let front = s.drop_last();
    if s.len() == 1 {
        assert(be_value(front) == 0);
        assert(be_value(rest) == 0);
        assert(s.last() == 0);
    } else {
        assert(front[0] == 0);
        lemma_leading_zero_keeps_value(front);
        assert(front.subrange(1, front.len() as int) =~= rest.drop_last());
        assert(rest.last() == s.last());
        assert(be_value(s) == be_value(front) * 256 + s.last() as nat);
        assert(be_value(rest) == be_value(rest.drop_last()) * 256 + rest.last() as nat);
    }
}

/// Stripping the leading zeros keeps the integer: the magnitude denotes what
/// the bytes denote.
pub proof fn lemma_magnitude_keeps_value(s: Seq<u8>)
    ensures
        be_value(magnitude(s)) == be_value(s),
    decreases s.len(),
{
    if s.len() > 0 && s[0] == 0 {
        lemma_leading_zero_keeps_value(s);
        lemma_magnitude_keeps_value(s.subrange(1, s.len() as int));
    }
}

/// The magnitude is minimal: it is no longer than the bytes, and does not
/// begin with a zero byte.
pub proof fn lemma_magnitude_is_minimal(s: Seq<u8>)
    ensures
        magnitude(s).len() <= s.len(),
        magnitude(s).len() > 0 ==> magnitude(s)[0] != 0,
        magnitude(magnitude(s)) == magnitude(s),
{
    lemma_magnitude_is_suffix(s);
}

/// Whether two byte strings hold the same bytes.
pub fn bytes_eq(a: &[u8], b: &[u8]) -> (same: bool)
    ensures
        same == (a@ == b@),
{
    if a.len() != b.len() {
        return false;
    }
    let mut i: usize = 0;
    while i < a.len()
        invariant
            a@.len() == b@.len(),
            i <= a@.len(),
            forall|j: int| 0 <= j < i ==> a@[j] == b@[j],
        decreases a.len() - i,
    {
        if a[i] != b[i] {
            return false;
        }
        i += 1;
    }
    assert(a@ =~= b@);
    true
}

/// Strips the leading zero bytes: the shortest big-endian form of the same
/// unsigned integer.
pub fn trim_leading_zeros(bytes: &[u8]) -> (out: Vec<u8>)
    ensures
        out@ == magnitude(bytes@),
{
    let mut start: usize = 0;
    while start < bytes.len() && bytes[start] == 0
        invariant
            start <= bytes@.len(),
            forall|j: int| 0 <= j < start ==> bytes@[j] == 0,
        decreases bytes.len() - start,
    {
        start += 1;
    }
    proof {
        lemma_magnitude_is_suffix(bytes@);
        let k = leading_zeros(bytes@);
        if k < start {
            assert(bytes@[k as int] == 0);
        }
        if start < k {
            assert(bytes@[start as int] == 0);
        }
    }
    let mut out: Vec<u8> = Vec::new();
    let mut i: usize = start;
    while i < bytes.len()
        invariant
            start <= i <= bytes@.len(),
            out@ == bytes@.subrange(start as int, i as int),
        decreases bytes.len() - i,
    {
        out.push(bytes[i]);
        assert(out@ =~= bytes@.subrange(start as int, i as int + 1));
        i += 1;
    }
    out
}

} // verus!

//! Byte-level text helpers shared by the codec, the router and the handlers.
//!
//! Everything that travels on the wire is modelled as a `Seq<u8>`. Literal
//! texts are written as `wire("...")`, the bytes of the literal.

use vstd::prelude::*;
use vstd::string::StringSliceAdditionalSpecFns;

verus! {

/// The bytes that a text stands for on the wire.
pub open spec fn wire(s: &str) -> Seq<u8> {
    s.spec_bytes()
}

/// The byte strings held by a vector of byte vectors.
pub open spec fn rows(v: Seq<Vec<u8>>) -> Seq<Seq<u8>> {
    Seq::new(v.len(), |i: int| v[i]@)
}

/// `s` without the leading `p`, or `s` itself when it does not begin with `p`.
pub open spec fn after_prefix(s: Seq<u8>, p: Seq<u8>) -> Seq<u8> {
    if p.is_prefix_of(s) {
        s.skip(p.len() as int)
    } else {
        s
    }
}

/// The decimal digits of `n`, most significant first, without leading zeros.
pub open spec fn decimal(n: nat) -> Seq<u8>
    decreases n,
{
    if n < 10 {
        seq![(48 + n) as u8]
    } else {
        decimal(n / 10).push((48 + n % 10) as u8)
    }
}

/// Copies a text into a fresh byte vector.
pub fn to_wire(s: &str) -> (out: Vec<u8>)
    ensures
        out@ == wire(s),
{
    s.as_bytes_vec()
}

/// Appends `s` to `out`.
pub fn append(out: &mut Vec<u8>, s: &[u8])
    ensures
        final(out)@ == old(out)@ + s@,
{
    out.extend_from_slice(s);
    assert(out@ =~= old(out)@ + s@);
}

/// Copies the bytes of `s` from index `from` up to, not including, `to`.
pub fn copy_range(s: &[u8], from: usize, to: usize) -> (out: Vec<u8>)
    requires
        from <= to <= s@.len(),
    ensures
        out@ == s@.subrange(from as int, to as int),
{
    let mut out: Vec<u8> = Vec::new();
    let mut i: usize = from;
    while i < to
        invariant
            from <= i <= to <= s@.len(),
            out@ == s@.subrange(from as int, i as int),
        decreases to - i,
    {
        out.push(s[i]);
        i = i + 1;
        assert(out@ =~= s@.subrange(from as int, i as int));
    }
    out
}

/// Whether two byte strings hold the same bytes.
pub fn same_bytes(a: &[u8], b: &[u8]) -> (r: bool)
    ensures
        r == (a@ == b@),
{
    if a.len() != b.len() {
        return false;
    }
    let mut i: usize = 0;
    while i < a.len()
        invariant
            a@.len() == b@.len(),
            i <= a@.len(),
            a@.subrange(0, i as int) == b@.subrange(0, i as int),
        decreases a@.len() - i,
    {
        if a[i] != b[i] {
            return false;
        }
        i = i + 1;
        assert(a@.subrange(0, i as int) =~= a@.subrange(0, i - 1).push(a@[i - 1]));
        assert(b@.subrange(0, i as int) =~= b@.subrange(0, i - 1).push(b@[i - 1]));
    }
    assert(a@ =~= a@.subrange(0, i as int));
    assert(b@ =~= b@.subrange(0, i as int));
    true
}

/// Whether `s` begins with `p`.
pub fn starts_with(s: &[u8], p: &[u8]) -> (r: bool)
    ensures
        r == p@.is_prefix_of(s@),
{
    if p.len() > s.len() {
        return false;
    }
    let mut i: usize = 0;
    while i < p.len()
        invariant
            p@.len() <= s@.len(),
            i <= p@.len(),
            p@.subrange(0, i as int) == s@.subrange(0, i as int),
        decreases p@.len() - i,
    {
        if p[i] != s[i] {
            assert(s@.subrange(0, p@.len() as int)[i as int] != p@[i as int]);
            return false;
        }
        i = i + 1;
        assert(p@.subrange(0, i as int) =~= p@.subrange(0, i - 1).push(p@[i - 1]));
        assert(s@.subrange(0, i as int) =~= s@.subrange(0, i - 1).push(s@[i - 1]));
    }
    assert(p@ =~= p@.subrange(0, i as int));
    true
}

/// Removes the leading `p` from `s` where it is there.
pub fn strip_prefix(s: &[u8], p: &[u8]) -> (out: Vec<u8>)
    ensures
        out@ == after_prefix(s@, p@),
{
    if starts_with(s, p) {
        copy_range(s, p.len(), s.len())
    } else {
        let out = copy_range(s, 0, s.len());
        assert(out@ =~= s@);
        out
    }
}

/// Writes `n` in decimal.
pub fn to_decimal(n: usize) -> (out: Vec<u8>)
    ensures
        out@ == decimal(n as nat),
    decreases n,
{
    if n < 10 {
        let d: u8 = 48 + n as u8;
        let mut out: Vec<u8> = Vec::new();
        out.push(d);
        assert(out@ =~= seq![(48 + n) as u8]);
        out
    } else {
        let mut out = to_decimal(n / 10);
        let d: u8 = 48 + (n % 10) as u8;
        out.push(d);
        out
    }
}

} // verus!

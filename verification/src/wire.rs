//! Big-endian integers on the wire, and helpers on byte slices.

use vstd::prelude::*;

verus! {

/// The last `len` base-256 digits of `n`, most significant first.
pub open spec fn be_bytes(n: nat, len: nat) -> Seq<u8>
    decreases len,
{
    if len == 0 {
        Seq::empty()
    } else {
        be_bytes(n / 256, (len - 1) as nat).push((n % 256) as u8)
    }
}

/// The number whose base-256 digits, most significant first, are `bytes`.
pub open spec fn be_value(bytes: Seq<u8>) -> nat
    decreases bytes.len(),
{
    if bytes.len() == 0 {
        0
    } else {
        be_value(bytes.drop_last()) * 256 + bytes.last() as nat
    }
}

/// `256` to the power `len`: one more than what `len` bytes can hold.
pub open spec fn be_limit(len: nat) -> nat
    decreases len,
{
    if len == 0 {
        1
    } else {
        be_limit((len - 1) as nat) * 256
    }
}

pub proof fn lemma_be_bytes_len(n: nat, len: nat)
    ensures
        be_bytes(n, len).len() == len,
    decreases len,
{
    if len > 0 {
        lemma_be_bytes_len(n / 256, (len - 1) as nat);
    }
}

pub proof fn lemma_be_value_bound(bytes: Seq<u8>)
    ensures
        be_value(bytes) < be_limit(bytes.len()),
    decreases bytes.len(),
{
    if bytes.len() > 0 {
        lemma_be_value_bound(bytes.drop_last());
    }
}

/// Reading back what was written: the digits of a number that fits denote it.
pub proof fn lemma_be_round_trip(n: nat, len: nat)
    requires
        n < be_limit(len),
    ensures
        be_bytes(n, len).len() == len,
        be_value(be_bytes(n, len)) == n,
    decreases len,
{
    lemma_be_bytes_len(n, len);
    if len > 0 {
        let rest = be_bytes(n / 256, (len - 1) as nat);
        lemma_be_round_trip(n / 256, (len - 1) as nat);
        assert(be_bytes(n, len).drop_last() =~= rest);
    }
}

/// Writing back what was read: a byte string is the digits of its own value.
pub proof fn lemma_be_bytes_of_value(bytes: Seq<u8>)
    ensures
        be_bytes(be_value(bytes), bytes.len()) == bytes,
    decreases bytes.len(),
{
    if bytes.len() > 0 {
        let rest = bytes.drop_last();
        lemma_be_bytes_of_value(rest);
        let n = be_value(bytes);
        assert(n / 256 == be_value(rest));
        assert(n % 256 == bytes.last() as nat);
        assert(rest.push(bytes.last()) =~= bytes);
    } else {
        assert(be_bytes(be_value(bytes), 0) =~= bytes);
    }
}

/// The powers of 256 that the fixed-width integers need.
pub proof fn lemma_be_limits()
    ensures
        be_limit(2) == 0x1_0000,
        be_limit(4) == 0x1_0000_0000,
        be_limit(8) == 0x1_0000_0000_0000_0000,
{
    reveal_with_fuel(be_limit, 9);
}

/// Appends the `len` low bytes of `n` to `out`, most significant first.
pub fn push_be(out: &mut Vec<u8>, n: u64, len: usize)
    ensures
        final(out)@ == old(out)@ + be_bytes(n as nat, len as nat),
    decreases len,
{
    if len > 0 {
        push_be(out, n / 256, len - 1);
        out.push((n % 256) as u8);
    }
    assert(out@ =~= old(out)@ + be_bytes(n as nat, len as nat));
}

/// The big-endian number held by `bytes[start .. start + len]`.
pub fn read_be(bytes: &[u8], start: usize, len: usize) -> (value: u64)
    requires
        len <= 8,
        start + len <= bytes@.len(),
    ensures
        value as nat == be_value(bytes@.subrange(start as int, start + len)),
        len == 2 ==> value < 0x1_0000,
        len == 4 ==> value < 0x1_0000_0000,
{
    let available: usize = bytes.len();
    let mut value: u64 = 0;
    let mut i: usize = 0;
    while i < len
        invariant
            i <= len <= 8,
            start + len <= available == bytes@.len(),
            value as nat == be_value(bytes@.subrange(start as int, start + i)),
        decreases len - i,
    {
        proof {
            let so_far = bytes@.subrange(start as int, start + i);
            let next = bytes@.subrange(start as int, start + i + 1);
            assert(next.drop_last() =~= so_far);
            lemma_be_value_bound(next);
            lemma_be_limit_monotone(next.len(), 8);
            lemma_be_limits();
        }
        value = value * 256 + bytes[start + i] as u64;
        i = i + 1;
    }
    proof {
        lemma_be_value_bound(bytes@.subrange(start as int, start + len));
        lemma_be_limits();
    }
    value
}

proof fn lemma_be_limit_monotone(a: nat, b: nat)
    requires
        a <= b,
    ensures
        be_limit(a) <= be_limit(b),
    decreases b,
{
    if a < b {
        lemma_be_limit_monotone(a, (b - 1) as nat);
    }
}

/// Appends every byte of `more` to `out`.
pub fn push_all(out: &mut Vec<u8>, more: &[u8])
    ensures
        final(out)@ == old(out)@ + more@,
{
    out.extend_from_slice(more);
    assert(out@ =~= old(out)@ + more@);
}

/// Whether two byte strings are equal.
pub fn bytes_equal(a: &[u8], b: &[u8]) -> (equal: bool)
    ensures
        equal == (a@ == b@),
{
    if a.len() != b.len() {
        return false;
    }
    let mut i: usize = 0;
    while i < a.len()
        invariant
            i <= a@.len(),
            a@.len() == b@.len(),
            forall|j: int| 0 <= j < i ==> a@[j] == b@[j],
        decreases a@.len() - i,
    {
        if a[i] != b[i] {
            return false;
        }
        i = i + 1;
    }
    assert(a@ =~= b@);
    true
}

/// The bytes of `bytes[start .. end]`.
pub fn copy_range(bytes: &[u8], start: usize, end: usize) -> (out: Vec<u8>)
    requires
        start <= end <= bytes@.len(),
    ensures
        out@ == bytes@.subrange(start as int, end as int),
{
    vstd::slice::slice_to_vec(vstd::slice::slice_subrange(bytes, start, end))
}

/// A number on the wire stands with its most significant byte first: each byte is the
/// number, divided by what the bytes behind it can count, without what the bytes before
/// it say.
pub proof fn law_most_significant_byte_first(n: nat, len: nat, i: int)
    requires
        0 <= i < len,
    ensures
        be_bytes(n, len).len() == len,
        be_bytes(n, len)[i] as int == (n / be_limit((len - 1 - i) as nat)) % 256,
    decreases len,
{
    lemma_be_bytes_len(n, len);
    lemma_be_bytes_len(n / 256, (len - 1) as nat);
    if i < len - 1 {
        law_most_significant_byte_first(n / 256, (len - 1) as nat, i);
        let below = be_limit((len - 2 - i) as nat);
        lemma_be_limit_positive((len - 2 - i) as nat);
        vstd::arithmetic::div_mod::lemma_div_denominator(n as int, 256, below as int);
        assert(be_limit((len - 1 - i) as nat) == below * 256);
        assert(256 * below == below * 256) by (nonlinear_arith);
        assert((n / 256) / below == n / (below * 256));
        assert(be_bytes(n, len)[i] == be_bytes(n / 256, (len - 1) as nat)[i]);
    } else {
        assert(be_limit(0) == 1);
        vstd::arithmetic::div_mod::lemma_div_basics(n as int);
        assert(n / 1 == n);
        assert((len - 1 - i) as nat == 0);
        assert(be_bytes(n, len).last() == (n % 256) as u8);
    }
}

proof fn lemma_be_limit_positive(len: nat)
    ensures
        be_limit(len) > 0,
    decreases len,
{
    if len > 0 {
        lemma_be_limit_positive((len - 1) as nat);
    }
}

} // verus!

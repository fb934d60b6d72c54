//! Little-endian two's complement encoding of a displacement.

use vstd::prelude::*;

verus! {

/// The `n` low bytes of the two's complement form of `d`, least significant first.
pub open spec fn le_bytes(d: int, n: nat) -> Seq<u8>
    decreases n,
{
    if n == 0 {
        Seq::empty()
    } else {
        seq![(d % 256) as u8] + le_bytes(d / 256, (n - 1) as nat)
    }
}

/// The integer that `bytes` holds as a little-endian two's complement number.
pub open spec fn le_signed(bytes: Seq<u8>) -> int
    decreases bytes.len(),
{
    if bytes.len() == 0 {
        0
    } else if bytes.len() == 1 {
        if bytes[0] >= 128 {
            bytes[0] - 256
        } else {
            bytes[0] as int
        }
    } else {
        bytes[0] + 256 * le_signed(bytes.drop_first())
    }
}

/// One more than the largest integer that `n` bytes hold in two's complement form.
pub open spec fn signed_limit(n: nat) -> int
    decreases n,
{
    if n <= 1 {
        128
    } else {
        256 * signed_limit((n - 1) as nat)
    }
}

pub proof fn lemma_le_bytes_len(d: int, n: nat)
    ensures
        le_bytes(d, n).len() == n,
    decreases n,
{
    if n > 0 {
        lemma_le_bytes_len(d / 256, (n - 1) as nat);
    }
}

/// Encoding a displacement that fits and decoding it again gives the displacement.
pub proof fn lemma_le_round_trip(d: int, n: nat)
    requires
        n >= 1,
        -signed_limit(n) <= d < signed_limit(n),
    ensures
        le_signed(le_bytes(d, n)) == d,
    decreases n,
{
    let bytes = le_bytes(d, n);
    lemma_le_bytes_len(d, n);
    lemma_le_bytes_len(d / 256, (n - 1) as nat);
    if n == 1 {
        assert(le_bytes(d / 256, 0) =~= Seq::<u8>::empty());
        assert(bytes =~= seq![(d % 256) as u8]);
    } else {
        let rest = le_bytes(d / 256, (n - 1) as nat);
        assert(bytes.drop_first() =~= rest);
        lemma_le_round_trip(d / 256, (n - 1) as nat);
    }
}

/// The `n` low bytes of `d` in two's complement form, least significant first.
pub fn displacement_bytes(d: i128, n: usize) -> (field: Vec<u8>)
    ensures
        field@ == le_bytes(d as int, n as nat),
{
    let mut field: Vec<u8> = Vec::new();
    let mut rest: i128 = d;
    let mut i: usize = 0;
    while i < n
        invariant
            i <= n,
            field@.len() == i,
            le_bytes(d as int, n as nat) == field@ + le_bytes(rest as int, (n - i) as nat),
        decreases n - i,
    {
        let low = rest.checked_rem_euclid(256).unwrap();
        let high = rest.checked_div_euclid(256).unwrap();
        let ghost before = field@;
        field.push(low as u8);
        assert(le_bytes(rest as int, (n - i) as nat) == seq![low as u8] + le_bytes(
            high as int,
            (n - i - 1) as nat,
        ));
        assert(before + (seq![low as u8] + le_bytes(high as int, (n - i - 1) as nat)) =~= field@
            + le_bytes(high as int, (n - i - 1) as nat));
        rest = high;
        i += 1;
    }
    assert(field@ + Seq::<u8>::empty() =~= field@);
    field
}

/// A copy of `bytes`.
pub fn copy_bytes(bytes: &Vec<u8>) -> (copy: Vec<u8>)
    ensures
        copy@ == bytes@,
{
    let n = bytes.len();
    let mut copy: Vec<u8> = Vec::new();
    let mut i: usize = 0;
    while i < n
        invariant
            i <= n == bytes.len(),
            copy@ == bytes@.take(i as int),
        decreases n - i,
    {
        copy.push(bytes[i]);
        i += 1;
    }
    assert(bytes@.take(n as int) =~= bytes@);
    copy
}

} // verus!

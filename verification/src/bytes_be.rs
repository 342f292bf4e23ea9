//! Big-endian bytes of a number.
use vstd::prelude::*;

verus! {

/// The number that `bytes` spell, most significant byte first.
pub open spec fn be_value(bytes: Seq<u8>) -> nat
    decreases bytes.len(),
{
    if bytes.len() == 0 {
        0
    } else {
        be_value(bytes.drop_last()) * 256 + bytes.last() as nat
    }
}

/// The last `len` base-256 digits of `n`, most significant first.
pub open spec fn be_bytes(n: nat, len: nat) -> Seq<u8>
    decreases len,
{
    if len == 0 {
        Seq::empty()
    } else {
        be_bytes(n / 256, (len - 1) as nat).push((n % 256) as u8)
    }
}

/// The number of values that `len` bytes can spell.
pub open spec fn byte_values(len: nat) -> nat
    decreases len,
{
    if len == 0 {
        1
    } else {
        256 * byte_values((len - 1) as nat)
    }
}

/// `be_bytes` gives as many bytes as it is asked for.
pub proof fn lemma_be_bytes_len(n: nat, len: nat)
    ensures
        be_bytes(n, len).len() == len,
    decreases len,
{
    if len > 0 {
        lemma_be_bytes_len(n / 256, (len - 1) as nat);
    }
}

/// Spelling a number and reading it back gives the number, as long as it fits.
pub proof fn lemma_value_of_bytes(n: nat, len: nat)
    requires
        n < byte_values(len),
    ensures
        be_value(be_bytes(n, len)) == n,
    decreases len,
{
    if len > 0 {
        let shorter = be_bytes(n / 256, (len - 1) as nat);
        lemma_value_of_bytes(n / 256, (len - 1) as nat);
        assert(be_bytes(n, len).drop_last() =~= shorter);
    }
}

/// Reading bytes and spelling the number again gives the bytes.
pub proof fn lemma_bytes_of_value(bytes: Seq<u8>)
    ensures
        be_bytes(be_value(bytes), bytes.len()) == bytes,
        be_value(bytes) < byte_values(bytes.len()),
    decreases bytes.len(),
{
    if bytes.len() > 0 {
        let high = be_value(bytes.drop_last());
        let low = bytes.last();
        lemma_bytes_of_value(bytes.drop_last());
        assert((high * 256 + low as nat) / 256 == high);
        assert((high * 256 + low as nat) % 256 == low as nat);
        assert(bytes.drop_last().push(low) =~= bytes);
    } else {
        assert(be_bytes(be_value(bytes), 0) =~= bytes);
    }
}

/// Eight bytes spell exactly the numbers of a `u64`.
pub proof fn lemma_eight_bytes()
    ensures
        byte_values(8) == 0x1_0000_0000_0000_0000,
{
    reveal_with_fuel(byte_values, 9);
}

/// The eight bytes of `n`, most significant first.
pub fn u64_to_be(n: u64) -> (bytes: [u8; 8])
    ensures
        bytes@ == be_bytes(n as nat, 8),
{
    let n1: u64 = n / 256;
    let n2: u64 = n1 / 256;
    let n3: u64 = n2 / 256;
    let n4: u64 = n3 / 256;
    let n5: u64 = n4 / 256;
    let n6: u64 = n5 / 256;
    let n7: u64 = n6 / 256;
    let bytes = [
        (n7 % 256) as u8,
        (n6 % 256) as u8,
        (n5 % 256) as u8,
        (n4 % 256) as u8,
        (n3 % 256) as u8,
        (n2 % 256) as u8,
        (n1 % 256) as u8,
        (n % 256) as u8,
    ];
    proof {
        reveal_with_fuel(be_bytes, 9);
        assert(bytes@ =~= be_bytes(n as nat, 8));
    }
    bytes
}

/// The number that eight bytes spell, most significant first.
pub fn u64_from_be(bytes: [u8; 8]) -> (n: u64)
    ensures
        n as nat == be_value(bytes@),
{
    let mut n: u64 = 0;
    let mut i: usize = 0;
    assert(bytes@.take(0) =~= Seq::<u8>::empty());
    while i < 8
        invariant
            i <= 8,
            bytes@.len() == 8,
            n as nat == be_value(bytes@.take(i as int)),
        decreases 8 - i,
    {
        proof {
            let next = bytes@.take(i + 1);
            assert(next.drop_last() =~= bytes@.take(i as int));
            lemma_bytes_of_value(next);
            lemma_byte_values_grow((i + 1) as nat, 8);
            lemma_eight_bytes();
        }
        n = n * 256 + bytes[i] as u64;
        i = i + 1;
    }
    assert(bytes@.take(8) =~= bytes@);
    n
}

/// More bytes spell at least as many values.
proof fn lemma_byte_values_grow(short: nat, long: nat)
    requires
        short <= long,
    ensures
        byte_values(short) <= byte_values(long),
    decreases long,
{
    if short < long {
        lemma_byte_values_grow(short, (long - 1) as nat);
    }
}

/// Eight bytes spell the sum of the bytes, each weighted by its place, the first one most.
pub proof fn law_big_endian_value(bytes: Seq<u8>)
    requires
        bytes.len() == 8,
    ensures
        be_value(bytes) == bytes[0] * 0x100_0000_0000_0000
            + bytes[1] * 0x1_0000_0000_0000
            + bytes[2] * 0x100_0000_0000
            + bytes[3] * 0x1_0000_0000
            + bytes[4] * 0x100_0000
            + bytes[5] * 0x1_0000
            + bytes[6] * 0x100
            + bytes[7],
{
    let p7 = bytes.drop_last();
    let p6 = p7.drop_last();
    let p5 = p6.drop_last();
    let p4 = p5.drop_last();
    let p3 = p4.drop_last();
    let p2 = p3.drop_last();
    let p1 = p2.drop_last();
    assert(be_value(p1.drop_last()) == 0);
    assert(be_value(p1) == bytes[0]);
    assert(be_value(p2) == be_value(p1) * 256 + bytes[1]);
    assert(be_value(p3) == be_value(p2) * 256 + bytes[2]);
    assert(be_value(p4) == be_value(p3) * 256 + bytes[3]);
    assert(be_value(p5) == be_value(p4) * 256 + bytes[4]);
    assert(be_value(p6) == be_value(p5) * 256 + bytes[5]);
    assert(be_value(p7) == be_value(p6) * 256 + bytes[6]);
    assert(be_value(bytes) == be_value(p7) * 256 + bytes[7]);
}

/// The eight bytes of a number add up to it, each weighted by its place, the first one most.
pub proof fn law_big_endian_bytes(n: u64)
    ensures
        ({
            let bytes = be_bytes(n as nat, 8);
            &&& bytes.len() == 8
            &&& n == bytes[0] * 0x100_0000_0000_0000
                + bytes[1] * 0x1_0000_0000_0000
                + bytes[2] * 0x100_0000_0000
                + bytes[3] * 0x1_0000_0000
                + bytes[4] * 0x100_0000
                + bytes[5] * 0x1_0000
                + bytes[6] * 0x100
                + bytes[7]
        }),
{
    lemma_be_bytes_len(n as nat, 8);
    lemma_eight_bytes();
    lemma_value_of_bytes(n as nat, 8);
    law_big_endian_value(be_bytes(n as nat, 8));
}

} // verus!

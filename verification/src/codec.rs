//! Fixed-width little-endian encoding of the integers and addresses that the
//! stored records and the instructions are made of.
use vstd::prelude::*;

verus! {

/// An address on the ledger: of an account, a program, or a token type.
pub type Address = [u8; 32];

/// The eight bytes of `x`, least significant first.
pub open spec fn u64_le(x: u64) -> Seq<u8> {
    let x1 = x / 256;
    let x2 = x1 / 256;
    let x3 = x2 / 256;
    let x4 = x3 / 256;
    let x5 = x4 / 256;
    let x6 = x5 / 256;
    let x7 = x6 / 256;
    seq![
        (x % 256) as u8,
        (x1 % 256) as u8,
        (x2 % 256) as u8,
        (x3 % 256) as u8,
        (x4 % 256) as u8,
        (x5 % 256) as u8,
        (x6 % 256) as u8,
        (x7 % 256) as u8,
    ]
}

/// The number whose eight bytes, least significant first, are `bytes[0..8]`.
pub open spec fn le_u64(bytes: Seq<u8>) -> u64
    recommends
        bytes.len() >= 8,
{
    (bytes[0] + 256 * (bytes[1] + 256 * (bytes[2] + 256 * (bytes[3] + 256 * (bytes[4] + 256 * (
    bytes[5] + 256 * (bytes[6] + 256 * bytes[7]))))))) as u64
}

/// The unsigned number that has the bit pattern of `x` in two's complement.
pub open spec fn i64_bits(x: i64) -> u64 {
    if x >= 0 {
        x as u64
    } else {
        (x + 0x1_0000_0000_0000_0000) as u64
    }
}

/// The signed number whose two's complement bit pattern is `x`.
pub open spec fn bits_i64(x: u64) -> i64 {
    if x <= i64::MAX {
        x as i64
    } else {
        (x - 0x1_0000_0000_0000_0000) as i64
    }
}

/// The eight bytes of `x` in two's complement, least significant first.
pub open spec fn i64_le(x: i64) -> Seq<u8> {
    u64_le(i64_bits(x))
}

/// The signed number whose eight bytes in two's complement are `bytes[0..8]`.
pub open spec fn le_i64(bytes: Seq<u8>) -> i64
    recommends
        bytes.len() >= 8,
{
    bits_i64(le_u64(bytes))
}

/// The address made of the 32 bytes of `bytes` from position `at` on.
pub open spec fn address_at(bytes: Seq<u8>, at: int) -> Address
    recommends
        0 <= at,
        at + 32 <= bytes.len(),
{
    [
        bytes[at + 0],
        bytes[at + 1],
        bytes[at + 2],
        bytes[at + 3],
        bytes[at + 4],
        bytes[at + 5],
        bytes[at + 6],
        bytes[at + 7],
        bytes[at + 8],
        bytes[at + 9],
        bytes[at + 10],
        bytes[at + 11],
        bytes[at + 12],
        bytes[at + 13],
        bytes[at + 14],
        bytes[at + 15],
        bytes[at + 16],
        bytes[at + 17],
        bytes[at + 18],
        bytes[at + 19],
        bytes[at + 20],
        bytes[at + 21],
        bytes[at + 22],
        bytes[at + 23],
        bytes[at + 24],
        bytes[at + 25],
        bytes[at + 26],
        bytes[at + 27],
        bytes[at + 28],
        bytes[at + 29],
        bytes[at + 30],
        bytes[at + 31],
    ]
}

/// Reading back the eight bytes of a number gives the number.
pub proof fn lemma_u64_round_trip(x: u64)
    ensures
        u64_le(x).len() == 8,
        le_u64(u64_le(x)) == x,
{
}

/// Eight bytes are the encoding of the number read from them, and of no
/// other.
pub proof fn lemma_u64_bytes_round_trip(bytes: Seq<u8>)
    requires
        bytes.len() == 8,
    ensures
        u64_le(le_u64(bytes)) == bytes,
{
    let t6 = bytes[6] + 256 * bytes[7];
    let t5 = bytes[5] + 256 * t6;
    let t4 = bytes[4] + 256 * t5;
    let t3 = bytes[3] + 256 * t4;
    let t2 = bytes[2] + 256 * t3;
    let t1 = bytes[1] + 256 * t2;
    let t0 = bytes[0] + 256 * t1;
    assert(t0 / 256 == t1 && t0 % 256 == bytes[0]);
    assert(t1 / 256 == t2 && t1 % 256 == bytes[1]);
    assert(t2 / 256 == t3 && t2 % 256 == bytes[2]);
    assert(t3 / 256 == t4 && t3 % 256 == bytes[3]);
    assert(t4 / 256 == t5 && t4 % 256 == bytes[4]);
    assert(t5 / 256 == t6 && t5 % 256 == bytes[5]);
    assert(t6 / 256 == bytes[7] && t6 % 256 == bytes[6]);
    assert(u64_le(t0 as u64) =~= bytes);
}

/// Reading back the eight bytes of a signed number gives the number.
pub proof fn lemma_i64_round_trip(x: i64)
    ensures
        i64_le(x).len() == 8,
        le_i64(i64_le(x)) == x,
{
    lemma_u64_round_trip(i64_bits(x));
}

/// Eight bytes are the encoding of the signed number read from them.
pub proof fn lemma_i64_bytes_round_trip(bytes: Seq<u8>)
    requires
        bytes.len() == 8,
    ensures
        i64_le(le_i64(bytes)) == bytes,
{
    lemma_u64_bytes_round_trip(bytes);
}

/// The bytes of the address read at `at` are the bytes that stand there.
pub proof fn lemma_address_at(bytes: Seq<u8>, at: int)
    requires
        0 <= at,
        at + 32 <= bytes.len(),
    ensures
        address_at(bytes, at)@ == bytes.subrange(at, at + 32),
{
}

/// An address is read back from its own bytes, wherever they stand.
pub proof fn lemma_address_round_trip(before: Seq<u8>, address: Address, after: Seq<u8>)
    ensures
        address_at(before + address@ + after, before.len() as int) == address,
{
    lemma_address_at(before + address@ + after, before.len() as int);
}

/// Whether two addresses are the same.
pub fn same_address(a: &Address, b: &Address) -> (same: bool)
    ensures
        same == (*a == *b),
        same == (a@ == b@),
{
    let mut i: usize = 0;
    while i < 32
        invariant
            i <= 32,
            forall|j: int| 0 <= j < i ==> a@[j] == b@[j],
        decreases 32 - i,
    {
        if a[i] != b[i] {
            return false;
        }
        i += 1;
    }
    assert(*a =~= *b);
    true
}

/// Appends the bytes of `address` to `out`.
pub fn write_address(out: &mut Vec<u8>, address: &Address)
    ensures
        final(out)@ == old(out)@ + address@,
{
    let mut i: usize = 0;
    while i < 32
        invariant
            i <= 32,
            out@ == old(out)@ + address@.subrange(0, i as int),
        decreases 32 - i,
    {
        out.push(address[i]);
        i += 1;
    }
}

/// Appends the eight bytes of `x` to `out`, least significant first.
pub fn write_u64(out: &mut Vec<u8>, x: u64)
    ensures
        final(out)@ == old(out)@ + u64_le(x),
{
    let x1: u64 = x / 256;
    let x2: u64 = x1 / 256;
    let x3: u64 = x2 / 256;
    let x4: u64 = x3 / 256;
    let x5: u64 = x4 / 256;
    let x6: u64 = x5 / 256;
    let x7: u64 = x6 / 256;
    out.push((x % 256) as u8);
    out.push((x1 % 256) as u8);
    out.push((x2 % 256) as u8);
    out.push((x3 % 256) as u8);
    out.push((x4 % 256) as u8);
    out.push((x5 % 256) as u8);
    out.push((x6 % 256) as u8);
    out.push((x7 % 256) as u8);
}

/// Appends the eight bytes of `x` in two's complement to `out`.
pub fn write_i64(out: &mut Vec<u8>, x: i64)
    ensures
        final(out)@ == old(out)@ + i64_le(x),
{
    let bits: u64 = if x >= 0 {
        x as u64
    } else {
        u64::MAX - ((-(x + 1)) as u64)
    };
    write_u64(out, bits);
}

/// Reads the number whose eight bytes stand at `at`.
pub fn read_u64(bytes: &[u8], at: usize) -> (x: u64)
    requires
        at + 8 <= bytes@.len(),
    ensures
        x == le_u64(bytes@.subrange(at as int, at + 8)),
{
    let len: usize = bytes.len();
    let v7: u64 = bytes[at + 7] as u64;
    let v6: u64 = v7 * 256 + bytes[at + 6] as u64;
    let v5: u64 = v6 * 256 + bytes[at + 5] as u64;
    let v4: u64 = v5 * 256 + bytes[at + 4] as u64;
    let v3: u64 = v4 * 256 + bytes[at + 3] as u64;
    let v2: u64 = v3 * 256 + bytes[at + 2] as u64;
    let v1: u64 = v2 * 256 + bytes[at + 1] as u64;
    v1 * 256 + bytes[at] as u64
}

/// Reads the signed number whose eight bytes stand at `at`.
pub fn read_i64(bytes: &[u8], at: usize) -> (x: i64)
    requires
        at + 8 <= bytes@.len(),
    ensures
        x == le_i64(bytes@.subrange(at as int, at + 8)),
{
    let bits: u64 = read_u64(bytes, at);
    if bits <= 0x7fff_ffff_ffff_ffff {
        bits as i64
    } else {
        -((u64::MAX - bits) as i64) - 1
    }
}

/// Reads the address whose 32 bytes stand at `at`.
pub fn read_address(bytes: &[u8], at: usize) -> (address: Address)
    requires
        at + 32 <= bytes@.len(),
    ensures
        address == address_at(bytes@, at as int),
        address@ == bytes@.subrange(at as int, at + 32),
{
    let len: usize = bytes.len();
    let mut address: Address = [0u8; 32];
    let mut i: usize = 0;
    while i < 32
        invariant
            i <= 32,
            at + 32 <= bytes@.len(),
            bytes@.len() == len,
            forall|j: int| 0 <= j < i ==> address@[j] == bytes@[at + j],
        decreases 32 - i,
    {
        address[i] = bytes[at + i];
        i += 1;
    }
    proof {
        lemma_address_at(bytes@, at as int);
    }
    address
}

} // verus!

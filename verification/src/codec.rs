//! Byte-level serialization of the registry entry, as the host persists it
//! after its own 8-byte account discriminator: a little-endian 4-byte name
//! length, the name bytes, the little-endian 8-byte timestamp, the bump
//! seed, and the 32 provider address bytes.

use vstd::prelude::*;
use crate::address::Address;
use crate::address::ADDRESS_LEN;
use crate::pool::BasicLiquidityPool;
use crate::POOL_MAX_NAME_LENGTH;

verus! {

/// The little-endian bytes of a 32-bit length.
pub open spec fn u32_le_bytes(x: u32) -> Seq<u8> {
    seq![x as u8, (x >> 8) as u8, (x >> 16) as u8, (x >> 24) as u8]
}

/// The little-endian bytes of a 64-bit value.
pub open spec fn u64_le_bytes(x: u64) -> Seq<u8> {
    seq![
        x as u8,
        (x >> 8) as u8,
        (x >> 16) as u8,
        (x >> 24) as u8,
        (x >> 32) as u8,
        (x >> 40) as u8,
        (x >> 48) as u8,
        (x >> 56) as u8,
    ]
}

/// The 32-bit value whose little-endian bytes are `b0..b3`.
pub open spec fn le_bytes_to_u32(b0: u8, b1: u8, b2: u8, b3: u8) -> u32 {
    (b0 as u32) | ((b1 as u32) << 8) | ((b2 as u32) << 16) | ((b3 as u32) << 24)
}

/// The 64-bit value whose little-endian bytes are `b0..b7`.
pub open spec fn le_bytes_to_u64(
    b0: u8,
    b1: u8,
    b2: u8,
    b3: u8,
    b4: u8,
    b5: u8,
    b6: u8,
    b7: u8,
) -> u64 {
    (b0 as u64) | ((b1 as u64) << 8) | ((b2 as u64) << 16) | ((b3 as u64) << 24) | ((b4
        as u64) << 32) | ((b5 as u64) << 40) | ((b6 as u64) << 48) | ((b7 as u64) << 56)
}

/// The serialized form of a registry entry.
pub open spec fn spec_serialize_entry(e: BasicLiquidityPool) -> Seq<u8> {
    u32_le_bytes(e.name@.len() as u32) + e.name@ + u64_le_bytes(e.created_at as u64) + seq![
        e.signer_bump,
    ] + e.pool_provider@
}

/// The byte strings that deserialize to an entry: a name length within its
/// bound, and exactly the bytes the fixed layout asks for.
pub open spec fn valid_entry_bytes(b: Seq<u8>) -> bool {
    &&& b.len() >= 45
    &&& le_bytes_to_u32(b[0], b[1], b[2], b[3]) <= POOL_MAX_NAME_LENGTH
    &&& b.len() == le_bytes_to_u32(b[0], b[1], b[2], b[3]) + 45
}

proof fn lemma_u64_i64_round_trip(x: u64)
    ensures
        (x as i64) as u64 == x,
{
    assert((x as i64) as u64 == x) by (bit_vector);
}

proof fn lemma_i64_as_u64_injective(x: i64, y: i64)
    requires
        x as u64 == y as u64,
    ensures
        x == y,
{
    assert(x == y) by (bit_vector)
        requires
            x as u64 == y as u64,
    ;
}

proof fn lemma_u32_le_bytes_invert(v: u32, b0: u8, b1: u8, b2: u8, b3: u8)
    requires
        v == le_bytes_to_u32(b0, b1, b2, b3),
    ensures
        v as u8 == b0,
        (v >> 8) as u8 == b1,
        (v >> 16) as u8 == b2,
        (v >> 24) as u8 == b3,
{
    assert(v as u8 == b0 && (v >> 8) as u8 == b1 && (v >> 16) as u8 == b2 && (v >> 24) as u8
        == b3) by (bit_vector)
        requires
            v == (b0 as u32) | ((b1 as u32) << 8) | ((b2 as u32) << 16) | ((b3 as u32) << 24),
    ;
}

proof fn lemma_u64_le_bytes_invert(v: u64, b0: u8, b1: u8, b2: u8, b3: u8, b4: u8, b5: u8, b6: u8, b7: u8)
    requires
        v == le_bytes_to_u64(b0, b1, b2, b3, b4, b5, b6, b7),
    ensures
        v as u8 == b0,
        (v >> 8) as u8 == b1,
        (v >> 16) as u8 == b2,
        (v >> 24) as u8 == b3,
        (v >> 32) as u8 == b4,
        (v >> 40) as u8 == b5,
        (v >> 48) as u8 == b6,
        (v >> 56) as u8 == b7,
{
    assert(v as u8 == b0 && (v >> 8) as u8 == b1 && (v >> 16) as u8 == b2 && (v >> 24) as u8 == b3
        && (v >> 32) as u8 == b4 && (v >> 40) as u8 == b5 && (v >> 48) as u8 == b6 && (v >> 56)
        as u8 == b7) by (bit_vector)
        requires
            v == (b0 as u64) | ((b1 as u64) << 8) | ((b2 as u64) << 16) | ((b3 as u64) << 24) | ((
            b4 as u64) << 32) | ((b5 as u64) << 40) | ((b6 as u64) << 48) | ((b7 as u64) << 56),
    ;
}

proof fn lemma_u32_le_round_trip(x: u32)
    ensures
        le_bytes_to_u32(x as u8, (x >> 8) as u8, (x >> 16) as u8, (x >> 24) as u8) == x,
{
    assert(((x as u8) as u32) | ((((x >> 8) as u8) as u32) << 8) | ((((x >> 16) as u8) as u32)
        << 16) | ((((x >> 24) as u8) as u32) << 24) == x) by (bit_vector);
}

proof fn lemma_u64_le_round_trip(x: u64)
    ensures
        le_bytes_to_u64(
            x as u8,
            (x >> 8) as u8,
            (x >> 16) as u8,
            (x >> 24) as u8,
            (x >> 32) as u8,
            (x >> 40) as u8,
            (x >> 48) as u8,
            (x >> 56) as u8,
        ) == x,
{
    assert(((x as u8) as u64) | ((((x >> 8) as u8) as u64) << 8) | ((((x >> 16) as u8) as u64)
        << 16) | ((((x >> 24) as u8) as u64) << 24) | ((((x >> 32) as u8) as u64) << 32) | ((((x
        >> 40) as u8) as u64) << 40) | ((((x >> 48) as u8) as u64) << 48) | ((((x >> 56) as u8)
        as u64) << 56) == x) by (bit_vector);
}

/// Serializes a registry entry into the fixed byte layout.
pub fn serialize_entry(e: &BasicLiquidityPool) -> (r: Vec<u8>)
    requires
        e.wf(),
    ensures
        r@ == spec_serialize_entry(*e),
{
    let mut out: Vec<u8> = Vec::new();
    let len32: u32 = e.name.len() as u32;
    out.push(len32 as u8);
    out.push((len32 >> 8) as u8);
    out.push((len32 >> 16) as u8);
    out.push((len32 >> 24) as u8);
    proof {
        assert(out@ =~= u32_le_bytes(e.name@.len() as u32));
    }
    let mut i: usize = 0;
    while i < e.name.len()
        invariant
            i <= e.name@.len(),
            out@ == u32_le_bytes(e.name@.len() as u32) + e.name@.subrange(0, i as int),
        decreases e.name@.len() - i,
    {
        out.push(e.name[i]);
        i += 1;
        proof {
            assert(out@ =~= u32_le_bytes(e.name@.len() as u32) + e.name@.subrange(0, i as int));
        }
    }
    proof {
        assert(e.name@.subrange(0, e.name@.len() as int) =~= e.name@);
    }
    let created: u64 = #[verifier::truncate] (e.created_at as u64);
    out.push(#[verifier::truncate] (created as u8));
    out.push(#[verifier::truncate] ((created >> 8) as u8));
    out.push(#[verifier::truncate] ((created >> 16) as u8));
    out.push(#[verifier::truncate] ((created >> 24) as u8));
    out.push(#[verifier::truncate] ((created >> 32) as u8));
    out.push(#[verifier::truncate] ((created >> 40) as u8));
    out.push(#[verifier::truncate] ((created >> 48) as u8));
    out.push(#[verifier::truncate] ((created >> 56) as u8));
    out.push(e.signer_bump);
    let mut j: usize = 0;
    while j < e.pool_provider.bytes.len()
        invariant
            j <= e.pool_provider.bytes@.len(),
            out@ == u32_le_bytes(e.name@.len() as u32) + e.name@ + u64_le_bytes(
                e.created_at as u64,
            ) + seq![e.signer_bump] + e.pool_provider.bytes@.subrange(0, j as int),
        decreases e.pool_provider.bytes@.len() - j,
    {
        out.push(e.pool_provider.bytes[j]);
        j += 1;
        proof {
            assert(out@ =~= u32_le_bytes(e.name@.len() as u32) + e.name@ + u64_le_bytes(
                e.created_at as u64,
            ) + seq![e.signer_bump] + e.pool_provider.bytes@.subrange(0, j as int));
        }
    }
    proof {
        assert(e.pool_provider.bytes@.subrange(0, e.pool_provider.bytes@.len() as int)
            =~= e.pool_provider@);
        assert(out@ =~= spec_serialize_entry(*e));
    }
    out
}

/// Parses the fixed byte layout back into a registry entry. Returns `Some`
/// exactly on `valid_entry_bytes`, and the entry returned is well formed
/// and serializes back to the input, byte for byte.
pub fn deserialize_entry(bytes: &Vec<u8>) -> (r: Option<BasicLiquidityPool>)
    ensures
        r is Some <==> valid_entry_bytes(bytes@),
        (r matches Some(e) ==> e.wf() && spec_serialize_entry(e) == bytes@),
{
    if bytes.len() < 45 {
        return None;
    }
    let len32: u32 = (bytes[0] as u32) | ((bytes[1] as u32) << 8) | ((bytes[2] as u32) << 16) | ((
    bytes[3] as u32) << 24);
    if len32 > POOL_MAX_NAME_LENGTH as u32 {
        return None;
    }
    let name_len: usize = len32 as usize;
    if bytes.len() != name_len + 45 {
        return None;
    }
    let mut name: Vec<u8> = Vec::new();
    let mut i: usize = 0;
    while i < name_len
        invariant
            i <= name_len,
            name_len <= 32,
            name_len + 45 == bytes@.len(),
            name@ == bytes@.subrange(4, 4 + i as int),
        decreases name_len - i,
    {
        name.push(bytes[4 + i]);
        i += 1;
        proof {
            assert(name@ =~= bytes@.subrange(4, 4 + i as int));
        }
    }
    let t: usize = 4 + name_len;
    let created: u64 = (bytes[t] as u64) | ((bytes[t + 1] as u64) << 8) | ((bytes[t + 2] as u64)
        << 16) | ((bytes[t + 3] as u64) << 24) | ((bytes[t + 4] as u64) << 32) | ((bytes[t + 5]
        as u64) << 40) | ((bytes[t + 6] as u64) << 48) | ((bytes[t + 7] as u64) << 56);
    let created_at: i64 = #[verifier::truncate] (created as i64);
    let signer_bump: u8 = bytes[t + 8];
    let mut provider: Vec<u8> = Vec::new();
    let mut j: usize = 0;
    while j < ADDRESS_LEN
        invariant
            j <= ADDRESS_LEN,
            t == 4 + name_len,
            name_len <= 32,
            name_len + 45 == bytes@.len(),
            provider@ == bytes@.subrange(t + 9, t + 9 + j as int),
        decreases ADDRESS_LEN - j,
    {
        provider.push(bytes[t + 9 + j]);
        j += 1;
        proof {
            assert(provider@ =~= bytes@.subrange(t as int + 9, t + 9 + j as int));
        }
    }
    let e = BasicLiquidityPool {
        name,
        created_at,
        signer_bump,
        pool_provider: Address { bytes: provider },
    };
    proof {
        lemma_u32_le_bytes_invert(len32, bytes@[0], bytes@[1], bytes@[2], bytes@[3]);
        lemma_u64_le_bytes_invert(
            created,
            bytes@[t as int],
            bytes@[t + 1],
            bytes@[t + 2],
            bytes@[t + 3],
            bytes@[t + 4],
            bytes@[t + 5],
            bytes@[t + 6],
            bytes@[t + 7],
        );
        lemma_u64_i64_round_trip(created);
        assert(u32_le_bytes(e.name@.len() as u32) =~= bytes@.subrange(0, 4));
        assert(u64_le_bytes(e.created_at as u64) =~= bytes@.subrange(t as int, t + 8));
        assert(spec_serialize_entry(e) =~= bytes@);
    }
    Some(e)
}

/// Law: serialization round-trips. A well-formed entry's serialized form is
/// accepted by the parser's validity predicate, so `deserialize_entry`
/// returns `Some` on it; and serialization is injective, so what it returns
/// carries the same field values (`lemma_serialize_injective`).
pub proof fn lemma_serialized_entry_valid(e: BasicLiquidityPool)
    requires
        e.wf(),
    ensures
        valid_entry_bytes(spec_serialize_entry(e)),
{
    let b = spec_serialize_entry(e);
    let len32 = e.name@.len() as u32;
    lemma_u32_le_round_trip(len32);
    assert(b[0] == len32 as u8 && b[1] == (len32 >> 8) as u8 && b[2] == (len32 >> 16) as u8 && b[3]
        == (len32 >> 24) as u8);
    assert(le_bytes_to_u32(b[0], b[1], b[2], b[3]) == len32);
}

/// Law: serialization is injective on well-formed entries. Two entries with
/// the same serialized form agree on every field.
pub proof fn lemma_serialize_injective(e1: BasicLiquidityPool, e2: BasicLiquidityPool)
    requires
        e1.wf(),
        e2.wf(),
        spec_serialize_entry(e1) == spec_serialize_entry(e2),
    ensures
        e1.name@ == e2.name@,
        e1.created_at == e2.created_at,
        e1.signer_bump == e2.signer_bump,
        e1.pool_provider@ == e2.pool_provider@,
{
    let b1 = spec_serialize_entry(e1);
    let b2 = spec_serialize_entry(e2);
    let l1 = e1.name@.len() as u32;
    let l2 = e2.name@.len() as u32;
    lemma_u32_le_round_trip(l1);
    lemma_u32_le_round_trip(l2);
    assert(le_bytes_to_u32(b1[0], b1[1], b1[2], b1[3]) == l1);
    assert(le_bytes_to_u32(b2[0], b2[1], b2[2], b2[3]) == l2);
    assert(l1 == l2);
    let n = e1.name@.len() as int;
    assert(e1.name@ =~= b1.subrange(4, 4 + n));
    assert(e2.name@ =~= b2.subrange(4, 4 + n));
    let c1 = e1.created_at as u64;
    let c2 = e2.created_at as u64;
    lemma_u64_le_round_trip(c1);
    lemma_u64_le_round_trip(c2);
    assert(b1[4 + n] == c1 as u8 && b1[5 + n] == (c1 >> 8) as u8 && b1[6 + n] == (c1 >> 16) as u8
        && b1[7 + n] == (c1 >> 24) as u8 && b1[8 + n] == (c1 >> 32) as u8 && b1[9 + n] == (c1
        >> 40) as u8 && b1[10 + n] == (c1 >> 48) as u8 && b1[11 + n] == (c1 >> 56) as u8);
    assert(c1 == c2);
    lemma_i64_as_u64_injective(e1.created_at, e2.created_at);
    assert(e1.signer_bump == b1[12 + n]);
    assert(e1.pool_provider@ =~= b1.subrange(13 + n, 45 + n));
    assert(e2.pool_provider@ =~= b2.subrange(13 + n, 45 + n));
}

} // verus!

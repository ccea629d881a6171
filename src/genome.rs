use vstd::prelude::*;

verus! {

/// A fixed-width genome of sixteen opaque bytes.
#[derive(Clone, Copy, Debug, PartialEq, Eq, Default)]
pub struct Kitty(pub [u8; 16]);

/// What the host supplies for one transition: its randomness seed, the block
/// that seed belongs to, and the index of the request within the block.
#[derive(Clone, Copy, Debug, PartialEq, Eq)]
pub struct Entropy {
    pub seed: [u8; 32],
    pub block_number: u64,
    pub extrinsic_index: Option<u32>,
}

/// Byte `i` of the crossover of `a` and `b` under `mask`: the bits set in the
/// mask come from `a`, the others from `b`.
pub open spec fn crossover_byte(a: u8, b: u8, mask: u8) -> u8 {
    (a & mask) | (b & !mask)
}

/// The crossover of two genomes under a selection mask, byte by byte.
pub open spec fn crossover_of(a: Seq<u8>, b: Seq<u8>, mask: Seq<u8>) -> Seq<u8> {
    Seq::new(16, |i: int| crossover_byte(a[i], b[i], mask[i]))
}

/// Little-endian bytes of a `u64`.
pub open spec fn le_u64(v: u64) -> Seq<u8> {
    Seq::new(8, |i: int| ((v >> ((8 * i) as u64)) & 0xff) as u8)
}

/// Little-endian bytes of a `u32`.
pub open spec fn le_u32(v: u32) -> Seq<u8> {
    Seq::new(4, |i: int| ((v >> ((8 * i) as u32)) & 0xff) as u8)
}

/// The canonical encoding of an optional `u32`: a tag byte, then the value.
pub open spec fn option_u32_bytes(v: Option<u32>) -> Seq<u8> {
    match v {
        None => seq![0u8],
        Some(x) => seq![1u8] + le_u32(x),
    }
}

/// The bytes hashed to derive a genome: the host seed with its block number,
/// the caller's account, and the request index, each in canonical encoding.
pub open spec fn payload_of(e: Entropy, who: u64) -> Seq<u8> {
    e.seed@ + le_u64(e.block_number) + le_u64(who) + option_u32_bytes(e.extrinsic_index)
}

/// The 128-bit Blake2b digest of a byte string.
pub uninterp spec fn blake2_128_of(data: Seq<u8>) -> Seq<u8>;

/// Relies on sp_io::hashing::blake2_128: a 16-byte Blake2b digest that depends
/// on the input bytes alone.
#[verifier::external_body]
fn blake2_128(data: &Vec<u8>) -> (r: [u8; 16])
    ensures
        r@ == blake2_128_of(data@),
{
    sp_io::hashing::blake2_128(data.as_slice())
}

/// Combines two genomes bit by bit: where a bit of `mask` is set the bit is
/// taken from `a`, elsewhere from `b`.
pub fn crossover(a: &Kitty, b: &Kitty, mask: &[u8; 16]) -> (r: Kitty)
    ensures
        r.0@ == crossover_of(a.0@, b.0@, mask@),
{
    let mut data = [0u8; 16];
    let mut i: usize = 0;
    while i < 16
        invariant
            i <= 16,
            data@.len() == 16,
            forall|j: int| 0 <= j < i ==> data@[j] == crossover_byte(a.0@[j], b.0@[j], mask@[j]),
        decreases 16 - i,
    {
        data[i] = (a.0[i] & mask[i]) | (b.0[i] & !mask[i]);
        i = i + 1;
    }
    let r = Kitty(data);
    assert(r.0@ =~= crossover_of(a.0@, b.0@, mask@));
    r
}

fn push_le_u64(out: &mut Vec<u8>, v: u64)
    ensures
        final(out)@ == old(out)@ + le_u64(v),
{
    let ghost start = out@;
    let mut i: u64 = 0;
    while i < 8
        invariant
            i <= 8,
            out@ == start + le_u64(v).subrange(0, i as int),
        decreases 8 - i,
    {
        out.push(((v >> (8 * i)) & 0xff) as u8);
        i = i + 1;
        assert(out@ =~= start + le_u64(v).subrange(0, i as int));
    }
    assert(le_u64(v).subrange(0, 8) =~= le_u64(v));
}

fn push_le_u32(out: &mut Vec<u8>, v: u32)
    ensures
        final(out)@ == old(out)@ + le_u32(v),
{
    let ghost start = out@;
    let mut i: u32 = 0;
    while i < 4
        invariant
            i <= 4,
            out@ == start + le_u32(v).subrange(0, i as int),
        decreases 4 - i,
    {
        out.push(((v >> (8 * i)) & 0xff) as u8);
        i = i + 1;
        assert(out@ =~= start + le_u32(v).subrange(0, i as int));
    }
    assert(le_u32(v).subrange(0, 4) =~= le_u32(v));
}

/// The bytes from which the genome or mask of one request is hashed.
pub fn seed_payload(e: &Entropy, who: u64) -> (r: Vec<u8>)
    ensures
        r@ == payload_of(*e, who),
{
    let mut out: Vec<u8> = Vec::new();
    let mut i: usize = 0;
    while i < 32
        invariant
            i <= 32,
            out@ == e.seed@.subrange(0, i as int),
        decreases 32 - i,
    {
        out.push(e.seed[i]);
        i = i + 1;
        assert(out@ =~= e.seed@.subrange(0, i as int));
    }
    assert(e.seed@.subrange(0, 32) =~= e.seed@);
    push_le_u64(&mut out, e.block_number);
    push_le_u64(&mut out, who);
    match e.extrinsic_index {
        None => {
            out.push(0u8);
        },
        Some(x) => {
            out.push(1u8);
            push_le_u32(&mut out, x);
        },
    }
    assert(out@ =~= payload_of(*e, who));
    out
}

/// Sixteen pseudo-random bytes for a request of `who`: the Blake2b-128 digest
/// of the request's seed payload.
pub fn random_value(who: u64, e: &Entropy) -> (r: [u8; 16])
    ensures
        r@ == blake2_128_of(payload_of(*e, who)),
{
    let payload = seed_payload(e, who);
    blake2_128(&payload)
}

} // verus!

use vstd::prelude::*;

verus! {

/// What `sp_io::hashing::blake2_128` returns on the given bytes.
pub uninterp spec fn blake2_128_of(data: Seq<u8>) -> Seq<u8>;

/// Little-endian bytes of a `u32`.
pub open spec fn le_u32(x: u32) -> Seq<u8> {
    seq![x as u8, (x >> 8u32) as u8, (x >> 16u32) as u8, (x >> 24u32) as u8]
}

/// Little-endian bytes of a `u64`.
pub open spec fn le_u64(x: u64) -> Seq<u8> {
    seq![
        x as u8, (x >> 8u64) as u8, (x >> 16u64) as u8, (x >> 24u64) as u8,
        (x >> 32u64) as u8, (x >> 40u64) as u8, (x >> 48u64) as u8, (x >> 56u64) as u8,
    ]
}

/// SCALE form of an optional `u32`: a tag byte, then the value if present.
pub open spec fn option_u32_bytes(x: Option<u32>) -> Seq<u8> {
    match x {
        None => seq![0u8],
        Some(v) => seq![1u8] + le_u32(v),
    }
}

/// The bytes hashed to draw a payload: the seed, the caller, and the
/// index of the operation within its block.
pub open spec fn entropy_payload(seed: Seq<u8>, sender: u64, extrinsic_index: Option<u32>) -> Seq<u8> {
    seed + le_u64(sender) + option_u32_bytes(extrinsic_index)
}

/// Relies on parity_scale_codec's `Encode` for a tuple: the fields' encodings
/// in order; a byte array as its bytes, a `u64` little-endian, an `Option`
/// as a tag byte (0 or 1) and then the value.
#[verifier::external_body]
fn encode_entropy_payload(seed: &[u8; 32], sender: u64, extrinsic_index: Option<u32>) -> (r: Vec<u8>)
    ensures
        r@ == entropy_payload(seed@, sender, extrinsic_index),
{
    parity_scale_codec::Encode::encode(&(*seed, sender, extrinsic_index))
}

/// Relies on sp_io::hashing::blake2_128: a 128-bit Blake2 digest, fixed by
/// its input alone.
#[verifier::external_body]
fn blake2_128(data: &Vec<u8>) -> (r: [u8; 16])
    ensures
        r@ == blake2_128_of(data@),
{
    sp_io::hashing::blake2_128(data.as_slice())
}

/// Draws a 16-byte payload from the host's random seed, the caller and the
/// operation's index within its block.
pub fn random_value(sender: &u64, seed: &[u8; 32], extrinsic_index: Option<u32>) -> (r: [u8; 16])
    ensures
        r@ == blake2_128_of(entropy_payload(seed@, *sender, extrinsic_index)),
{
    let payload = encode_entropy_payload(seed, *sender, extrinsic_index);
    blake2_128(&payload)
}

} // verus!

use vstd::prelude::*;

verus! {

/// The SCALE encoding of a `u32`: four bytes, least significant first.
pub open spec fn nonce_bytes(n: u32) -> Seq<u8> {
    seq![
        (n & 0xff) as u8,
        ((n >> 8u32) & 0xff) as u8,
        ((n >> 16u32) & 0xff) as u8,
        ((n >> 24u32) & 0xff) as u8,
    ]
}

/// The nonce that follows `n`, wrapping at `u32::MAX`.
pub open spec fn next_nonce(n: u32) -> u32 {
    if n == u32::MAX {
        0
    } else {
        (n + 1) as u32
    }
}

/// Encodes `n` as four little-endian bytes.
pub fn encode_nonce(n: u32) -> (r: Vec<u8>)
    ensures
        r@ == nonce_bytes(n),
{
    let r = vec![
        (n & 0xff) as u8,
        ((n >> 8u32) & 0xff) as u8,
        ((n >> 16u32) & 0xff) as u8,
        ((n >> 24u32) & 0xff) as u8,
    ];
    assert(r@ =~= nonce_bytes(n));
    r
}

/// Distinct nonces have distinct encodings.
pub proof fn lemma_nonce_bytes_injective(a: u32, b: u32)
    requires
        a != b,
    ensures
        nonce_bytes(a) != nonce_bytes(b),
{
    if nonce_bytes(a) == nonce_bytes(b) {
        assert(nonce_bytes(a)[0] == nonce_bytes(b)[0]);
        assert(nonce_bytes(a)[1] == nonce_bytes(b)[1]);
        assert(nonce_bytes(a)[2] == nonce_bytes(b)[2]);
        assert(nonce_bytes(a)[3] == nonce_bytes(b)[3]);
        assert(a == b) by (bit_vector)
            requires
                (a & 0xff) as u8 == (b & 0xff) as u8,
                ((a >> 8u32) & 0xff) as u8 == ((b >> 8u32) & 0xff) as u8,
                ((a >> 16u32) & 0xff) as u8 == ((b >> 16u32) & 0xff) as u8,
                ((a >> 24u32) & 0xff) as u8 == ((b >> 24u32) & 0xff) as u8,
        ;
    }
}

} // verus!

use vstd::prelude::*;
use rand::rngs::StdRng;
use rand::{Rng, SeedableRng};
use sha2::{Digest, Sha256};

verus! {

/// The SHA-256 digest of `data`.
pub uninterp spec fn sha256_of(data: Seq<u8>) -> Seq<u8>;

/// The first `u64` that `StdRng` draws when seeded with `seed`.
pub uninterp spec fn first_draw_of(seed: Seq<u8>) -> u64;

/// Little-endian encoding of a nonce.
pub open spec fn le_bytes(n: u32) -> Seq<u8> {
    seq![
        (n & 0xff) as u8,
        ((n >> 8u32) & 0xff) as u8,
        ((n >> 16u32) & 0xff) as u8,
        ((n >> 24u32) & 0xff) as u8,
    ]
}

/// The index picked among `node_count` nodes for a state and a nonce: the
/// first draw of a generator seeded by the digest of the state followed by
/// the nonce, reduced modulo `node_count`. The reduction is slightly biased
/// toward low indices when `node_count` is not a power of two.
pub open spec fn select_index(state: Seq<u8>, nonce: u32, node_count: usize) -> usize
    recommends
        node_count > 0,
{
    (first_draw_of(sha256_of(state + le_bytes(nonce))) % (node_count as u64)) as usize
}

/// Relies on `sha2::Sha256::digest`: the 32-byte digest of the input.
#[verifier::external_body]
fn sha256(data: &[u8]) -> (r: [u8; 32])
    ensures
        r@ == sha256_of(data@),
{
    Sha256::digest(data).into()
}

/// Relies on `StdRng::from_seed` and `Rng::gen::<u64>`: in the rand version
/// this crate is locked to, the generator is ChaCha12 and a fixed function of
/// its seed, so the first draw is too (rand does not promise the same stream
/// across its own versions).
#[verifier::external_body]
fn first_draw(seed: &[u8; 32]) -> (r: u64)
    ensures
        r == first_draw_of(seed@),
{
    StdRng::from_seed(*seed).gen::<u64>()
}

/// The nonce's four bytes, least significant first.
pub fn nonce_bytes(nonce: u32) -> (r: [u8; 4])
    ensures
        r@ == le_bytes(nonce),
{
    let r = [
        (nonce & 0xff) as u8,
        ((nonce >> 8u32) & 0xff) as u8,
        ((nonce >> 16u32) & 0xff) as u8,
        ((nonce >> 24u32) & 0xff) as u8,
    ];
    assert(r@ =~= le_bytes(nonce));
    r
}

/// The bytes that are hashed to seed the selection: the state, then the nonce.
pub fn selection_input(state: &[u8; 96], nonce: u32) -> (r: Vec<u8>)
    ensures
        r@ == state@ + le_bytes(nonce),
{
    let mut out: Vec<u8> = Vec::new();
    let mut i: usize = 0;
    while i < 96
        invariant
            i <= 96,
            out@ == state@.subrange(0, i as int),
        decreases 96 - i,
    {
        out.push(state[i]);
        i = i + 1;
    }
    let nb = nonce_bytes(nonce);
    let mut j: usize = 0;
    while j < 4
        invariant
            j <= 4,
            nb@ == le_bytes(nonce),
            out@ == state@ + nb@.subrange(0, j as int),
        decreases 4 - j,
    {
        out.push(nb[j]);
        j = j + 1;
    }
    assert(nb@.subrange(0, 4) =~= nb@);
    out
}

/// Reduces a draw to an index in `[0, node_count)`.
pub fn index_from_draw(draw: u64, node_count: usize) -> (r: usize)
    requires
        node_count > 0,
    ensures
        r == (draw % (node_count as u64)) as usize,
        r < node_count,
{
    (draw % (node_count as u64)) as usize
}

/// Picks the node for this state and nonce, deterministically.
pub fn select_node(state: &[u8; 96], nonce: u32, node_count: usize) -> (r: usize)
    requires
        node_count > 0,
    ensures
        r == select_index(state@, nonce, node_count),
        r < node_count,
{
    let input = selection_input(state, nonce);
    let seed = sha256(input.as_slice());
    let draw = first_draw(&seed);
    index_from_draw(draw, node_count)
}

/// Selection depends on the state, the nonce and the node count alone: equal
/// inputs give the same index, in any call and in any process.
pub proof fn lemma_select_deterministic(
    s1: Seq<u8>, n1: u32, c1: usize, s2: Seq<u8>, n2: u32, c2: usize,
)
    requires
        s1 == s2,
        n1 == n2,
        c1 == c2,
    ensures
        select_index(s1, n1, c1) == select_index(s2, n2, c2),
{
}

} // verus!

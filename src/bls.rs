use vstd::prelude::*;
use blst::min_pk::{PublicKey, SecretKey, Signature};
use blst::BLST_ERROR;
use rand::RngCore;
use crate::error::BeaconError;

verus! {

/// Width in bytes of a signed message (the randomness state).
pub const MESSAGE_LEN: usize = 96;

/// Width in bytes of a compressed signature (a G2 point).
pub const SIGNATURE_LEN: usize = 96;

/// Width in bytes of a compressed public key (a G1 point).
pub const PUBLIC_KEY_LEN: usize = 48;

/// Domain separation tag bound into hashing to the curve.
pub const DST: &'static str = "BLS_SIG_BLS12381G2_XMD:SHA-256_SSWU_RO_NUL_";

#[verifier::external_type_specification]
#[verifier::external_body]
pub struct ExSecretKey(SecretKey);

#[verifier::external_type_specification]
#[verifier::external_body]
pub struct ExPublicKey(PublicKey);

#[verifier::external_type_specification]
#[verifier::external_body]
pub struct ExSignature(Signature);

#[verifier::external_type_specification]
#[verifier::external_body]
pub struct ExBlstError(BLST_ERROR);

/// The compressed public key that `SecretKey::sk_to_pk` gives for the key
/// that `SecretKey::key_gen` derives from the key material `ikm`.
pub uninterp spec fn public_key_of(ikm: Seq<u8>) -> Seq<u8>;

/// The compressed signature that `SecretKey::sign` gives over `msg`, under the
/// tag `DST` and an empty augmentation, for the key derived from `ikm`.
pub uninterp spec fn signature_of(ikm: Seq<u8>, msg: Seq<u8>) -> Seq<u8>;

/// Whether `Signature::from_bytes` accepts the bytes.
pub uninterp spec fn signature_decodes(sig: Seq<u8>) -> bool;

/// Whether `PublicKey::from_bytes` accepts the bytes.
pub uninterp spec fn public_key_decodes(pk: Seq<u8>) -> bool;

/// Whether `Signature::verify` (group checks on, tag `DST`, empty augmentation)
/// accepts the signature decoded from `sig` over `msg` under the key decoded from `pk`.
pub uninterp spec fn signature_valid(sig: Seq<u8>, pk: Seq<u8>, msg: Seq<u8>) -> bool;

/// What `verify_randomness_bytes` returns: length checks first, then decoding
/// of the signature and of the key, then the pairing check.
pub open spec fn verify_outcome(sig: Seq<u8>, pk: Seq<u8>, msg: Seq<u8>) -> Result<(), BeaconError> {
    if sig.len() != SIGNATURE_LEN {
        Err(BeaconError::LengthMismatch { expected: SIGNATURE_LEN, actual: sig.len() as usize })
    } else if pk.len() != PUBLIC_KEY_LEN {
        Err(BeaconError::LengthMismatch { expected: PUBLIC_KEY_LEN, actual: pk.len() as usize })
    } else if !signature_decodes(sig) || !public_key_decodes(pk) {
        Err(BeaconError::Deserialization)
    } else if signature_valid(sig, pk, msg) {
        Ok(())
    } else {
        Err(BeaconError::Verification)
    }
}

/// A BLS secret key, known to proofs by the key material it was derived from.
/// Only `blst_key_gen` builds one, so `sk` is always `SecretKey::key_gen(ikm)`.
pub struct KeyAuthority {
    sk: SecretKey,
    ikm: Ghost<Seq<u8>>,
}

/// Relies on `SecretKey::key_gen`, which fails only on key material shorter
/// than 32 bytes and otherwise derives the key from the material alone.
/// This is the only place a `KeyAuthority` is built, so its recorded
/// material is always the material its key came from.
#[verifier::external_body]
fn blst_key_gen(ikm: &[u8; 32]) -> (r: Result<KeyAuthority, BLST_ERROR>)
    ensures
        r is Ok,
        r matches Ok(k) ==> k.material() == ikm@,
{
    match SecretKey::key_gen(ikm, &[]) {
        Ok(sk) => Ok(KeyAuthority { sk, ikm: Ghost(ikm@) }),
        Err(e) => Err(e),
    }
}

/// Relies on `SecretKey::sign` and `Signature::to_bytes`: the compressed
/// signature, which decodes again and passes `Signature::verify` over the same
/// message under the compressed public key of the same secret key.
#[verifier::external_body]
fn blst_sign(key: &KeyAuthority, msg: &[u8]) -> (r: [u8; 96])
    ensures
        r@ == signature_of(key.material(), msg@),
        verify_outcome(r@, public_key_of(key.material()), msg@) is Ok,
{
    key.sk.sign(msg, DST.as_bytes(), &[]).to_bytes()
}

/// Relies on `SecretKey::sk_to_pk` and `PublicKey::to_bytes`: the compressed
/// public key, which decodes again.
#[verifier::external_body]
fn blst_public_key(key: &KeyAuthority) -> (r: [u8; 48])
    ensures
        r@ == public_key_of(key.material()),
        public_key_decodes(r@),
{
    key.sk.sk_to_pk().to_bytes()
}

/// Relies on `Signature::from_bytes`: whether the bytes decode to a point.
#[verifier::external_body]
fn blst_decode_signature(b: &[u8]) -> (r: Result<Signature, BLST_ERROR>)
    ensures
        r is Ok == signature_decodes(b@),
{
    Signature::from_bytes(b)
}

/// Relies on `PublicKey::from_bytes`: whether the bytes decode to a point.
#[verifier::external_body]
fn blst_decode_public_key(b: &[u8]) -> (r: Result<PublicKey, BLST_ERROR>)
    ensures
        r is Ok == public_key_decodes(b@),
{
    PublicKey::from_bytes(b)
}

/// Relies on `Signature::from_bytes`, `PublicKey::from_bytes` and
/// `Signature::verify` with group checks on both points: whether verification
/// of the decoded signature over the message reports success.
#[verifier::external_body]
fn blst_verify(sig: &[u8], pk: &[u8], msg: &[u8; 96]) -> (r: bool)
    requires
        signature_decodes(sig@),
        public_key_decodes(pk@),
    ensures
        r == signature_valid(sig@, pk@, msg@),
{
    match (Signature::from_bytes(sig), PublicKey::from_bytes(pk)) {
        (Ok(s), Ok(p)) => matches!(s.verify(true, msg, DST.as_bytes(), &[], &p, true), BLST_ERROR::BLST_SUCCESS),
        _ => false,
    }
}

impl KeyAuthority {
    /// The key material this key was derived from.
    pub closed spec fn material(&self) -> Seq<u8> {
        self.ikm@
    }

    /// Derives a key from 32 bytes of key material.
    pub fn from_seed(ikm: &[u8; 32]) -> (r: KeyAuthority)
        ensures
            r.material() == ikm@,
    {
        blst_key_gen(ikm).unwrap()
    }

    /// The compressed public key of this key.
    pub fn public_key(&self) -> (r: Vec<u8>)
        ensures
            r@ == public_key_of(self.material()),
            r@.len() == PUBLIC_KEY_LEN,
            public_key_decodes(r@),
    {
        let pk = blst_public_key(self);
        let mut out: Vec<u8> = Vec::new();
        let mut i: usize = 0;
        while i < PUBLIC_KEY_LEN
            invariant
                i <= PUBLIC_KEY_LEN,
                out@ == pk@.subrange(0, i as int),
            decreases PUBLIC_KEY_LEN - i,
        {
            out.push(pk[i]);
            i = i + 1;
        }
        assert(out@ =~= pk@);
        out
    }
}

/// Signs a 96-byte randomness value; any other length is refused.
/// A signature it returns verifies under the signer's own public key.
pub fn sign_randomness(key: &KeyAuthority, data: &[u8]) -> (r: Result<Vec<u8>, BeaconError>)
    ensures
        match r {
            Ok(s) => {
                &&& data@.len() == MESSAGE_LEN
                &&& s@ == signature_of(key.material(), data@)
                &&& verify_outcome(s@, public_key_of(key.material()), data@) is Ok
            },
            Err(e) => {
                &&& data@.len() != MESSAGE_LEN
                &&& e == BeaconError::LengthMismatch { expected: MESSAGE_LEN, actual: data@.len() as usize }
            },
        },
{
    if data.len() != MESSAGE_LEN {
        return Err(BeaconError::LengthMismatch { expected: MESSAGE_LEN, actual: data.len() });
    }
    let sig = blst_sign(key, data);
    let mut out: Vec<u8> = Vec::new();
    let mut i: usize = 0;
    while i < SIGNATURE_LEN
        invariant
            i <= SIGNATURE_LEN,
            out@ == sig@.subrange(0, i as int),
        decreases SIGNATURE_LEN - i,
    {
        out.push(sig[i]);
        i = i + 1;
    }
    assert(out@ =~= sig@);
    Ok(out)
}

/// Relies on `rand::thread_rng` and `RngCore::fill_bytes`: 32 bytes from the
/// operating system's entropy source; nothing is known of their value.
#[verifier::external_body]
fn fresh_key_material() -> (r: [u8; 32])
{
    let mut ikm = [0u8; 32];
    rand::thread_rng().fill_bytes(&mut ikm);
    ikm
}

/// Generates a key from 32 bytes of fresh entropy.
pub fn random_test_key() -> (r: KeyAuthority)
    ensures
        r.material().len() == 32,
{
    let ikm = fresh_key_material();
    KeyAuthority::from_seed(&ikm)
}

fn signature_bytes_decode(b: &[u8]) -> (r: bool)
    ensures
        r == signature_decodes(b@),
{
    blst_decode_signature(b).is_ok()
}

fn public_key_bytes_decode(b: &[u8]) -> (r: bool)
    ensures
        r == public_key_decodes(b@),
{
    blst_decode_public_key(b).is_ok()
}

/// Checks a compressed signature over a randomness value against a compressed
/// public key. Lengths are checked first, then decoding, then the signature.
pub fn verify_randomness_bytes(rand: &[u8], pub_key: &[u8], msg: &[u8; 96]) -> (r: Result<(), BeaconError>)
    ensures
        r == verify_outcome(rand@, pub_key@, msg@),
{
    if rand.len() != SIGNATURE_LEN {
        return Err(BeaconError::LengthMismatch { expected: SIGNATURE_LEN, actual: rand.len() });
    }
    if pub_key.len() != PUBLIC_KEY_LEN {
        return Err(BeaconError::LengthMismatch { expected: PUBLIC_KEY_LEN, actual: pub_key.len() });
    }
    if !signature_bytes_decode(rand) || !public_key_bytes_decode(pub_key) {
        return Err(BeaconError::Deserialization);
    }
    if blst_verify(rand, pub_key, msg) {
        Ok(())
    } else {
        Err(BeaconError::Verification)
    }
}

} // verus!

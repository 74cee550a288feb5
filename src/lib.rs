//! A single-signer verifiable randomness beacon: BLS signing and
//! verification over a 96-byte randomness state, deterministic node
//! selection, and the round coordinator that folds verified signatures
//! into the state.

mod bls;
mod error;
mod fold;
mod round;
mod select;
mod short;

pub use bls::{
    public_key_decodes, public_key_of, random_test_key, sign_randomness, signature_decodes,
    signature_of, signature_valid, verify_outcome, verify_randomness_bytes, KeyAuthority, DST,
    MESSAGE_LEN, PUBLIC_KEY_LEN, SIGNATURE_LEN,
};
pub use error::BeaconError;
pub use fold::{lemma_fold_self_inverse, xor_randomness, xor_seq, RAND_LEN};
pub use round::{
    next_nonce, query_update_randomness, reply_bytes, round_outcome, round_state,
    NodeDescriptor, RoundCoordinator, RoundOutcome, VerificationPolicy,
};
pub use select::{
    first_draw_of, index_from_draw, le_bytes, lemma_select_deterministic, nonce_bytes,
    select_index, select_node, selection_input, sha256_of,
};
pub use short::{abbreviated, base58_of, short_bytes_format, shorten_encoded};

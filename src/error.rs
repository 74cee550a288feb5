use vstd::prelude::*;

verus! {

/// Why a signing, verification or round step did not succeed.
#[derive(Debug, Clone, Copy, PartialEq, Eq, Structural)]
pub enum BeaconError {
    /// A message, signature or public key does not have the scheme's fixed width.
    LengthMismatch { expected: usize, actual: usize },
    /// The bytes do not decode to a valid curve point.
    Deserialization,
    /// The bytes decode, but the signature does not check out.
    Verification,
    /// The transport failed before a reply arrived.
    Network,
    /// The node list handed to the coordinator is empty.
    EmptyNodeList,
}

} // verus!

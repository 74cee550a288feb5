use vstd::prelude::*;
use crate::bls::{verify_outcome, verify_randomness_bytes};
use crate::error::BeaconError;
use crate::fold::{xor_randomness, xor_seq};
use crate::select::{select_index, select_node};

verus! {

/// A node as the coordinator knows it: where to reach it and its public key.
pub struct NodeDescriptor {
    pub address: String,
    pub public_key: Vec<u8>,
}

/// What to do when a reply decodes but its signature does not verify.
#[derive(Debug, Clone, Copy, PartialEq, Eq, Structural)]
pub enum VerificationPolicy {
    /// Treat the bad reply like a transient fault: skip the node this round.
    Skip,
    /// Treat the bad reply as an attack: stop the loop.
    Abort,
}

/// The result of one round.
#[derive(Debug, Clone, Copy, PartialEq, Eq, Structural)]
pub enum RoundOutcome {
    /// The reply verified and was folded into the state.
    Success,
    /// The round was skipped; the loop goes on with the next nonce.
    Recoverable(BeaconError),
    /// The loop must stop.
    Fatal(BeaconError),
}

/// The nonce after `n`, wrapping to zero after the largest value.
pub open spec fn next_nonce(n: u32) -> u32 {
    if n == u32::MAX {
        0
    } else {
        (n + 1) as u32
    }
}

/// How a round ends, given the selected node's key, the state that was sent
/// and the reply (`None` when the transport failed).
pub open spec fn round_outcome(
    policy: VerificationPolicy,
    pk: Seq<u8>,
    state: Seq<u8>,
    reply: Option<Seq<u8>>,
) -> RoundOutcome {
    match reply {
        None => RoundOutcome::Recoverable(BeaconError::Network),
        Some(sig) => match verify_outcome(sig, pk, state) {
            Ok(_) => RoundOutcome::Success,
            Err(BeaconError::Verification) => match policy {
                VerificationPolicy::Skip => RoundOutcome::Recoverable(BeaconError::Verification),
                VerificationPolicy::Abort => RoundOutcome::Fatal(BeaconError::Verification),
            },
            Err(e) => RoundOutcome::Recoverable(e),
        },
    }
}

/// The bytes of a reply, if one arrived.
pub open spec fn reply_bytes(reply: Option<Vec<u8>>) -> Option<Seq<u8>> {
    match reply {
        Some(v) => Some(v@),
        None => None,
    }
}

/// The state after a round: the reply folded in if it verified, else unchanged.
pub open spec fn round_state(pk: Seq<u8>, state: Seq<u8>, reply: Option<Seq<u8>>) -> Seq<u8> {
    match reply {
        Some(sig) if verify_outcome(sig, pk, state) is Ok => xor_seq(state, sig),
        _ => state,
    }
}

/// What `query_update_randomness` returns for a reply (`None` when the
/// transport failed) to the given randomness under the given key.
pub open spec fn update_outcome(pk: Seq<u8>, state: Seq<u8>, reply: Option<Seq<u8>>) -> Result<(), BeaconError> {
    match reply {
        None => Err(BeaconError::Network),
        Some(sig) => verify_outcome(sig, pk, state),
    }
}

/// Takes the reply of a node (`None` when the transport failed), verifies it
/// against the node's public key and the current randomness, and folds it in
/// only if it verifies.
pub fn query_update_randomness(randomness: &mut [u8; 96], pub_key: &[u8], reply: &Option<Vec<u8>>) -> (r: Result<(), BeaconError>)
    ensures
        r == update_outcome(pub_key@, old(randomness)@, reply_bytes(*reply)),
        final(randomness)@ == round_state(pub_key@, old(randomness)@, reply_bytes(*reply)),
        r is Err ==> final(randomness)@ == old(randomness)@,
{
    let bytes = match reply {
        None => return Err(BeaconError::Network),
        Some(bytes) => bytes,
    };
    let checked = verify_randomness_bytes(bytes.as_slice(), pub_key, randomness);
    match checked {
        Ok(()) => {
            xor_randomness(randomness, bytes.as_slice());
            Ok(())
        },
        Err(e) => Err(e),
    }
}

/// An unreachable node never changes the state and never stalls the loop:
/// the round is recoverable whatever the policy, the state stays as it was,
/// and the nonce moves on, so the next selection has a new input.
pub proof fn lemma_unreachable_node_moves_on(
    policy: VerificationPolicy,
    pk: Seq<u8>,
    state: Seq<u8>,
    nonce: u32,
)
    ensures
        round_outcome(policy, pk, state, None) == RoundOutcome::Recoverable(BeaconError::Network),
        update_outcome(pk, state, None) == Err::<(), BeaconError>(BeaconError::Network),
        round_state(pk, state, None) == state,
        next_nonce(nonce) != nonce,
{
}

/// Drives the rounds: owns the node list, the randomness state and the nonce.
pub struct RoundCoordinator {
    nodes: Vec<NodeDescriptor>,
    state: [u8; 96],
    nonce: u32,
    policy: VerificationPolicy,
}

impl RoundCoordinator {
    /// The current randomness state.
    pub closed spec fn state_view(&self) -> Seq<u8> {
        self.state@
    }

    /// The current nonce.
    pub closed spec fn nonce_view(&self) -> u32 {
        self.nonce
    }

    /// The public keys of the nodes, in order.
    pub closed spec fn keys(&self) -> Seq<Seq<u8>> {
        self.nodes@.map_values(|n: NodeDescriptor| n.public_key@)
    }

    /// The addresses of the nodes, in order.
    pub closed spec fn addresses(&self) -> Seq<Seq<char>> {
        self.nodes@.map_values(|n: NodeDescriptor| n.address@)
    }

    /// The policy for replies that fail verification.
    pub closed spec fn policy_view(&self) -> VerificationPolicy {
        self.policy
    }

    /// The node list is not empty and the state has its fixed width.
    pub open spec fn wf(&self) -> bool {
        &&& self.keys().len() > 0
        &&& self.state_view().len() == 96
    }

    /// The index of the node that the next round asks.
    pub open spec fn selected(&self) -> usize {
        select_index(self.state_view(), self.nonce_view(), self.keys().len() as usize)
    }

    /// A coordinator with an all-zero state and nonce zero; an empty node list
    /// is refused.
    pub fn new(nodes: Vec<NodeDescriptor>, policy: VerificationPolicy) -> (r: Result<RoundCoordinator, BeaconError>)
        ensures
            nodes@.len() == 0 <==> r == Err::<RoundCoordinator, BeaconError>(BeaconError::EmptyNodeList),
            nodes@.len() > 0 ==> r is Ok,
            r matches Ok(c) ==> {
                &&& c.wf()
                &&& c.state_view() == Seq::new(96, |i: int| 0u8)
                &&& c.nonce_view() == 0
                &&& c.keys() == nodes@.map_values(|n: NodeDescriptor| n.public_key@)
                &&& c.addresses() == nodes@.map_values(|n: NodeDescriptor| n.address@)
                &&& c.policy_view() == policy
            },
    {
        if nodes.len() == 0 {
            return Err(BeaconError::EmptyNodeList);
        }
        let c = RoundCoordinator { nodes, state: [0u8; 96], nonce: 0, policy };
        assert(c.state_view() =~= Seq::new(96, |i: int| 0u8));
        Ok(c)
    }

    /// The current randomness state.
    pub fn state(&self) -> (r: [u8; 96])
        ensures
            r@ == self.state_view(),
    {
        self.state
    }

    /// The current nonce.
    pub fn nonce(&self) -> (r: u32)
        ensures
            r == self.nonce_view(),
    {
        self.nonce
    }

    /// The number of nodes.
    pub fn node_count(&self) -> (r: usize)
        ensures
            r == self.keys().len(),
    {
        self.nodes.len()
    }

    /// The node at `index`.
    pub fn node(&self, index: usize) -> (r: &NodeDescriptor)
        requires
            index < self.keys().len(),
        ensures
            r.public_key@ == self.keys()[index as int],
            r.address@ == self.addresses()[index as int],
    {
        &self.nodes[index]
    }

    /// The index of the node to ask this round.
    pub fn select(&self) -> (r: usize)
        requires
            self.wf(),
        ensures
            r == self.selected(),
            r < self.keys().len(),
    {
        select_node(&self.state, self.nonce, self.nodes.len())
    }

    /// Ends a round with the selected node's reply (`None` when the transport
    /// failed): folds a verified reply into the state and advances the nonce
    /// by one whatever happened, so a failing node is not asked again under
    /// the same nonce.
    pub fn complete_round(&mut self, reply: Option<Vec<u8>>) -> (r: RoundOutcome)
        requires
            old(self).wf(),
        ensures
            final(self).wf(),
            r == round_outcome(
                old(self).policy_view(),
                old(self).keys()[old(self).selected() as int],
                old(self).state_view(),
                reply_bytes(reply),
            ),
            final(self).state_view() == round_state(
                old(self).keys()[old(self).selected() as int],
                old(self).state_view(),
                reply_bytes(reply),
            ),
            final(self).nonce_view() == next_nonce(old(self).nonce_view()),
            final(self).nonce_view() != old(self).nonce_view(),
            final(self).keys() == old(self).keys(),
            final(self).addresses() == old(self).addresses(),
            final(self).policy_view() == old(self).policy_view(),
    {
        let index = self.select();
        let pk = self.nodes[index].public_key.as_slice();
        assert(pk@ == self.keys()[index as int]);
        let mut state = self.state;
        let checked = query_update_randomness(&mut state, pk, &reply);
        self.state = state;
        let outcome = match checked {
            Ok(()) => RoundOutcome::Success,
            Err(BeaconError::Verification) => match self.policy {
                VerificationPolicy::Skip => RoundOutcome::Recoverable(BeaconError::Verification),
                VerificationPolicy::Abort => RoundOutcome::Fatal(BeaconError::Verification),
            },
            Err(e) => RoundOutcome::Recoverable(e),
        };
        self.nonce = self.nonce.wrapping_add(1);
        outcome
    }
}

} // verus!

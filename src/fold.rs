use vstd::prelude::*;

verus! {

/// Width in bytes of the randomness state and of a compressed signature.
pub const RAND_LEN: usize = 96;

/// Byte-wise exclusive or of two sequences of the same length.
pub open spec fn xor_seq(a: Seq<u8>, b: Seq<u8>) -> Seq<u8>
    recommends
        a.len() == b.len(),
{
    Seq::new(a.len(), |i: int| a[i] ^ b[i])
}

/// Folds `new_randomness` into `current_randomness` by byte-wise xor, in place.
pub fn xor_randomness(current_randomness: &mut [u8; 96], new_randomness: &[u8])
    requires
        new_randomness@.len() == 96,
    ensures
        final(current_randomness)@ == xor_seq(old(current_randomness)@, new_randomness@),
{
    let mut i: usize = 0;
    while i < RAND_LEN
        invariant
            i <= 96,
            new_randomness@.len() == 96,
            current_randomness@.len() == 96,
            forall|j: int| 0 <= j < i ==> current_randomness@[j] == old(current_randomness)@[j] ^ new_randomness@[j],
            forall|j: int| i <= j < 96 ==> current_randomness@[j] == old(current_randomness)@[j],
        decreases 96 - i,
    {
        let b = current_randomness[i] ^ new_randomness[i];
        current_randomness[i] = b;
        i = i + 1;
    }
    assert(current_randomness@ =~= xor_seq(old(current_randomness)@, new_randomness@));
}

/// Folding the same bytes into a state twice gives the state back.
pub proof fn lemma_fold_self_inverse(s: Seq<u8>, x: Seq<u8>)
    requires
        s.len() == x.len(),
    ensures
        xor_seq(xor_seq(s, x), x) == s,
{
    assert forall|i: int| 0 <= i < s.len() implies #[trigger] xor_seq(xor_seq(s, x), x)[i] == s[i] by {
        let a = s[i];
        let b = x[i];
        assert((a ^ b) ^ b == a) by (bit_vector);
    }
    assert(xor_seq(xor_seq(s, x), x) =~= s);
}

} // verus!

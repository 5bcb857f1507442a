//! The account space that the proof context accounts of a transfer need.
use vstd::prelude::*;
use crate::proofs::{
    equality_context_state_size, proof_context_space, proof_data_context_space, range_data_context_state_size,
    validity_context_state_size, CIPHERTEXT_VALIDITY_PROOF, EQUALITY_PROOF, RANGE_PROOF,
};

verus! {

/// The space of each proof account of a split-proof transfer.
#[derive(Clone, Copy, Debug, PartialEq, Eq, Structural)]
pub struct TransferCbSpace {
    pub equality_proof_space: usize,
    pub ciphertext_validity_proof_space: usize,
    pub range_proof_space: usize,
}

/// Reports the space of the equality and ciphertext-validity proof context
/// accounts, and the space of a proof context state that holds the range
/// proof's data.
pub fn transfer_cb_space() -> (space: TransferCbSpace)
    ensures
        space.equality_proof_space as nat == proof_context_space(EQUALITY_PROOF),
        space.ciphertext_validity_proof_space as nat == proof_context_space(CIPHERTEXT_VALIDITY_PROOF),
        space.range_proof_space as nat == proof_data_context_space(RANGE_PROOF),
{
    TransferCbSpace {
        equality_proof_space: equality_context_state_size(),
        ciphertext_validity_proof_space: validity_context_state_size(),
        range_proof_space: range_data_context_state_size(),
    }
}

} // verus!

//! Control blocks, which lead from a script to the taproot output that commits to it.
use vstd::prelude::*;
use vstd::slice::slice_to_vec;

use crate::crypto::{
    check_control_block, control_block_error, taproot_commitment_holds, verify_taproot_commitment,
};
use crate::error::TaprootError;
use crate::keys::XOnlyPublicKey;

verus! {

/// A control block that has been read and found good, held as its serialization.
#[derive(PartialEq, Eq, Debug)]
pub struct ControlBlock {
    bytes: Vec<u8>,
}

impl View for ControlBlock {
    type V = Seq<u8>;

    closed spec fn view(&self) -> Seq<u8> {
        self.bytes@
    }
}

impl ControlBlock {
    #[verifier::type_invariant]
    spec fn well_formed(self) -> bool {
        control_block_error(self.bytes@) is None
    }

    /// Reads a serialized control block.
    pub fn from_slice(slice: &[u8]) -> (control_block: Result<ControlBlock, TaprootError>)
        ensures
            match control_block_error(slice@) {
                None => control_block matches Ok(block) && block@ == slice@,
                Some(e) => control_block == Err::<ControlBlock, TaprootError>(e),
            },
    {
        match check_control_block(slice) {
            Ok(()) => Ok(ControlBlock { bytes: slice_to_vec(slice) }),
            Err(e) => Err(e),
        }
    }

    /// The serialization of the control block.
    pub fn serialize(&self) -> (bytes: &[u8])
        ensures
            bytes@ == self@,
            control_block_error(self@) is None,
    {
        proof {
            use_type_invariant(self);
        }
        self.bytes.as_slice()
    }

    /// Whether the control block proves that the output with this key commits to `script`.
    pub fn verify_taproot_commitment(&self, output_key: &XOnlyPublicKey, script: &[u8]) -> (holds:
        bool)
        ensures
            holds == taproot_commitment_holds(self@, output_key@, script@),
    {
        verify_taproot_commitment(self.serialize(), &output_key.serialize(), script)
    }
}

} // verus!

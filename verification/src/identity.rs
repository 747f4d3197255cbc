use vstd::prelude::*;

verus! {

/// `anchor_lang::prelude::Pubkey`, the 32-byte identity of a party.
///
/// The registry stores such values and hands them on, and never looks inside
/// one: two identities are the same to it when they are the same value.
#[verifier::external_type_specification]
#[verifier::external_body]
pub struct ExPubkey(anchor_lang::prelude::Pubkey);

} // verus!

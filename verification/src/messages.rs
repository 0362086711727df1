use vstd::prelude::*;
use crate::commit::{Commitment, Opening};
use crate::keypair::PKs;

verus! {

/// The funder's commitment to its keys and the adaptor point, together with
/// the opaque first range-proof round.
pub struct Message0 {
    pub commitment: Commitment,
    pub bulletproof_round_1_alice: Vec<u8>,
}

/// The counterparty's public keys for both chains, together with its first
/// range-proof round.
pub struct Message1 {
    pub pks_alpha: PKs,
    pub pks_beta: PKs,
    pub bulletproof_round_1_bob: Vec<u8>,
}

/// The opening of the commitment, together with the funder's pre-signature of
/// the counterparty's beta refund.
pub struct Message2<B> {
    pub opening: Opening,
    pub beta_redeemer_sigs: B,
}

/// The counterparty's alpha contributions and its adaptor-encrypted beta
/// redeem signature.
pub struct Message3<A, B> {
    pub alpha_redeemer_sigs: A,
    pub beta_redeem_encsig: B,
}

/// The funder's adaptor-encrypted alpha redeem signature.
pub struct Message4<A> {
    pub alpha_redeem_encsig: A,
}

} // verus!

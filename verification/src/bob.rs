use vstd::prelude::*;
use crate::bitcoin;
use crate::commit::Commitment;
use crate::grin;
use crate::keypair::{be_val, pks_view_eq, point_add_of, Point};
use crate::messages::{Message0, Message1, Message2, Message3, Message4};
use crate::schnorr::{
    partial_sig_val, sig_challenge, sign_fails, verify_backend_fails, EncryptedSignature,
};
use crate::setup_parameters::{Bitcoin, Grin};
use crate::Error;

verus! {

/// The counterparty of the committing funder, before any message: one
/// sub-state per chain, and the commitment received in the first message.
pub struct Bob0<AL, BL> {
    pub alpha_state: AL,
    pub beta_state: BL,
    pub alice_commitment: Commitment,
}

/// The counterparty after answering the opened commitment: one sub-state per
/// chain and the adaptor point taken from the opening.
pub struct Bob1<AL, BL> {
    pub alpha_state: AL,
    pub beta_state: BL,
    pub y: Point,
}

/// The counterparty, terminal: only the per-chain terminal sub-states remain.
pub struct Bob2<AL, BL> {
    pub alpha_state: AL,
    pub beta_state: BL,
}

impl Bob0<grin::bob::BobRedeemer0, bitcoin::bob::BobFunder0> {
    /// Starts the counterparty with alpha = Grin (redeeming) and beta =
    /// Bitcoin (funding): fresh keys for both chains, and the second
    /// range-proof round kept for the third message.
    pub fn new(
        offer_grin: Grin,
        bulletproof_round_1_self: Vec<u8>,
        bulletproof_round_2_self: Vec<u8>,
        offer_bitcoin: Bitcoin,
        message: Message0,
    ) -> (r: Result<(Self, Message1), Error>)
        requires
            offer_bitcoin.wf(),
        ensures
            r matches Ok(t) ==> {
                &&& t.0.alpha_state.wf()
                &&& t.0.beta_state.wf()
                &&& t.0.alpha_state.a == offer_grin
                &&& t.0.beta_state.b == offer_bitcoin
                &&& t.0.alice_commitment == message.commitment
                &&& t.0.alpha_state.bulletproof_round_2_self == bulletproof_round_2_self
                &&& pks_view_eq(t.1.pks_alpha, t.0.alpha_state.sks.pks())
                &&& pks_view_eq(t.1.pks_beta, t.0.beta_state.sks.pks())
                &&& t.1.pks_alpha.wf()
                &&& t.1.pks_beta.wf()
                &&& t.1.bulletproof_round_1_bob@ == bulletproof_round_1_self@
            },
            r is Err ==> r == Err::<(Self, Message1), Error>(Error::Backend),
    {
        let round_1_copy = bulletproof_round_1_self.clone();
        assert(round_1_copy@ =~= bulletproof_round_1_self@);
        let grin_state = grin::bob::BobRedeemer0::new(
            offer_grin,
            message.bulletproof_round_1_alice,
            bulletproof_round_1_self,
            bulletproof_round_2_self,
        )?;
        let bitcoin_state = bitcoin::bob::BobFunder0::new(offer_bitcoin)?;
        let message1 = Message1 {
            pks_alpha: grin_state.sks.public(),
            pks_beta: bitcoin_state.sks.public(),
            bulletproof_round_1_bob: round_1_copy,
        };
        let state = Bob0 {
            alpha_state: grin_state,
            beta_state: bitcoin_state,
            alice_commitment: message.commitment,
        };
        Ok((state, message1))
    }

    /// Consumes the opening and the funder's beta refund pre-signature:
    /// checks the opening against the stored commitment, signs the alpha
    /// kernels as redeemer, checks the pre-signature and produces the
    /// encrypted beta redeem contribution.
    #[verifier::rlimit(100)]
    #[verifier::spinoff_prover]
    pub fn receive(self, message2: Message2<bitcoin::Signature>) -> (r: Result<
        (
            Bob1<grin::bob::BobRedeemer1, bitcoin::bob::BobFunder1>,
            Message3<(grin::RedeemerSigs, Vec<u8>), EncryptedSignature>,
        ),
        Error,
    >)
        requires
            self.alpha_state.wf(),
            self.beta_state.wf(),
            message2.opening.wf(),
            message2.beta_redeemer_sigs.s.wf(),
        ensures
            r matches Ok(t) ==> {
                let x_agg = grin::alpha_x_agg(
                    message2.opening.pks_alpha.x@,
                    self.alpha_state.sks.x.pk@,
                );
                &&& self.alice_commitment.bytes@ == message2.opening.digest()
                &&& bitcoin::sign::refund_sig_valid(
                    self.beta_state.b,
                    self.beta_state.sks.pks(),
                    message2.opening.pks_beta,
                    message2.beta_redeemer_sigs,
                )
                &&& t.0.y@ == message2.opening.y@
                &&& t.0.alpha_state.wf()
                &&& t.0.beta_state.wf()
                &&& t.1.alpha_redeemer_sigs.1@ == self.alpha_state.bulletproof_round_2_self@
                &&& t.1.alpha_redeemer_sigs.0.s_fund.val() == partial_sig_val(
                    be_val(
                        sig_challenge(
                            point_add_of(
                                message2.opening.pks_alpha.r_fund@,
                                self.alpha_state.sks.r_fund.pk@,
                            ),
                            x_agg,
                            grin::fund_digest(self.alpha_state.a, x_agg),
                        ),
                    ),
                    self.alpha_state.sks.x.sk.val(),
                    self.alpha_state.sks.r_fund.sk.val(),
                )
                &&& t.1.alpha_redeemer_sigs.0.s_refund.val() == partial_sig_val(
                    be_val(
                        sig_challenge(
                            point_add_of(
                                message2.opening.pks_alpha.r_refund@,
                                self.alpha_state.sks.r_refund.pk@,
                            ),
                            x_agg,
                            grin::refund_digest(self.alpha_state.a, x_agg),
                        ),
                    ),
                    self.alpha_state.sks.x.sk.val(),
                    self.alpha_state.sks.r_refund.sk.val(),
                )
                &&& t.1.alpha_redeemer_sigs.0.redeem_encsig.s.val() == partial_sig_val(
                    be_val(
                        sig_challenge(
                            grin::redeem_r_agg(
                                message2.opening.pks_alpha.r_redeem@,
                                self.alpha_state.sks.r_redeem.pk@,
                                message2.opening.y@,
                            ),
                            x_agg,
                            grin::redeem_digest(self.alpha_state.a, x_agg),
                        ),
                    ),
                    self.alpha_state.sks.x.sk.val(),
                    self.alpha_state.sks.r_redeem.sk.val(),
                )
                &&& t.1.beta_redeem_encsig.s.val() == partial_sig_val(
                    be_val(
                        bitcoin::redeem_challenge(
                            self.beta_state.b,
                            self.beta_state.sks.x.pk@,
                            message2.opening.pks_beta.x@,
                            self.beta_state.sks.r_redeem.pk@,
                            message2.opening.pks_beta.r_redeem@,
                            message2.opening.y@,
                        ),
                    ),
                    self.beta_state.sks.x.sk.val(),
                    self.beta_state.sks.r_redeem.sk.val(),
                )
            },
            r is Ok <==> self.alice_commitment.bytes@ == message2.opening.digest()
                && !grin::bob::redeemer_transition_fails(
                self.alpha_state.a,
                self.alpha_state.sks,
                message2.opening.pks_alpha,
                message2.opening.y@,
            ) && !bitcoin::bob::funder_check_fails(
                self.beta_state.b,
                self.beta_state.sks,
                message2.opening.pks_beta,
            ) && bitcoin::sign::refund_sig_valid(
                self.beta_state.b,
                self.beta_state.sks.pks(),
                message2.opening.pks_beta,
                message2.beta_redeemer_sigs,
            ) && !bitcoin::bob::funder_encsign_fails(
                self.beta_state.b,
                self.beta_state.sks,
                message2.opening.pks_beta,
                message2.opening.y@,
            ),
            self.alice_commitment.bytes@ != message2.opening.digest() ==> r == Err::<
                (
                    Bob1<grin::bob::BobRedeemer1, bitcoin::bob::BobFunder1>,
                    Message3<(grin::RedeemerSigs, Vec<u8>), EncryptedSignature>,
                ),
                Error,
            >(Error::CommitmentMismatch),
            r == Err::<
                (
                    Bob1<grin::bob::BobRedeemer1, bitcoin::bob::BobFunder1>,
                    Message3<(grin::RedeemerSigs, Vec<u8>), EncryptedSignature>,
                ),
                Error,
            >(Error::CommitmentMismatch) ==> self.alice_commitment.bytes@
                != message2.opening.digest(),
            r == Err::<
                (
                    Bob1<grin::bob::BobRedeemer1, bitcoin::bob::BobFunder1>,
                    Message3<(grin::RedeemerSigs, Vec<u8>), EncryptedSignature>,
                ),
                Error,
            >(Error::BetaSigInvalid) <==> self.alice_commitment.bytes@
                == message2.opening.digest() && !grin::bob::redeemer_transition_fails(
                self.alpha_state.a,
                self.alpha_state.sks,
                message2.opening.pks_alpha,
                message2.opening.y@,
            ) && !bitcoin::bob::funder_check_fails(
                self.beta_state.b,
                self.beta_state.sks,
                message2.opening.pks_beta,
            ) && !bitcoin::sign::refund_sig_valid(
                self.beta_state.b,
                self.beta_state.sks.pks(),
                message2.opening.pks_beta,
                message2.beta_redeemer_sigs,
            ),
    {
        let Message2 { opening, beta_redeemer_sigs } = message2;
        let (alice_pks_alpha, alice_pks_beta, y) = opening.open(&self.alice_commitment)?;
        let (grin_state, grin_redeemer_sigs, bulletproof_round_2) = self.alpha_state.transition(
            alice_pks_alpha,
            &y,
        )?;
        let (bitcoin_state, bitcoin_redeem_encsig) = self.beta_state.transition(
            alice_pks_beta,
            beta_redeemer_sigs,
            &y,
        )?;
        let state = Bob1 { alpha_state: grin_state, beta_state: bitcoin_state, y };
        let message3 = Message3 {
            alpha_redeemer_sigs: (grin_redeemer_sigs, bulletproof_round_2),
            beta_redeem_encsig: bitcoin_redeem_encsig,
        };
        Ok((state, message3))
    }
}

impl Bob0<bitcoin::bob::BobRedeemer0, grin::bob::BobFunder0> {
    /// Starts the counterparty with the roles mirrored: alpha = Bitcoin
    /// (redeeming) and beta = Grin (funding).
    pub fn new(
        offer_bitcoin: Bitcoin,
        offer_grin: Grin,
        bulletproof_round_1_self: Vec<u8>,
        message: Message0,
    ) -> (r: Result<(Self, Message1), Error>)
        requires
            offer_bitcoin.wf(),
        ensures
            r matches Ok(t) ==> {
                &&& t.0.alpha_state.wf()
                &&& t.0.beta_state.wf()
                &&& t.0.alpha_state.b == offer_bitcoin
                &&& t.0.beta_state.a == offer_grin
                &&& t.0.alice_commitment == message.commitment
                &&& pks_view_eq(t.1.pks_alpha, t.0.alpha_state.sks.pks())
                &&& pks_view_eq(t.1.pks_beta, t.0.beta_state.sks.pks())
                &&& t.1.pks_alpha.wf()
                &&& t.1.pks_beta.wf()
                &&& t.1.bulletproof_round_1_bob@ == bulletproof_round_1_self@
            },
            r is Err ==> r == Err::<(Self, Message1), Error>(Error::Backend),
    {
        let round_1_copy = bulletproof_round_1_self.clone();
        assert(round_1_copy@ =~= bulletproof_round_1_self@);
        let bitcoin_state = bitcoin::bob::BobRedeemer0::new(offer_bitcoin)?;
        let grin_state = grin::bob::BobFunder0::new(
            offer_grin,
            message.bulletproof_round_1_alice,
            bulletproof_round_1_self,
        )?;
        let message1 = Message1 {
            pks_alpha: bitcoin_state.sks.public(),
            pks_beta: grin_state.sks.public(),
            bulletproof_round_1_bob: round_1_copy,
        };
        let state = Bob0 {
            alpha_state: bitcoin_state,
            beta_state: grin_state,
            alice_commitment: message.commitment,
        };
        Ok((state, message1))
    }

    /// Consumes the opening and the funder's beta kernel contributions:
    /// checks the opening, pre-signs the alpha refund as redeemer, checks the
    /// contributions and produces the encrypted beta redeem contribution.
    pub fn receive(self, message2: Message2<(grin::RedeemerSigs, Vec<u8>)>) -> (r: Result<
        (
            Bob1<bitcoin::bob::BobRedeemer1, grin::bob::BobFunder1>,
            Message3<bitcoin::Signature, EncryptedSignature>,
        ),
        Error,
    >)
        requires
            self.alpha_state.wf(),
            self.beta_state.wf(),
            message2.opening.wf(),
            message2.beta_redeemer_sigs.0.wf(),
        ensures
            r matches Ok(t) ==> {
                let x_agg = grin::alpha_x_agg(
                    self.beta_state.sks.x.pk@,
                    message2.opening.pks_beta.x@,
                );
                &&& self.alice_commitment.bytes@ == message2.opening.digest()
                &&& grin::sign::redeemer_sigs_valid(
                    self.beta_state.a,
                    self.beta_state.sks.pks(),
                    message2.opening.pks_beta,
                    message2.opening.y@,
                    message2.beta_redeemer_sigs.0,
                )
                &&& t.0.y@ == message2.opening.y@
                &&& t.0.alpha_state.wf()
                &&& t.1.alpha_redeemer_sigs.s.wf()
                &&& t.1.alpha_redeemer_sigs.s.val() == bitcoin::sign::redeemer_refund_sig_val(
                    self.alpha_state.b,
                    message2.opening.pks_alpha,
                    self.alpha_state.sks,
                )
                &&& t.1.beta_redeem_encsig.s.wf()
                &&& t.1.beta_redeem_encsig.s.val() == partial_sig_val(
                    be_val(
                        sig_challenge(
                            grin::redeem_r_agg(
                                self.beta_state.sks.r_redeem.pk@,
                                message2.opening.pks_beta.r_redeem@,
                                message2.opening.y@,
                            ),
                            x_agg,
                            grin::redeem_digest(self.beta_state.a, x_agg),
                        ),
                    ),
                    self.beta_state.sks.x.sk.val(),
                    self.beta_state.sks.r_redeem.sk.val(),
                )
            },
            r is Ok <==> self.alice_commitment.bytes@ == message2.opening.digest()
                && !bitcoin::sign::redeemer_backend_fails(
                self.alpha_state.b,
                message2.opening.pks_alpha,
                self.alpha_state.sks,
            ) && !grin::sign::funder_pre_fails(
                self.beta_state.a,
                self.beta_state.sks,
                message2.opening.pks_beta,
                message2.opening.y@,
            ) && grin::sign::redeemer_sigs_valid(
                self.beta_state.a,
                self.beta_state.sks.pks(),
                message2.opening.pks_beta,
                message2.opening.y@,
                message2.beta_redeemer_sigs.0,
            ) && !grin::sign::funder_post_fails(
                self.beta_state.a,
                self.beta_state.sks,
                message2.opening.pks_beta,
                message2.opening.y@,
                message2.beta_redeemer_sigs.0,
            ),
            self.alice_commitment.bytes@ != message2.opening.digest() ==> r == Err::<
                (
                    Bob1<bitcoin::bob::BobRedeemer1, grin::bob::BobFunder1>,
                    Message3<bitcoin::Signature, EncryptedSignature>,
                ),
                Error,
            >(Error::CommitmentMismatch),
            r == Err::<
                (
                    Bob1<bitcoin::bob::BobRedeemer1, grin::bob::BobFunder1>,
                    Message3<bitcoin::Signature, EncryptedSignature>,
                ),
                Error,
            >(Error::CommitmentMismatch) ==> self.alice_commitment.bytes@
                != message2.opening.digest(),
            r == Err::<
                (
                    Bob1<bitcoin::bob::BobRedeemer1, grin::bob::BobFunder1>,
                    Message3<bitcoin::Signature, EncryptedSignature>,
                ),
                Error,
            >(Error::BetaSigInvalid) <==> self.alice_commitment.bytes@
                == message2.opening.digest() && !bitcoin::sign::redeemer_backend_fails(
                self.alpha_state.b,
                message2.opening.pks_alpha,
                self.alpha_state.sks,
            ) && !grin::sign::funder_pre_fails(
                self.beta_state.a,
                self.beta_state.sks,
                message2.opening.pks_beta,
                message2.opening.y@,
            ) && !grin::sign::redeemer_sigs_valid(
                self.beta_state.a,
                self.beta_state.sks.pks(),
                message2.opening.pks_beta,
                message2.opening.y@,
                message2.beta_redeemer_sigs.0,
            ),
    {
        let Message2 { opening, beta_redeemer_sigs } = message2;
        let (alice_pks_alpha, alice_pks_beta, y) = opening.open(&self.alice_commitment)?;
        let (bitcoin_state, bitcoin_refund_sig) = self.alpha_state.transition(alice_pks_alpha)?;
        let (grin_state, grin_redeem_encsig) = self.beta_state.transition(
            alice_pks_beta,
            beta_redeemer_sigs.0,
            &y,
        )?;
        let state = Bob1 { alpha_state: bitcoin_state, beta_state: grin_state, y };
        let message3 = Message3 {
            alpha_redeemer_sigs: bitcoin_refund_sig,
            beta_redeem_encsig: grin_redeem_encsig,
        };
        Ok((state, message3))
    }
}

impl Bob1<grin::bob::BobRedeemer1, bitcoin::bob::BobFunder1> {
    /// Consumes the funder's encrypted alpha redeem contribution: checks it,
    /// keeps the alpha redeem package, and finalises the beta fund and refund
    /// action handles.
    pub fn receive(self, message: Message4<EncryptedSignature>) -> (r: Result<
        Bob2<grin::bob::BobRedeemer2, bitcoin::bob::BobFunder2>,
        Error,
    >)
        requires
            self.alpha_state.wf(),
            self.beta_state.wf(),
            self.y.wf(),
            self.y@ == self.alpha_state.y@,
            message.alpha_redeem_encsig.s.wf(),
        ensures
            r matches Ok(st) ==> {
                &&& grin::bob::funder_encsig_valid(
                    self.alpha_state.a,
                    self.alpha_state.their_pks,
                    self.alpha_state.sks.pks(),
                    self.y@,
                    message.alpha_redeem_encsig,
                )
                &&& st.alpha_state.wf()
                &&& st.alpha_state.funder_encsig == message.alpha_redeem_encsig
                &&& st.beta_state.refund_action.wf()
            },
            r is Ok <==> !grin::bob::redeemer_check_fails(
                self.alpha_state.a,
                self.alpha_state.sks,
                self.alpha_state.their_pks,
                self.y@,
            ) && grin::bob::funder_encsig_valid(
                self.alpha_state.a,
                self.alpha_state.their_pks,
                self.alpha_state.sks.pks(),
                self.y@,
                message.alpha_redeem_encsig,
            ) && !sign_fails(
                self.alpha_state.sks.x.sk.val(),
                self.alpha_state.sks.r_redeem.sk.val(),
                grin::redeem_r_agg(
                    self.alpha_state.their_pks.r_redeem@,
                    self.alpha_state.sks.r_redeem.pk@,
                    self.y@,
                ),
                grin::alpha_x_agg(self.alpha_state.their_pks.x@, self.alpha_state.sks.x.pk@),
                grin::redeem_digest(
                    self.alpha_state.a,
                    grin::alpha_x_agg(self.alpha_state.their_pks.x@, self.alpha_state.sks.x.pk@),
                ),
            ) && !bitcoin::bob::funder_finalize_fails(
                self.beta_state.b,
                self.beta_state.sks,
                self.beta_state.their_pks,
                self.beta_state.their_refund_sig,
            ),
            r == Err::<Bob2<grin::bob::BobRedeemer2, bitcoin::bob::BobFunder2>, Error>(
                Error::AlphaSigInvalid,
            ) <==> !grin::bob::redeemer_check_fails(
                self.alpha_state.a,
                self.alpha_state.sks,
                self.alpha_state.their_pks,
                self.y@,
            ) && !grin::bob::funder_encsig_valid(
                self.alpha_state.a,
                self.alpha_state.their_pks,
                self.alpha_state.sks.pks(),
                self.y@,
                message.alpha_redeem_encsig,
            ),
            r is Err ==> r == Err::<Bob2<grin::bob::BobRedeemer2, bitcoin::bob::BobFunder2>, Error>(
                Error::AlphaSigInvalid,
            ) || r == Err::<Bob2<grin::bob::BobRedeemer2, bitcoin::bob::BobFunder2>, Error>(
                Error::Backend,
            ),
    {
        let grin_state = self.alpha_state.transition(&self.y, message.alpha_redeem_encsig)?;
        let bitcoin_state = self.beta_state.transition()?;
        Ok(Bob2 { alpha_state: grin_state, beta_state: bitcoin_state })
    }
}

impl Bob1<bitcoin::bob::BobRedeemer1, grin::bob::BobFunder1> {
    /// Consumes the funder's encrypted alpha redeem contribution in the
    /// mirrored roles: checks it, keeps the alpha redeem package, and
    /// finalises the beta action handles.
    pub fn receive(self, message: Message4<EncryptedSignature>) -> (r: Result<
        Bob2<bitcoin::bob::BobRedeemer2, grin::bob::BobFunder2>,
        Error,
    >)
        requires
            self.alpha_state.wf(),
            self.y.wf(),
            message.alpha_redeem_encsig.s.wf(),
        ensures
            r matches Ok(st) ==> {
                &&& bitcoin::action::encsig_valid(
                    self.alpha_state.b,
                    self.alpha_state.their_pks,
                    self.alpha_state.sks.pks(),
                    self.y@,
                    message.alpha_redeem_encsig,
                )
                &&& st.alpha_state.redeem.wf()
                &&& st.alpha_state.redeem.s_funder_enc == message.alpha_redeem_encsig.s
            },
            r is Ok <==> !bitcoin::action::encrypted_redeem_backend_fails(
                self.alpha_state.b,
                self.alpha_state.their_pks,
                self.alpha_state.sks,
                self.y@,
            ) && !verify_backend_fails(
                self.alpha_state.their_pks.r_redeem@,
                self.alpha_state.their_pks.x@,
                bitcoin::redeem_r_agg(
                    self.alpha_state.their_pks.r_redeem@,
                    self.alpha_state.sks.r_redeem.pk@,
                    self.y@,
                ),
                bitcoin::beta_x_agg(self.alpha_state.their_pks.x@, self.alpha_state.sks.x.pk@),
                bitcoin::redeem_digest(
                    self.alpha_state.b,
                    self.alpha_state.their_pks.x@,
                    self.alpha_state.sks.x.pk@,
                ),
            ) && bitcoin::action::encsig_valid(
                self.alpha_state.b,
                self.alpha_state.their_pks,
                self.alpha_state.sks.pks(),
                self.y@,
                message.alpha_redeem_encsig,
            ),
            r == Err::<Bob2<bitcoin::bob::BobRedeemer2, grin::bob::BobFunder2>, Error>(
                Error::AlphaSigInvalid,
            ) <==> !bitcoin::action::encrypted_redeem_backend_fails(
                self.alpha_state.b,
                self.alpha_state.their_pks,
                self.alpha_state.sks,
                self.y@,
            ) && !verify_backend_fails(
                self.alpha_state.their_pks.r_redeem@,
                self.alpha_state.their_pks.x@,
                bitcoin::redeem_r_agg(
                    self.alpha_state.their_pks.r_redeem@,
                    self.alpha_state.sks.r_redeem.pk@,
                    self.y@,
                ),
                bitcoin::beta_x_agg(self.alpha_state.their_pks.x@, self.alpha_state.sks.x.pk@),
                bitcoin::redeem_digest(
                    self.alpha_state.b,
                    self.alpha_state.their_pks.x@,
                    self.alpha_state.sks.x.pk@,
                ),
            ) && !bitcoin::action::encsig_valid(
                self.alpha_state.b,
                self.alpha_state.their_pks,
                self.alpha_state.sks.pks(),
                self.y@,
                message.alpha_redeem_encsig,
            ),
            r is Err ==> r == Err::<Bob2<bitcoin::bob::BobRedeemer2, grin::bob::BobFunder2>, Error>(
                Error::AlphaSigInvalid,
            ) || r == Err::<Bob2<bitcoin::bob::BobRedeemer2, grin::bob::BobFunder2>, Error>(
                Error::Backend,
            ),
    {
        let bitcoin_state = self.alpha_state.transition(message.alpha_redeem_encsig, &self.y)?;
        let grin_state = self.beta_state.transition()?;
        Ok(Bob2 { alpha_state: bitcoin_state, beta_state: grin_state })
    }
}

} // verus!

use vstd::prelude::*;
use crate::bitcoin;
use crate::commit::{commit, Opening};
use crate::grin;
use crate::keypair::{group_order, KeyPair, PKs, SKs};
use crate::messages::{Message0, Message1, Message2, Message3, Message4};
use crate::schnorr::EncryptedSignature;
use crate::setup_parameters::{GrinFunderSecret, SetupParameters};
use crate::Error;

verus! {

use crate::keypair::pks_view_eq;

/// The funder of the alpha chain before any message: fresh keys for both
/// chains, the adaptor secret, and the opening of the commitment just sent.
pub struct Alice0 {
    pub init: SetupParameters,
    pub secret_grin_init: GrinFunderSecret,
    pub sks_alpha: SKs,
    pub sks_beta: SKs,
    pub y: KeyPair,
    pub opening: Opening,
}

impl Alice0 {
    pub open spec fn wf(&self) -> bool {
        &&& self.init.beta.wf()
        &&& self.sks_alpha.wf()
        &&& self.sks_beta.wf()
        &&& self.y.wf()
        &&& self.opening.wf()
        &&& pks_view_eq(self.opening.pks_alpha, self.sks_alpha.pks())
        &&& pks_view_eq(self.opening.pks_beta, self.sks_beta.pks())
        &&& self.opening.y@ == self.y.pk@
    }

    /// Starts the protocol: generates both chains' keys and the adaptor
    /// secret, commits to them, and emits the commitment. The opening is kept
    /// in the state so it can be revealed in the third message.
    pub fn new(
        init: SetupParameters,
        secret_grin_init: GrinFunderSecret,
        bulletproof_round_1_self: Vec<u8>,
    ) -> (r: Result<(Alice0, Message0), Error>)
        requires
            init.beta.wf(),
        ensures
            r matches Ok(t) ==> {
                &&& t.0.wf()
                &&& t.0.init == init
                &&& t.0.secret_grin_init == secret_grin_init
                &&& t.1.commitment.bytes@ == t.0.opening.digest()
                &&& t.1.bulletproof_round_1_alice == bulletproof_round_1_self
            },
            r is Err ==> r == Err::<(Alice0, Message0), Error>(Error::Backend),
    {
        let sks_alpha = SKs::keygen()?;
        let sks_beta = SKs::keygen()?;
        let y = KeyPair::new_random()?;
        let (commitment, opening) = commit(sks_alpha.public(), sks_beta.public(), y.pk.clone());
        let state = Alice0 { init, secret_grin_init, sks_alpha, sks_beta, y, opening };
        let message = Message0 { commitment, bulletproof_round_1_alice: bulletproof_round_1_self };
        Ok((state, message))
    }

    /// Consumes the counterparty's keys: reveals the opening and pre-signs
    /// the counterparty's beta refund transaction, so the counterparty can
    /// fund safely.
    pub fn receive(self, message1: Message1) -> (r: Result<
        (Alice1, Message2<bitcoin::Signature>),
        Error,
    >)
        requires
            self.wf(),
            message1.pks_alpha.wf(),
            message1.pks_beta.wf(),
        ensures
            r matches Ok(t) ==> {
                &&& t.0.wf()
                &&& t.0.init == self.init
                &&& t.0.secret_grin_init == self.secret_grin_init
                &&& t.0.sks_alpha == self.sks_alpha
                &&& t.0.sks_beta == self.sks_beta
                &&& t.0.y == self.y
                &&& t.0.bob_pks_alpha == message1.pks_alpha
                &&& t.0.bob_pks_beta == message1.pks_beta
                &&& t.1.opening == self.opening
                &&& t.1.beta_redeemer_sigs.s.val() == bitcoin::sign::redeemer_refund_sig_val(
                    self.init.beta,
                    message1.pks_beta,
                    self.sks_beta,
                )
            },
            r is Ok <==> !bitcoin::sign::redeemer_backend_fails(
                self.init.beta,
                message1.pks_beta,
                self.sks_beta,
            ),
            r is Err ==> r == Err::<(Alice1, Message2<bitcoin::Signature>), Error>(Error::Backend),
    {
        let beta_redeemer_sigs = bitcoin::sign::redeemer(
            &self.init.beta,
            &self.sks_beta,
            &message1.pks_beta,
        )?;
        let state = Alice1 {
            init: self.init,
            secret_grin_init: self.secret_grin_init,
            sks_alpha: self.sks_alpha,
            sks_beta: self.sks_beta,
            bob_pks_alpha: message1.pks_alpha,
            bob_pks_beta: message1.pks_beta,
            y: self.y,
        };
        let message = Message2 { opening: self.opening, beta_redeemer_sigs };
        Ok((state, message))
    }
}

/// The funder of the alpha chain after revealing the opening: waiting for the
/// counterparty's contributions.
pub struct Alice1 {
    pub init: SetupParameters,
    pub secret_grin_init: GrinFunderSecret,
    pub sks_alpha: SKs,
    pub sks_beta: SKs,
    pub bob_pks_alpha: PKs,
    pub bob_pks_beta: PKs,
    pub y: KeyPair,
}

impl Alice1 {
    pub open spec fn wf(&self) -> bool {
        &&& self.init.beta.wf()
        &&& self.sks_alpha.wf()
        &&& self.sks_beta.wf()
        &&& self.y.wf()
        &&& self.bob_pks_alpha.wf()
        &&& self.bob_pks_beta.wf()
    }

    /// The alpha side of the fourth-message step goes through: the
    /// counterparty's contributions verify and the backend accepts every
    /// signing step.
    pub open spec fn alpha_accepts(&self, sigs: grin::RedeemerSigs) -> bool {
        &&& !grin::sign::funder_pre_fails(self.init.alpha, self.sks_alpha, self.bob_pks_alpha, self.y.pk@)
        &&& grin::sign::redeemer_sigs_valid(
            self.init.alpha,
            self.sks_alpha.pks(),
            self.bob_pks_alpha,
            self.y.pk@,
            sigs,
        )
        &&& !grin::sign::funder_post_fails(
            self.init.alpha,
            self.sks_alpha,
            self.bob_pks_alpha,
            self.y.pk@,
            sigs,
        )
    }

    /// The beta redeem package can be assembled and its check evaluated: no
    /// backend step in the way of the decryption refuses.
    pub open spec fn beta_path_clear(&self) -> bool {
        &&& !bitcoin::action::encrypted_redeem_backend_fails(
            self.init.beta,
            self.bob_pks_beta,
            self.sks_beta,
            self.y.pk@,
        )
        &&& !crate::schnorr::verify_backend_fails(
            self.bob_pks_beta.r_redeem@,
            self.bob_pks_beta.x@,
            bitcoin::redeem_r_agg(self.bob_pks_beta.r_redeem@, self.sks_beta.r_redeem.pk@, self.y.pk@),
            bitcoin::beta_x_agg(self.bob_pks_beta.x@, self.sks_beta.x.pk@),
            bitcoin::redeem_digest(self.init.beta, self.bob_pks_beta.x@, self.sks_beta.x.pk@),
        )
    }

    /// Consumes the counterparty's alpha contributions and encrypted beta
    /// redeem signature: checks them, assembles the alpha action handles,
    /// decrypts the beta redeem, and emits this party's own encrypted alpha
    /// redeem contribution. A bad alpha bundle is `AlphaSigInvalid`; a beta
    /// signature encrypted under the wrong adaptor point is
    /// `AdaptorDecryptMismatch`.
    pub fn receive(self, message: Message3<(grin::RedeemerSigs, Vec<u8>), EncryptedSignature>) -> (r:
        Result<(Alice2, Message4<EncryptedSignature>), Error>)
        requires
            self.wf(),
            message.alpha_redeemer_sigs.0.wf(),
            message.beta_redeem_encsig.s.wf(),
        ensures
            r matches Ok(t) ==> {
                &&& grin::sign::redeemer_sigs_valid(
                    self.init.alpha,
                    self.sks_alpha.pks(),
                    self.bob_pks_alpha,
                    self.y.pk@,
                    message.alpha_redeemer_sigs.0,
                )
                &&& bitcoin::action::encsig_valid(
                    self.init.beta,
                    self.bob_pks_beta,
                    self.sks_beta.pks(),
                    self.y.pk@,
                    message.beta_redeem_encsig,
                )
                &&& t.0.alpha_refund_action.spends@ == grin::fund_output_id(
                    self.init.alpha.amount,
                    grin::alpha_x_agg(self.sks_alpha.x.pk@, self.bob_pks_alpha.x@),
                )
                &&& t.0.beta_redeem_action.spends.vout == 0
                &&& t.0.beta_redeem_action.s_funder.val() == (message.beta_redeem_encsig.s.val()
                    + self.y.sk.val()) % group_order()
                &&& t.1.alpha_redeem_encsig.s.wf()
                &&& t.1.alpha_redeem_encsig.s.val() == crate::schnorr::partial_sig_val(
                    crate::keypair::be_val(
                        crate::schnorr::sig_challenge(
                            grin::redeem_r_agg(
                                self.sks_alpha.r_redeem.pk@,
                                self.bob_pks_alpha.r_redeem@,
                                self.y.pk@,
                            ),
                            grin::alpha_x_agg(self.sks_alpha.x.pk@, self.bob_pks_alpha.x@),
                            grin::redeem_digest(
                                self.init.alpha,
                                grin::alpha_x_agg(self.sks_alpha.x.pk@, self.bob_pks_alpha.x@),
                            ),
                        ),
                    ),
                    self.sks_alpha.x.sk.val(),
                    self.sks_alpha.r_redeem.sk.val(),
                )
            },
            r is Ok <==> self.alpha_accepts(message.alpha_redeemer_sigs.0) && self.beta_path_clear()
                && bitcoin::action::encsig_valid(
                self.init.beta,
                self.bob_pks_beta,
                self.sks_beta.pks(),
                self.y.pk@,
                message.beta_redeem_encsig,
            ) && (message.beta_redeem_encsig.s.val() + self.y.sk.val()) % group_order() != 0,
            r == Err::<(Alice2, Message4<EncryptedSignature>), Error>(Error::AlphaSigInvalid)
                <==> !grin::sign::funder_pre_fails(
                self.init.alpha,
                self.sks_alpha,
                self.bob_pks_alpha,
                self.y.pk@,
            ) && !grin::sign::redeemer_sigs_valid(
                self.init.alpha,
                self.sks_alpha.pks(),
                self.bob_pks_alpha,
                self.y.pk@,
                message.alpha_redeemer_sigs.0,
            ),
            r == Err::<(Alice2, Message4<EncryptedSignature>), Error>(Error::AdaptorDecryptMismatch)
                <==> self.alpha_accepts(message.alpha_redeemer_sigs.0) && self.beta_path_clear()
                && !bitcoin::action::encsig_valid(
                self.init.beta,
                self.bob_pks_beta,
                self.sks_beta.pks(),
                self.y.pk@,
                message.beta_redeem_encsig,
            ),
            r is Err ==> r == Err::<(Alice2, Message4<EncryptedSignature>), Error>(
                Error::AlphaSigInvalid,
            ) || r == Err::<(Alice2, Message4<EncryptedSignature>), Error>(
                Error::AdaptorDecryptMismatch,
            ) || r == Err::<(Alice2, Message4<EncryptedSignature>), Error>(Error::Backend),
    {
        let Message3 { alpha_redeemer_sigs, beta_redeem_encsig } = message;
        let (sigs, _bulletproof_round_2) = alpha_redeemer_sigs;
        let (alpha_actions, alpha_redeem_encsig) = grin::sign::funder(
            &self.init.alpha,
            &self.sks_alpha,
            &self.bob_pks_alpha,
            &self.y.pk,
            &sigs,
        )?;
        let encrypted_redeem = bitcoin::action::EncryptedRedeem::new(
            &self.init.beta,
            &self.sks_beta,
            &self.bob_pks_beta,
            beta_redeem_encsig,
            &self.y.pk,
        )?;
        let beta_redeem_action = encrypted_redeem.decrypt(&self.y)?;
        let state = Alice2 {
            alpha_fund_action: alpha_actions.fund,
            alpha_refund_action: alpha_actions.refund,
            beta_redeem_action,
        };
        let message4 = Message4 { alpha_redeem_encsig };
        Ok((state, message4))
    }
}

/// The funder of the alpha chain, terminal: only action handles remain.
pub struct Alice2 {
    pub alpha_fund_action: grin::action::Fund,
    pub alpha_refund_action: grin::action::Refund,
    pub beta_redeem_action: bitcoin::action::Redeem,
}

} // verus!

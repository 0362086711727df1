use vstd::prelude::*;
use crate::grin::action::{Fund, FunderActions, Redeem, Refund};
use crate::grin::sign::{funder, funder_post_fails, funder_pre_fails, redeemer_sigs_valid};
use crate::grin::{
    alpha_x_agg, compute_fund_output_id, compute_kernel_digest, fund_digest, fund_output_id,
    redeem_digest, redeem_r_agg, refund_digest, Kernel, RedeemerSigs, KERNEL_FUND, KERNEL_REDEEM,
    KERNEL_REFUND,
};
use crate::keypair::{
    add_is_identity, be_val, group_order, parses_as_point, point_add, point_add_of, PKs, Point,
    SKs, Scalar,
};
use crate::schnorr::{
    combine_sigs, decrypt_sig, partial_sig_val, partial_valid, sig_challenge, sign_fails,
    sign_partial, verify_backend_fails, verify_partial, EncryptedSignature,
};
use crate::setup_parameters::Grin;
use crate::Error;

verus! {

/// The redeemer's validity condition for the funder's adaptor-encrypted
/// redeem contribution.
pub open spec fn funder_encsig_valid(
    a: Grin,
    funder_pks: PKs,
    redeemer: PKs,
    y: Seq<u8>,
    enc: EncryptedSignature,
) -> bool {
    let x_agg = alpha_x_agg(funder_pks.x@, redeemer.x@);
    partial_valid(
        enc.s.val(),
        funder_pks.r_redeem@,
        funder_pks.x@,
        redeem_r_agg(funder_pks.r_redeem@, redeemer.r_redeem@, y),
        x_agg,
        redeem_digest(a, x_agg),
    )
}

/// When the redeemer's signing of the three kernels fails: a key or the
/// adaptor point does not parse, an aggregation sums to the identity, or one
/// of the three contributions fails.
#[verifier::opaque]
pub open spec fn redeemer_transition_fails(a: Grin, sks: SKs, funder_pks: PKs, y: Seq<u8>) -> bool {
    let x_agg = alpha_x_agg(funder_pks.x@, sks.x.pk@);
    ||| (!parses_as_point(funder_pks.x@) || !parses_as_point(sks.x.pk@) || add_is_identity(
        funder_pks.x@,
        sks.x.pk@,
    ))
    ||| (!parses_as_point(funder_pks.r_fund@) || !parses_as_point(sks.r_fund.pk@)
        || add_is_identity(funder_pks.r_fund@, sks.r_fund.pk@))
    ||| sign_fails(
        sks.x.sk.val(),
        sks.r_fund.sk.val(),
        point_add_of(funder_pks.r_fund@, sks.r_fund.pk@),
        x_agg,
        fund_digest(a, x_agg),
    )
    ||| (!parses_as_point(funder_pks.r_refund@) || !parses_as_point(sks.r_refund.pk@)
        || add_is_identity(funder_pks.r_refund@, sks.r_refund.pk@))
    ||| sign_fails(
        sks.x.sk.val(),
        sks.r_refund.sk.val(),
        point_add_of(funder_pks.r_refund@, sks.r_refund.pk@),
        x_agg,
        refund_digest(a, x_agg),
    )
    ||| (!parses_as_point(funder_pks.r_redeem@) || !parses_as_point(sks.r_redeem.pk@)
        || add_is_identity(funder_pks.r_redeem@, sks.r_redeem.pk@))
    ||| (!parses_as_point(y) || add_is_identity(
        point_add_of(funder_pks.r_redeem@, sks.r_redeem.pk@),
        y,
    ))
    ||| sign_fails(
        sks.x.sk.val(),
        sks.r_redeem.sk.val(),
        redeem_r_agg(funder_pks.r_redeem@, sks.r_redeem.pk@, y),
        x_agg,
        redeem_digest(a, x_agg),
    )
}

/// When checking the funder's encrypted redeem contribution fails for backend
/// reasons: a key or the adaptor point does not parse, an aggregation sums to
/// the identity, or the verification equation cannot be evaluated.
#[verifier::opaque]
pub open spec fn redeemer_check_fails(a: Grin, sks: SKs, funder_pks: PKs, y: Seq<u8>) -> bool {
    let x_agg = alpha_x_agg(funder_pks.x@, sks.x.pk@);
    ||| (!parses_as_point(funder_pks.x@) || !parses_as_point(sks.x.pk@) || add_is_identity(
        funder_pks.x@,
        sks.x.pk@,
    ))
    ||| (!parses_as_point(funder_pks.r_redeem@) || !parses_as_point(sks.r_redeem.pk@)
        || add_is_identity(funder_pks.r_redeem@, sks.r_redeem.pk@))
    ||| (!parses_as_point(y) || add_is_identity(
        point_add_of(funder_pks.r_redeem@, sks.r_redeem.pk@),
        y,
    ))
    ||| verify_backend_fails(
        funder_pks.r_redeem@,
        funder_pks.x@,
        redeem_r_agg(funder_pks.r_redeem@, sks.r_redeem.pk@, y),
        x_agg,
        redeem_digest(a, x_agg),
    )
}

/// Bob as the Grin redeemer, before any message: fresh keys and the opaque
/// range-proof blobs produced by the wallet's bulletproof rounds.
pub struct BobRedeemer0 {
    pub a: Grin,
    pub sks: SKs,
    pub bulletproof_round_1_peer: Vec<u8>,
    pub bulletproof_round_1_self: Vec<u8>,
    pub bulletproof_round_2_self: Vec<u8>,
}

impl BobRedeemer0 {
    pub open spec fn wf(&self) -> bool {
        self.sks.wf()
    }

    /// Sets up the redeemer side with fresh keys, carrying the range-proof
    /// blobs opaquely.
    pub fn new(
        a: Grin,
        bulletproof_round_1_peer: Vec<u8>,
        bulletproof_round_1_self: Vec<u8>,
        bulletproof_round_2_self: Vec<u8>,
    ) -> (r: Result<BobRedeemer0, Error>)
        ensures
            r matches Ok(st) ==> {
                &&& st.wf()
                &&& st.a == a
                &&& st.bulletproof_round_1_peer == bulletproof_round_1_peer
                &&& st.bulletproof_round_1_self == bulletproof_round_1_self
                &&& st.bulletproof_round_2_self == bulletproof_round_2_self
            },
            r is Err ==> r == Err::<BobRedeemer0, Error>(Error::Backend),
    {
        let sks = SKs::keygen()?;
        Ok(
            BobRedeemer0 {
                a,
                sks,
                bulletproof_round_1_peer,
                bulletproof_round_1_self,
                bulletproof_round_2_self,
            },
        )
    }

    /// Signs the three kernels as redeemer once the funder's keys are opened:
    /// plain partials for fund and refund, an encrypted one for redeem.
    pub fn transition(self, their_pks: PKs, y_pk: &Point) -> (r: Result<
        (BobRedeemer1, RedeemerSigs, Vec<u8>),
        Error,
    >)
        requires
            self.wf(),
            their_pks.wf(),
            y_pk.wf(),
        ensures
            r matches Ok(t) ==> {
                let x_agg = alpha_x_agg(their_pks.x@, self.sks.x.pk@);
                &&& t.1.wf()
                &&& t.1.s_fund.val() == partial_sig_val(
                    be_val(
                        sig_challenge(
                            point_add_of(their_pks.r_fund@, self.sks.r_fund.pk@),
                            x_agg,
                            fund_digest(self.a, x_agg),
                        ),
                    ),
                    self.sks.x.sk.val(),
                    self.sks.r_fund.sk.val(),
                )
                &&& t.1.s_refund.val() == partial_sig_val(
                    be_val(
                        sig_challenge(
                            point_add_of(their_pks.r_refund@, self.sks.r_refund.pk@),
                            x_agg,
                            refund_digest(self.a, x_agg),
                        ),
                    ),
                    self.sks.x.sk.val(),
                    self.sks.r_refund.sk.val(),
                )
                &&& t.1.redeem_encsig.s.val() == partial_sig_val(
                    be_val(
                        sig_challenge(
                            redeem_r_agg(their_pks.r_redeem@, self.sks.r_redeem.pk@, y_pk@),
                            x_agg,
                            redeem_digest(self.a, x_agg),
                        ),
                    ),
                    self.sks.x.sk.val(),
                    self.sks.r_redeem.sk.val(),
                )
                &&& t.2@ == self.bulletproof_round_2_self@
                &&& t.0.wf()
                &&& t.0.a == self.a
                &&& t.0.sks == self.sks
                &&& t.0.their_pks == their_pks
                &&& t.0.y@ == y_pk@
            },
            r is Err <==> redeemer_transition_fails(self.a, self.sks, their_pks, y_pk@),
            r is Err ==> r == Err::<(BobRedeemer1, RedeemerSigs, Vec<u8>), Error>(Error::Backend),
    {
        proof {
            reveal(redeemer_transition_fails);
        }
        let x_agg = match point_add(&their_pks.x, &self.sks.x.pk) {
            Some(p) => p,
            None => {
                return Err(Error::Backend);
            },
        };
        let d_fund = compute_kernel_digest(KERNEL_FUND, self.a.fee, 0, &x_agg);
        let r_agg_fund = match point_add(&their_pks.r_fund, &self.sks.r_fund.pk) {
            Some(p) => p,
            None => {
                return Err(Error::Backend);
            },
        };
        let s_fund = sign_partial(&self.sks.x.sk, &self.sks.r_fund.sk, &r_agg_fund, &x_agg, &d_fund)?;
        let d_refund = compute_kernel_digest(KERNEL_REFUND, self.a.fee, self.a.expiry, &x_agg);
        let r_agg_refund = match point_add(&their_pks.r_refund, &self.sks.r_refund.pk) {
            Some(p) => p,
            None => {
                return Err(Error::Backend);
            },
        };
        let s_refund = sign_partial(
            &self.sks.x.sk,
            &self.sks.r_refund.sk,
            &r_agg_refund,
            &x_agg,
            &d_refund,
        )?;
        let d_redeem = compute_kernel_digest(KERNEL_REDEEM, self.a.fee, 0, &x_agg);
        let r_sum = match point_add(&their_pks.r_redeem, &self.sks.r_redeem.pk) {
            Some(p) => p,
            None => {
                return Err(Error::Backend);
            },
        };
        let r_agg_y = match point_add(&r_sum, y_pk) {
            Some(p) => p,
            None => {
                return Err(Error::Backend);
            },
        };
        let s_redeem = sign_partial(&self.sks.x.sk, &self.sks.r_redeem.sk, &r_agg_y, &x_agg, &d_redeem)?;
        let state = BobRedeemer1 { a: self.a, sks: self.sks, their_pks, y: y_pk.clone() };
        let sigs = RedeemerSigs {
            s_fund,
            s_refund,
            redeem_encsig: EncryptedSignature { s: s_redeem },
        };
        Ok((state, sigs, self.bulletproof_round_2_self))
    }
}

/// Bob as the Grin redeemer, waiting for the funder's encrypted redeem
/// contribution.
pub struct BobRedeemer1 {
    pub a: Grin,
    pub sks: SKs,
    pub their_pks: PKs,
    pub y: Point,
}

impl BobRedeemer1 {
    pub open spec fn wf(&self) -> bool {
        &&& self.sks.wf()
        &&& self.their_pks.wf()
        &&& self.y.wf()
    }

    /// Consumes the funder's adaptor-encrypted redeem contribution: checks it
    /// and keeps everything needed to assemble the redeem kernel once the
    /// adaptor secret is learnt. Rejects bad contributions with
    /// `AlphaSigInvalid`.
    pub fn transition(self, y_pk: &Point, their_encsig: EncryptedSignature) -> (r: Result<
        BobRedeemer2,
        Error,
    >)
        requires
            self.wf(),
            y_pk.wf(),
            y_pk@ == self.y@,
            their_encsig.s.wf(),
        ensures
            r matches Ok(st) ==> {
                let x_agg = alpha_x_agg(self.their_pks.x@, self.sks.x.pk@);
                &&& funder_encsig_valid(self.a, self.their_pks, self.sks.pks(), y_pk@, their_encsig)
                &&& st.excess@ == x_agg
                &&& st.r_agg_y@ == redeem_r_agg(self.their_pks.r_redeem@, self.sks.r_redeem.pk@, y_pk@)
                &&& st.digest@ == redeem_digest(self.a, x_agg)
                &&& st.funder_encsig == their_encsig
                &&& st.spends@ == fund_output_id(self.a.amount, x_agg)
                &&& st.a == self.a
                &&& st.s_self.wf()
                &&& st.excess.wf()
                &&& st.r_agg_y.wf()
                &&& st.funder_encsig.s.wf()
            },
            r is Ok <==> !redeemer_check_fails(self.a, self.sks, self.their_pks, y_pk@)
                && funder_encsig_valid(self.a, self.their_pks, self.sks.pks(), y_pk@, their_encsig)
                && !sign_fails(
                self.sks.x.sk.val(),
                self.sks.r_redeem.sk.val(),
                redeem_r_agg(self.their_pks.r_redeem@, self.sks.r_redeem.pk@, y_pk@),
                alpha_x_agg(self.their_pks.x@, self.sks.x.pk@),
                redeem_digest(self.a, alpha_x_agg(self.their_pks.x@, self.sks.x.pk@)),
            ),
            r == Err::<BobRedeemer2, Error>(Error::AlphaSigInvalid) <==> !redeemer_check_fails(
                self.a,
                self.sks,
                self.their_pks,
                y_pk@,
            ) && !funder_encsig_valid(
                self.a,
                self.their_pks,
                self.sks.pks(),
                y_pk@,
                their_encsig,
            ),
            r is Err ==> r == Err::<BobRedeemer2, Error>(Error::AlphaSigInvalid) || r == Err::<
                BobRedeemer2,
                Error,
            >(Error::Backend),
    {
        proof {
            reveal(redeemer_check_fails);
        }
        let x_agg = match point_add(&self.their_pks.x, &self.sks.x.pk) {
            Some(p) => p,
            None => {
                return Err(Error::Backend);
            },
        };
        let d_redeem = compute_kernel_digest(KERNEL_REDEEM, self.a.fee, 0, &x_agg);
        let r_sum = match point_add(&self.their_pks.r_redeem, &self.sks.r_redeem.pk) {
            Some(p) => p,
            None => {
                return Err(Error::Backend);
            },
        };
        let r_agg_y = match point_add(&r_sum, y_pk) {
            Some(p) => p,
            None => {
                return Err(Error::Backend);
            },
        };
        let ok = verify_partial(
            &their_encsig.s,
            &self.their_pks.r_redeem,
            &self.their_pks.x,
            &r_agg_y,
            &x_agg,
            &d_redeem,
        )?;
        if !ok {
            return Err(Error::AlphaSigInvalid);
        }
        let s_self = sign_partial(&self.sks.x.sk, &self.sks.r_redeem.sk, &r_agg_y, &x_agg, &d_redeem)?;
        let spends = compute_fund_output_id(self.a.amount, &x_agg);
        Ok(
            BobRedeemer2 {
                a: self.a,
                excess: x_agg,
                r_agg_y,
                digest: d_redeem,
                s_self,
                funder_encsig: their_encsig,
                spends,
            },
        )
    }
}

/// Bob as the Grin redeemer, terminal: holds both redeem contributions, the
/// funder's still encrypted.
pub struct BobRedeemer2 {
    pub a: Grin,
    pub excess: Point,
    pub r_agg_y: Point,
    pub digest: Vec<u8>,
    pub s_self: Scalar,
    pub funder_encsig: EncryptedSignature,
    pub spends: Vec<u8>,
}

impl BobRedeemer2 {
    pub open spec fn wf(&self) -> bool {
        &&& self.excess.wf()
        &&& self.r_agg_y.wf()
        &&& self.s_self.wf()
        &&& self.funder_encsig.s.wf()
    }

    /// Assembles the broadcastable redeem kernel once the adaptor secret is
    /// known: decrypts the funder's contribution and combines it with this
    /// party's own.
    pub fn complete(self, y: &Scalar) -> (r: Result<Redeem, Error>)
        requires
            self.wf(),
            y.wf(),
        ensures
            r matches Ok(red) ==> {
                &&& red.kernel.wf()
                &&& red.kernel.fee == self.a.fee
                &&& red.kernel.lock_height == 0
                &&& red.kernel.excess@ == self.excess@
                &&& red.kernel.r_agg@ == self.r_agg_y@
                &&& red.kernel.digest@ == self.digest@
                &&& red.kernel.s.val() == ((self.funder_encsig.s.val() + y.val()) % group_order()
                    + self.s_self.val()) % group_order()
                &&& red.spends@ == self.spends@
            },
            r is Err <==> (self.funder_encsig.s.val() + y.val()) % group_order() == 0 || ((
            self.funder_encsig.s.val() + y.val()) % group_order() + self.s_self.val())
                % group_order() == 0,
            r is Err ==> r == Err::<Redeem, Error>(Error::Backend),
    {
        let s_funder = decrypt_sig(&self.funder_encsig.s, y)?;
        let s = combine_sigs(&s_funder, &self.s_self)?;
        Ok(
            Redeem {
                kernel: Kernel {
                    fee: self.a.fee,
                    lock_height: 0,
                    excess: self.excess,
                    r_agg: self.r_agg_y,
                    s,
                    digest: self.digest,
                },
                spends: self.spends,
            },
        )
    }
}

/// Bob as the Grin funder (mirrored roles), before any message.
pub struct BobFunder0 {
    pub a: Grin,
    pub sks: SKs,
    pub bulletproof_round_1_peer: Vec<u8>,
    pub bulletproof_round_1_self: Vec<u8>,
}

impl BobFunder0 {
    pub open spec fn wf(&self) -> bool {
        self.sks.wf()
    }

    /// Sets up the funder side with fresh keys.
    pub fn new(
        a: Grin,
        bulletproof_round_1_peer: Vec<u8>,
        bulletproof_round_1_self: Vec<u8>,
    ) -> (r: Result<BobFunder0, Error>)
        ensures
            r matches Ok(st) ==> st.wf() && st.a == a && st.bulletproof_round_1_peer
                == bulletproof_round_1_peer && st.bulletproof_round_1_self
                == bulletproof_round_1_self,
            r is Err ==> r == Err::<BobFunder0, Error>(Error::Backend),
    {
        let sks = SKs::keygen()?;
        Ok(BobFunder0 { a, sks, bulletproof_round_1_peer, bulletproof_round_1_self })
    }

    /// Consumes the counterparty's three kernel contributions: checks them,
    /// co-signs fund and refund, and produces this party's encrypted redeem
    /// contribution. On this (beta) chain a bad bundle is `BetaSigInvalid`.
    pub fn transition(self, their_pks: PKs, their_sigs: RedeemerSigs, y_pk: &Point) -> (r: Result<
        (BobFunder1, EncryptedSignature),
        Error,
    >)
        requires
            self.wf(),
            their_pks.wf(),
            their_sigs.wf(),
            y_pk.wf(),
        ensures
            r matches Ok(t) ==> {
                let x_agg = alpha_x_agg(self.sks.x.pk@, their_pks.x@);
                &&& redeemer_sigs_valid(self.a, self.sks.pks(), their_pks, y_pk@, their_sigs)
                &&& t.0.actions.fund.kernel.wf()
                &&& t.0.actions.refund.kernel.wf()
                &&& t.0.actions.refund.spends@ == fund_output_id(self.a.amount, x_agg)
                &&& t.1.s.wf()
                &&& t.1.s.val() == partial_sig_val(
                    be_val(
                        sig_challenge(
                            redeem_r_agg(self.sks.r_redeem.pk@, their_pks.r_redeem@, y_pk@),
                            x_agg,
                            redeem_digest(self.a, x_agg),
                        ),
                    ),
                    self.sks.x.sk.val(),
                    self.sks.r_redeem.sk.val(),
                )
            },
            r is Ok <==> !funder_pre_fails(self.a, self.sks, their_pks, y_pk@)
                && redeemer_sigs_valid(self.a, self.sks.pks(), their_pks, y_pk@, their_sigs)
                && !funder_post_fails(self.a, self.sks, their_pks, y_pk@, their_sigs),
            r == Err::<(BobFunder1, EncryptedSignature), Error>(Error::BetaSigInvalid)
                <==> !funder_pre_fails(self.a, self.sks, their_pks, y_pk@)
                && !redeemer_sigs_valid(self.a, self.sks.pks(), their_pks, y_pk@, their_sigs),
            r is Err ==> r == Err::<(BobFunder1, EncryptedSignature), Error>(Error::BetaSigInvalid)
                || r == Err::<(BobFunder1, EncryptedSignature), Error>(Error::Backend),
    {
        match funder(&self.a, &self.sks, &their_pks, y_pk, &their_sigs) {
            Ok((actions, enc)) => Ok((BobFunder1 { actions }, enc)),
            Err(Error::AlphaSigInvalid) => Err(Error::BetaSigInvalid),
            Err(e) => Err(e),
        }
    }
}

/// Bob as the Grin funder, holding the finished action handles.
pub struct BobFunder1 {
    pub actions: FunderActions,
}

impl BobFunder1 {
    /// Finalises the funder's action handles.
    pub fn transition(self) -> (r: Result<BobFunder2, Error>)
        ensures
            r matches Ok(st) ==> st.fund == self.actions.fund && st.refund == self.actions.refund,
            r is Ok,
    {
        Ok(BobFunder2 { fund: self.actions.fund, refund: self.actions.refund })
    }
}

/// Bob as the Grin funder, terminal: only action handles remain.
pub struct BobFunder2 {
    pub fund: Fund,
    pub refund: Refund,
}

} // verus!

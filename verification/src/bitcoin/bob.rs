use vstd::prelude::*;
use crate::bitcoin::action::{
    encrypted_redeem_backend_fails, encsig_valid, EncryptedRedeem, Fund, Refund,
};
use crate::bitcoin::sign::{
    redeemer, redeemer_backend_fails, redeemer_refund_sig_val, refund_sig_valid,
};
use crate::bitcoin::{
    beta_x_agg, compute_sighash, compute_txid, fund_transaction, fund_tx_enc, fund_tx_fails,
    redeem_challenge, redeem_digest, redeem_r_agg, refund_challenge, refund_digest, refund_r_agg,
    refund_transaction, refund_tx_enc, tx_id, OutPoint, Signature,
};
use crate::keypair::{
    add_is_identity, be_val, group_order, parses_as_point, point_add, point_add_of, PKs, Point,
    SKs,
};
use crate::schnorr::{
    combine_sigs, partial_sig_val, sign_fails, sign_partial, verify_backend_fails, verify_partial,
    EncryptedSignature,
};
use crate::setup_parameters::Bitcoin;
use crate::Error;

verus! {

/// When the funder's checking of the refund pre-signature fails for backend
/// reasons: the fund transaction cannot be built, the refund nonces cannot be
/// aggregated, or the verification equation cannot be evaluated.
#[verifier::opaque]
pub open spec fn funder_check_fails(b: Bitcoin, sks: SKs, redeemer_pks: PKs) -> bool {
    ||| fund_tx_fails(sks.x.pk@, redeemer_pks.x@)
    ||| (!parses_as_point(sks.r_refund.pk@) || !parses_as_point(redeemer_pks.r_refund@)
        || add_is_identity(sks.r_refund.pk@, redeemer_pks.r_refund@))
    ||| verify_backend_fails(
        redeemer_pks.r_refund@,
        redeemer_pks.x@,
        refund_r_agg(sks.r_refund.pk@, redeemer_pks.r_refund@),
        beta_x_agg(sks.x.pk@, redeemer_pks.x@),
        refund_digest(b, sks.x.pk@, redeemer_pks.x@),
    )
}

/// When producing the funder's encrypted redeem contribution fails: the
/// redeem nonces or the adaptor point cannot be aggregated, or the
/// contribution itself fails.
#[verifier::opaque]
pub open spec fn funder_encsign_fails(b: Bitcoin, sks: SKs, redeemer_pks: PKs, y: Seq<u8>) -> bool {
    ||| (!parses_as_point(sks.r_redeem.pk@) || !parses_as_point(redeemer_pks.r_redeem@)
        || add_is_identity(sks.r_redeem.pk@, redeemer_pks.r_redeem@))
    ||| (!parses_as_point(y) || add_is_identity(
        point_add_of(sks.r_redeem.pk@, redeemer_pks.r_redeem@),
        y,
    ))
    ||| sign_fails(
        sks.x.sk.val(),
        sks.r_redeem.sk.val(),
        redeem_r_agg(sks.r_redeem.pk@, redeemer_pks.r_redeem@, y),
        beta_x_agg(sks.x.pk@, redeemer_pks.x@),
        redeem_digest(b, sks.x.pk@, redeemer_pks.x@),
    )
}

/// When finalising the co-signed refund fails: the fund transaction cannot be
/// built, the nonces cannot be aggregated, this party's contribution fails,
/// or the combined signature reduces to zero.
#[verifier::opaque]
pub open spec fn funder_finalize_fails(
    b: Bitcoin,
    sks: SKs,
    redeemer_pks: PKs,
    their_sig: Signature,
) -> bool {
    let c = refund_challenge(b, sks.x.pk@, redeemer_pks.x@, sks.r_refund.pk@, redeemer_pks.r_refund@);
    ||| fund_tx_fails(sks.x.pk@, redeemer_pks.x@)
    ||| (!parses_as_point(sks.r_refund.pk@) || !parses_as_point(redeemer_pks.r_refund@)
        || add_is_identity(sks.r_refund.pk@, redeemer_pks.r_refund@))
    ||| sign_fails(
        sks.x.sk.val(),
        sks.r_refund.sk.val(),
        refund_r_agg(sks.r_refund.pk@, redeemer_pks.r_refund@),
        beta_x_agg(sks.x.pk@, redeemer_pks.x@),
        refund_digest(b, sks.x.pk@, redeemer_pks.x@),
    )
    ||| (partial_sig_val(be_val(c), sks.x.sk.val(), sks.r_refund.sk.val()) + their_sig.s.val())
        % group_order() == 0
}

/// Bob as the Bitcoin funder, before any message from the counterparty.
pub struct BobFunder0 {
    pub b: Bitcoin,
    pub sks: SKs,
}

impl BobFunder0 {
    pub open spec fn wf(&self) -> bool {
        &&& self.b.wf()
        &&& self.sks.wf()
    }

    /// Sets up the funder side with fresh keys.
    pub fn new(b: Bitcoin) -> (r: Result<BobFunder0, Error>)
        requires
            b.wf(),
        ensures
            r matches Ok(st) ==> st.wf() && st.b == b,
            r is Err ==> r == Err::<BobFunder0, Error>(Error::Backend),
    {
        let sks = SKs::keygen()?;
        Ok(BobFunder0 { b, sks })
    }

    /// Consumes the counterparty's refund pre-signature: checks it, and
    /// produces this party's adaptor-encrypted redeem contribution under the
    /// adaptor point.
    pub fn transition(self, their_pks: PKs, their_refund_sig: Signature, y_pk: &Point) -> (r:
        Result<(BobFunder1, EncryptedSignature), Error>)
        requires
            self.wf(),
            their_pks.wf(),
            their_refund_sig.s.wf(),
            y_pk.wf(),
        ensures
            r matches Ok(t) ==> {
                &&& refund_sig_valid(self.b, self.sks.pks(), their_pks, their_refund_sig)
                &&& t.1.s.val() == partial_sig_val(
                    be_val(
                        redeem_challenge(
                            self.b,
                            self.sks.x.pk@,
                            their_pks.x@,
                            self.sks.r_redeem.pk@,
                            their_pks.r_redeem@,
                            y_pk@,
                        ),
                    ),
                    self.sks.x.sk.val(),
                    self.sks.r_redeem.sk.val(),
                )
                &&& t.0.wf()
                &&& t.0.b == self.b
                &&& t.0.sks == self.sks
                &&& t.0.their_pks == their_pks
                &&& t.0.their_refund_sig == their_refund_sig
            },
            r is Ok <==> !funder_check_fails(self.b, self.sks, their_pks) && refund_sig_valid(
                self.b,
                self.sks.pks(),
                their_pks,
                their_refund_sig,
            ) && !funder_encsign_fails(self.b, self.sks, their_pks, y_pk@),
            r == Err::<(BobFunder1, EncryptedSignature), Error>(Error::BetaSigInvalid)
                <==> !funder_check_fails(self.b, self.sks, their_pks) && !refund_sig_valid(
                self.b,
                self.sks.pks(),
                their_pks,
                their_refund_sig,
            ),
            r is Err ==> r == Err::<(BobFunder1, EncryptedSignature), Error>(Error::BetaSigInvalid)
                || r == Err::<(BobFunder1, EncryptedSignature), Error>(Error::Backend),
    {
        proof {
            reveal(funder_check_fails);
            reveal(funder_encsign_fails);
        }
        let (fund_tx, key) = fund_transaction(&self.b, &self.sks.x.pk, &their_pks.x)?;
        let ftxid = compute_txid(&fund_tx);
        let refund_tx = refund_transaction(&self.b, &ftxid);
        let refund_digest = compute_sighash(&refund_tx, &key.bytes, self.b.fund_output_amount());
        let r_agg_refund = match point_add(&self.sks.r_refund.pk, &their_pks.r_refund) {
            Some(p) => p,
            None => {
                return Err(Error::Backend);
            },
        };
        let ok = verify_partial(
            &their_refund_sig.s,
            &their_pks.r_refund,
            &their_pks.x,
            &r_agg_refund,
            &key,
            &refund_digest,
        )?;
        if !ok {
            return Err(Error::BetaSigInvalid);
        }
        let redeem_tx = crate::bitcoin::redeem_transaction(&self.b, &ftxid);
        let redeem_digest = compute_sighash(&redeem_tx, &key.bytes, self.b.fund_output_amount());
        let r_sum = match point_add(&self.sks.r_redeem.pk, &their_pks.r_redeem) {
            Some(p) => p,
            None => {
                return Err(Error::Backend);
            },
        };
        let r_agg_y = match point_add(&r_sum, y_pk) {
            Some(p) => p,
            None => {
                return Err(Error::Backend);
            },
        };
        let s_enc = sign_partial(&self.sks.x.sk, &self.sks.r_redeem.sk, &r_agg_y, &key, &redeem_digest)?;
        Ok(
            (
                BobFunder1 { b: self.b, sks: self.sks, their_pks, their_refund_sig },
                EncryptedSignature { s: s_enc },
            ),
        )
    }
}

/// Bob as the Bitcoin funder, holding the counterparty's checked refund
/// pre-signature.
pub struct BobFunder1 {
    pub b: Bitcoin,
    pub sks: SKs,
    pub their_pks: PKs,
    pub their_refund_sig: Signature,
}

impl BobFunder1 {
    pub open spec fn wf(&self) -> bool {
        &&& self.b.wf()
        &&& self.sks.wf()
        &&& self.their_pks.wf()
        &&& self.their_refund_sig.s.wf()
    }

    /// Finalises the funder's action handles: the fund transaction and the
    /// co-signed refund transaction.
    pub fn transition(self) -> (r: Result<BobFunder2, Error>)
        requires
            self.wf(),
        ensures
            r matches Ok(st) ==> {
                &&& st.fund_action.transaction@ == fund_tx_enc(
                    self.b,
                    beta_x_agg(self.sks.x.pk@, self.their_pks.x@),
                )
                &&& st.refund_action.transaction@ == refund_tx_enc(
                    self.b,
                    tx_id(fund_tx_enc(self.b, beta_x_agg(self.sks.x.pk@, self.their_pks.x@))),
                )
                &&& st.refund_action.spends.txid@ == tx_id(
                    fund_tx_enc(self.b, beta_x_agg(self.sks.x.pk@, self.their_pks.x@)),
                )
                &&& st.refund_action.spends.vout == 0
                &&& st.refund_action.wf()
                &&& st.refund_action.s.val() == (partial_sig_val(
                    be_val(
                        refund_challenge(
                            self.b,
                            self.sks.x.pk@,
                            self.their_pks.x@,
                            self.sks.r_refund.pk@,
                            self.their_pks.r_refund@,
                        ),
                    ),
                    self.sks.x.sk.val(),
                    self.sks.r_refund.sk.val(),
                ) + self.their_refund_sig.s.val()) % group_order()
            },
            r is Err <==> funder_finalize_fails(
                self.b,
                self.sks,
                self.their_pks,
                self.their_refund_sig,
            ),
            r is Err ==> r == Err::<BobFunder2, Error>(Error::Backend),
    {
        proof {
            reveal(funder_finalize_fails);
        }
        let (fund_tx, key) = fund_transaction(&self.b, &self.sks.x.pk, &self.their_pks.x)?;
        let ftxid = compute_txid(&fund_tx);
        let refund_tx = refund_transaction(&self.b, &ftxid);
        let digest = compute_sighash(&refund_tx, &key.bytes, self.b.fund_output_amount());
        let r_agg = match point_add(&self.sks.r_refund.pk, &self.their_pks.r_refund) {
            Some(p) => p,
            None => {
                return Err(Error::Backend);
            },
        };
        let s_mine = sign_partial(&self.sks.x.sk, &self.sks.r_refund.sk, &r_agg, &key, &digest)?;
        let s = combine_sigs(&s_mine, &self.their_refund_sig.s)?;
        Ok(
            BobFunder2 {
                fund_action: Fund { transaction: fund_tx },
                refund_action: Refund {
                    transaction: refund_tx,
                    spends: OutPoint { txid: ftxid, vout: 0 },
                    s,
                    r_agg,
                    x_agg: key,
                    digest,
                },
            },
        )
    }
}

/// Bob as the Bitcoin funder, terminal: only action handles remain.
pub struct BobFunder2 {
    pub fund_action: Fund,
    pub refund_action: Refund,
}

/// Bob as the Bitcoin redeemer (mirrored roles), before any message.
pub struct BobRedeemer0 {
    pub b: Bitcoin,
    pub sks: SKs,
}

impl BobRedeemer0 {
    pub open spec fn wf(&self) -> bool {
        &&& self.b.wf()
        &&& self.sks.wf()
    }

    /// Sets up the redeemer side with fresh keys.
    pub fn new(b: Bitcoin) -> (r: Result<BobRedeemer0, Error>)
        requires
            b.wf(),
        ensures
            r matches Ok(st) ==> st.wf() && st.b == b,
            r is Err ==> r == Err::<BobRedeemer0, Error>(Error::Backend),
    {
        let sks = SKs::keygen()?;
        Ok(BobRedeemer0 { b, sks })
    }

    /// Pre-signs the counterparty's refund transaction.
    pub fn transition(self, their_pks: PKs) -> (r: Result<(BobRedeemer1, Signature), Error>)
        requires
            self.wf(),
            their_pks.wf(),
        ensures
            r matches Ok(t) ==> {
                &&& t.1.s.wf()
                &&& t.1.s.val() == redeemer_refund_sig_val(self.b, their_pks, self.sks)
                &&& t.0.wf()
                &&& t.0.b == self.b
                &&& t.0.sks == self.sks
                &&& t.0.their_pks == their_pks
            },
            r is Err <==> redeemer_backend_fails(self.b, their_pks, self.sks),
            r is Err ==> r == Err::<(BobRedeemer1, Signature), Error>(Error::Backend),
    {
        let sig = redeemer(&self.b, &self.sks, &their_pks)?;
        Ok((BobRedeemer1 { b: self.b, sks: self.sks, their_pks }, sig))
    }
}

/// Bob as the Bitcoin redeemer, waiting for the funder's encrypted redeem
/// signature.
pub struct BobRedeemer1 {
    pub b: Bitcoin,
    pub sks: SKs,
    pub their_pks: PKs,
}

impl BobRedeemer1 {
    pub open spec fn wf(&self) -> bool {
        &&& self.b.wf()
        &&& self.sks.wf()
        &&& self.their_pks.wf()
    }

    /// Consumes the funder's adaptor-encrypted redeem signature: checks it
    /// and keeps the decryptable redeem package.
    pub fn transition(self, their_encsig: EncryptedSignature, y_pk: &Point) -> (r: Result<
        BobRedeemer2,
        Error,
    >)
        requires
            self.wf(),
            their_encsig.s.wf(),
            y_pk.wf(),
        ensures
            r matches Ok(st) ==> st.redeem.wf() && st.redeem.s_funder_enc == their_encsig.s
                && encsig_valid(self.b, self.their_pks, self.sks.pks(), y_pk@, their_encsig),
            r is Ok <==> !encrypted_redeem_backend_fails(self.b, self.their_pks, self.sks, y_pk@)
                && !verify_backend_fails(
                self.their_pks.r_redeem@,
                self.their_pks.x@,
                redeem_r_agg(self.their_pks.r_redeem@, self.sks.r_redeem.pk@, y_pk@),
                beta_x_agg(self.their_pks.x@, self.sks.x.pk@),
                redeem_digest(self.b, self.their_pks.x@, self.sks.x.pk@),
            ) && encsig_valid(self.b, self.their_pks, self.sks.pks(), y_pk@, their_encsig),
            r == Err::<BobRedeemer2, Error>(Error::AlphaSigInvalid)
                <==> !encrypted_redeem_backend_fails(self.b, self.their_pks, self.sks, y_pk@)
                && !verify_backend_fails(
                self.their_pks.r_redeem@,
                self.their_pks.x@,
                redeem_r_agg(self.their_pks.r_redeem@, self.sks.r_redeem.pk@, y_pk@),
                beta_x_agg(self.their_pks.x@, self.sks.x.pk@),
                redeem_digest(self.b, self.their_pks.x@, self.sks.x.pk@),
            ) && !encsig_valid(self.b, self.their_pks, self.sks.pks(), y_pk@, their_encsig),
            r is Err ==> r == Err::<BobRedeemer2, Error>(Error::AlphaSigInvalid) || r == Err::<
                BobRedeemer2,
                Error,
            >(Error::Backend),
    {
        let er = EncryptedRedeem::new(&self.b, &self.sks, &self.their_pks, their_encsig, y_pk)?;
        let ok = er.verify_encsig()?;
        if !ok {
            return Err(Error::AlphaSigInvalid);
        }
        Ok(BobRedeemer2 { redeem: er })
    }
}

/// Bob as the Bitcoin redeemer, terminal: holds the redeem package, to be
/// decrypted once the adaptor secret is learnt from the counterparty's
/// broadcast.
pub struct BobRedeemer2 {
    pub redeem: EncryptedRedeem,
}

} // verus!

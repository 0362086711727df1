use vstd::prelude::*;
use crate::bitcoin::{
    beta_x_agg, compute_sighash, compute_txid, fund_transaction, fund_tx_enc, fund_tx_fails,
    redeem_challenge, redeem_digest, redeem_r_agg, redeem_transaction, redeem_tx_enc, tx_id,
    OutPoint,
};
use crate::keypair::{
    add_is_identity, be_val, group_order, parses_as_point, point_add, point_add_of, scalar_wf,
    KeyPair, PKs, Point, SKs, Scalar,
};
use crate::schnorr::{
    combine_sigs, decrypt_sig, partial_sig_val, partial_valid, sign_fails, sign_partial,
    verify_backend_fails, verify_partial, EncryptedSignature,
};
use crate::setup_parameters::Bitcoin;
use crate::Error;

verus! {

/// The funder's fully-signed fund transaction, ready for broadcast.
pub struct Fund {
    pub transaction: Vec<u8>,
}

/// The co-signed refund transaction: spends the fund output after the expiry.
pub struct Refund {
    pub transaction: Vec<u8>,
    pub spends: OutPoint,
    pub s: Scalar,
    pub r_agg: Point,
    pub x_agg: Point,
    pub digest: Vec<u8>,
}

impl Refund {
    pub open spec fn wf(&self) -> bool {
        &&& self.s.wf()
        &&& self.r_agg.wf()
        &&& self.x_agg.wf()
    }

    /// Checks the aggregate signature: `s*G == R_agg + c*X_agg`.
    pub fn verify(&self) -> (r: Result<bool, Error>)
        requires
            self.wf(),
        ensures
            r matches Ok(b) ==> b == partial_valid(
                self.s.val(),
                self.r_agg@,
                self.x_agg@,
                self.r_agg@,
                self.x_agg@,
                self.digest@,
            ),
            r is Err <==> verify_backend_fails(
                self.r_agg@,
                self.x_agg@,
                self.r_agg@,
                self.x_agg@,
                self.digest@,
            ),
            r is Err ==> r == Err::<bool, Error>(Error::Backend),
    {
        verify_partial(&self.s, &self.r_agg, &self.x_agg, &self.r_agg, &self.x_agg, &self.digest)
    }
}

/// The broadcastable redeem transaction with both witness signatures: the
/// redeemer's plain contribution and the funder's decrypted one. The funder's
/// decrypted contribution is the part whose publication reveals the adaptor
/// secret.
pub struct Redeem {
    pub transaction: Vec<u8>,
    pub spends: OutPoint,
    pub s_funder: Scalar,
    pub s_redeemer: Scalar,
    pub r_agg_y: Point,
    pub x_agg: Point,
    pub digest: Vec<u8>,
}

impl Redeem {
    pub open spec fn wf(&self) -> bool {
        &&& self.s_funder.wf()
        &&& self.s_redeemer.wf()
        &&& self.r_agg_y.wf()
        &&& self.x_agg.wf()
    }

    /// Checks the combined signature under the adaptor-offset aggregate
    /// nonce: `(s_funder + s_redeemer)*G == R_agg_y + c*X_agg`.
    pub fn verify(&self) -> (r: Result<bool, Error>)
        requires
            self.wf(),
        ensures
            r matches Ok(b) ==> b == partial_valid(
                (self.s_funder.val() + self.s_redeemer.val()) % group_order(),
                self.r_agg_y@,
                self.x_agg@,
                self.r_agg_y@,
                self.x_agg@,
                self.digest@,
            ),
            r is Err <==> (self.s_funder.val() + self.s_redeemer.val()) % group_order() == 0
                || verify_backend_fails(
                self.r_agg_y@,
                self.x_agg@,
                self.r_agg_y@,
                self.x_agg@,
                self.digest@,
            ),
            r is Err ==> r == Err::<bool, Error>(Error::Backend),
    {
        let s = combine_sigs(&self.s_funder, &self.s_redeemer)?;
        verify_partial(&s, &self.r_agg_y, &self.x_agg, &self.r_agg_y, &self.x_agg, &self.digest)
    }
}

/// The funder's adaptor-encrypted redeem signature from the redeemer's point
/// of view, validity condition of decryption.
pub open spec fn encsig_valid(
    b: Bitcoin,
    funder: PKs,
    redeemer: PKs,
    y: Seq<u8>,
    enc: EncryptedSignature,
) -> bool {
    partial_valid(
        enc.s.val(),
        funder.r_redeem@,
        funder.x@,
        redeem_r_agg(funder.r_redeem@, redeemer.r_redeem@, y),
        beta_x_agg(funder.x@, redeemer.x@),
        redeem_digest(b, funder.x@, redeemer.x@),
    )
}

/// When assembling the decryptable redeem package fails: the fund transaction
/// cannot be built, a nonce aggregation fails, or the redeemer's own
/// contribution fails.
#[verifier::opaque]
pub open spec fn encrypted_redeem_backend_fails(
    b: Bitcoin,
    funder: PKs,
    sks: SKs,
    y: Seq<u8>,
) -> bool {
    ||| fund_tx_fails(funder.x@, sks.x.pk@)
    ||| !parses_as_point(funder.r_redeem@)
    ||| !parses_as_point(sks.r_redeem.pk@)
    ||| add_is_identity(funder.r_redeem@, sks.r_redeem.pk@)
    ||| !parses_as_point(y)
    ||| add_is_identity(point_add_of(funder.r_redeem@, sks.r_redeem.pk@), y)
    ||| sign_fails(
        sks.x.sk.val(),
        sks.r_redeem.sk.val(),
        redeem_r_agg(funder.r_redeem@, sks.r_redeem.pk@, y),
        beta_x_agg(funder.x@, sks.x.pk@),
        redeem_digest(b, funder.x@, sks.x.pk@),
    )
}

/// The redeem transaction together with the funder's adaptor-encrypted
/// contribution and the redeemer's plain one; it becomes broadcastable only
/// once the adaptor secret decrypts the funder's part.
pub struct EncryptedRedeem {
    pub transaction: Vec<u8>,
    pub spends: OutPoint,
    pub digest: Vec<u8>,
    pub x_agg: Point,
    pub r_agg_y: Point,
    pub funder_x: Point,
    pub funder_r_redeem: Point,
    pub s_funder_enc: Scalar,
    pub s_redeemer: Scalar,
}

impl EncryptedRedeem {
    pub open spec fn wf(&self) -> bool {
        &&& self.x_agg.wf()
        &&& self.r_agg_y.wf()
        &&& self.funder_x.wf()
        &&& self.funder_r_redeem.wf()
        &&& self.s_funder_enc.wf()
        &&& self.s_redeemer.wf()
    }

    /// Whether the funder's encrypted contribution verifies under the stored
    /// ceremony parameters.
    pub open spec fn funder_encsig_ok(&self) -> bool {
        partial_valid(
            self.s_funder_enc.val(),
            self.funder_r_redeem@,
            self.funder_x@,
            self.r_agg_y@,
            self.x_agg@,
            self.digest@,
        )
    }

    /// Combines the redeemer's own contribution with the funder's encrypted
    /// one into a decryptable redeem package.
    pub fn new(
        b: &Bitcoin,
        sks: &SKs,
        their_pks: &PKs,
        their_encsig: EncryptedSignature,
        y_pk: &Point,
    ) -> (r: Result<EncryptedRedeem, Error>)
        requires
            b.wf(),
            sks.wf(),
            their_pks.wf(),
            their_encsig.s.wf(),
            y_pk.wf(),
        ensures
            r matches Ok(er) ==> {
                &&& er.wf()
                &&& er.transaction@ == redeem_tx_enc(
                    *b,
                    tx_id(fund_tx_enc(*b, beta_x_agg(their_pks.x@, sks.x.pk@))),
                )
                &&& er.spends.txid@ == tx_id(fund_tx_enc(*b, beta_x_agg(their_pks.x@, sks.x.pk@)))
                &&& er.spends.vout == 0
                &&& er.digest@ == redeem_digest(*b, their_pks.x@, sks.x.pk@)
                &&& er.x_agg@ == beta_x_agg(their_pks.x@, sks.x.pk@)
                &&& er.r_agg_y@ == redeem_r_agg(their_pks.r_redeem@, sks.r_redeem.pk@, y_pk@)
                &&& er.funder_x@ == their_pks.x@
                &&& er.funder_r_redeem@ == their_pks.r_redeem@
                &&& er.s_funder_enc == their_encsig.s
                &&& scalar_wf(
                    redeem_challenge(
                        *b,
                        their_pks.x@,
                        sks.x.pk@,
                        their_pks.r_redeem@,
                        sks.r_redeem.pk@,
                        y_pk@,
                    ),
                )
                &&& er.s_redeemer.val() == partial_sig_val(
                    be_val(
                        redeem_challenge(
                            *b,
                            their_pks.x@,
                            sks.x.pk@,
                            their_pks.r_redeem@,
                            sks.r_redeem.pk@,
                            y_pk@,
                        ),
                    ),
                    sks.x.sk.val(),
                    sks.r_redeem.sk.val(),
                )
            },
            r is Err <==> encrypted_redeem_backend_fails(*b, *their_pks, *sks, y_pk@),
            r is Err ==> r == Err::<EncryptedRedeem, Error>(Error::Backend),
    {
        proof {
            reveal(encrypted_redeem_backend_fails);
        }
        let (fund_tx, key) = fund_transaction(b, &their_pks.x, &sks.x.pk)?;
        let ftxid = compute_txid(&fund_tx);
        let redeem_tx = redeem_transaction(b, &ftxid);
        let digest = compute_sighash(&redeem_tx, &key.bytes, b.fund_output_amount());
        let r_sum = match point_add(&their_pks.r_redeem, &sks.r_redeem.pk) {
            Some(p) => p,
            None => {
                return Err(Error::Backend);
            },
        };
        let r_agg_y = match point_add(&r_sum, y_pk) {
            Some(p) => p,
            None => {
                return Err(Error::Backend);
            },
        };
        let s_redeemer = sign_partial(&sks.x.sk, &sks.r_redeem.sk, &r_agg_y, &key, &digest)?;
        Ok(
            EncryptedRedeem {
                transaction: redeem_tx,
                spends: OutPoint { txid: ftxid, vout: 0 },
                digest,
                x_agg: key,
                r_agg_y,
                funder_x: their_pks.x.clone(),
                funder_r_redeem: their_pks.r_redeem.clone(),
                s_funder_enc: their_encsig.s,
                s_redeemer,
            },
        )
    }

    /// Checks the funder's encrypted contribution against the ceremony
    /// parameters carried by this package.
    pub fn verify_encsig(&self) -> (r: Result<bool, Error>)
        requires
            self.wf(),
        ensures
            r matches Ok(ok) ==> ok == self.funder_encsig_ok(),
            r is Err <==> verify_backend_fails(
                self.funder_r_redeem@,
                self.funder_x@,
                self.r_agg_y@,
                self.x_agg@,
                self.digest@,
            ),
            r is Err ==> r == Err::<bool, Error>(Error::Backend),
    {
        verify_partial(
            &self.s_funder_enc,
            &self.funder_r_redeem,
            &self.funder_x,
            &self.r_agg_y,
            &self.x_agg,
            &self.digest,
        )
    }

    /// Decrypts the funder's contribution with the adaptor secret. Rejects,
    /// with `AdaptorDecryptMismatch`, exactly the packages whose encrypted
    /// contribution does not verify under the expected adaptor point.
    pub fn decrypt(self, y: &KeyPair) -> (r: Result<Redeem, Error>)
        requires
            self.wf(),
            y.wf(),
        ensures
            r matches Ok(red) ==> {
                &&& self.funder_encsig_ok()
                &&& red.wf()
                &&& red.transaction@ == self.transaction@
                &&& red.spends.txid@ == self.spends.txid@
                &&& red.spends.vout == self.spends.vout
                &&& red.s_funder.val() == (self.s_funder_enc.val() + y.sk.val()) % group_order()
                &&& red.s_redeemer == self.s_redeemer
                &&& red.r_agg_y@ == self.r_agg_y@
                &&& red.x_agg@ == self.x_agg@
                &&& red.digest@ == self.digest@
            },
            r is Ok <==> !verify_backend_fails(
                self.funder_r_redeem@,
                self.funder_x@,
                self.r_agg_y@,
                self.x_agg@,
                self.digest@,
            ) && self.funder_encsig_ok() && (self.s_funder_enc.val() + y.sk.val())
                % group_order() != 0,
            r == Err::<Redeem, Error>(Error::AdaptorDecryptMismatch) <==> !verify_backend_fails(
                self.funder_r_redeem@,
                self.funder_x@,
                self.r_agg_y@,
                self.x_agg@,
                self.digest@,
            ) && !self.funder_encsig_ok(),
            r is Err ==> r == Err::<Redeem, Error>(Error::AdaptorDecryptMismatch) || r == Err::<
                Redeem,
                Error,
            >(Error::Backend),
    {
        let ok = verify_partial(
            &self.s_funder_enc,
            &self.funder_r_redeem,
            &self.funder_x,
            &self.r_agg_y,
            &self.x_agg,
            &self.digest,
        )?;
        if !ok {
            return Err(Error::AdaptorDecryptMismatch);
        }
        let s_funder = decrypt_sig(&self.s_funder_enc, &y.sk)?;
        Ok(
            Redeem {
                transaction: self.transaction,
                spends: self.spends,
                s_funder,
                s_redeemer: self.s_redeemer,
                r_agg_y: self.r_agg_y,
                x_agg: self.x_agg,
                digest: self.digest,
            },
        )
    }
}

} // verus!

use vstd::prelude::*;
use crate::bitcoin::{
    beta_x_agg, compute_sighash, compute_txid, fund_transaction, fund_tx_fails, refund_challenge,
    refund_digest, refund_r_agg, refund_transaction, Signature,
};
use crate::keypair::{add_is_identity, be_val, parses_as_point, point_add, scalar_wf, PKs, SKs};
use crate::schnorr::{partial_sig_val, partial_valid, sign_fails, sign_partial};
use crate::setup_parameters::Bitcoin;
use crate::Error;

verus! {

/// What the redeemer's pre-signature of the refund transaction is worth: its
/// contribution under the refund challenge.
pub open spec fn redeemer_refund_sig_val(b: Bitcoin, funder: PKs, redeemer_sks: SKs) -> nat {
    partial_sig_val(
        be_val(
            refund_challenge(
                b,
                funder.x@,
                redeemer_sks.x.pk@,
                funder.r_refund@,
                redeemer_sks.r_refund.pk@,
            ),
        ),
        redeemer_sks.x.sk.val(),
        redeemer_sks.r_refund.sk.val(),
    )
}

/// The redeemer's validity condition for a refund pre-signature from the
/// funder's point of view.
pub open spec fn refund_sig_valid(b: Bitcoin, funder: PKs, redeemer: PKs, sig: Signature) -> bool {
    partial_valid(
        sig.s.val(),
        redeemer.r_refund@,
        redeemer.x@,
        crate::bitcoin::refund_r_agg(funder.r_refund@, redeemer.r_refund@),
        crate::bitcoin::beta_x_agg(funder.x@, redeemer.x@),
        crate::bitcoin::refund_digest(b, funder.x@, redeemer.x@),
    )
}

/// When pre-signing the refund fails: the fund transaction cannot be built,
/// the refund nonces cannot be aggregated, or the contribution itself fails.
#[verifier::opaque]
pub open spec fn redeemer_backend_fails(b: Bitcoin, funder: PKs, sks: SKs) -> bool {
    ||| fund_tx_fails(funder.x@, sks.x.pk@)
    ||| !parses_as_point(funder.r_refund@)
    ||| !parses_as_point(sks.r_refund.pk@)
    ||| add_is_identity(funder.r_refund@, sks.r_refund.pk@)
    ||| sign_fails(
        sks.x.sk.val(),
        sks.r_refund.sk.val(),
        refund_r_agg(funder.r_refund@, sks.r_refund.pk@),
        beta_x_agg(funder.x@, sks.x.pk@),
        refund_digest(b, funder.x@, sks.x.pk@),
    )
}

/// The redeemer pre-signs the refund transaction, so the funder is assured of
/// refundability before locking any funds. Succeeds exactly when the backend
/// accepts every step.
pub fn redeemer(b: &Bitcoin, sks: &SKs, their_pks: &PKs) -> (r: Result<Signature, Error>)
    requires
        b.wf(),
        sks.wf(),
        their_pks.wf(),
    ensures
        r matches Ok(sig) ==> {
            &&& sig.s.wf()
            &&& scalar_wf(
                refund_challenge(
                    *b,
                    their_pks.x@,
                    sks.x.pk@,
                    their_pks.r_refund@,
                    sks.r_refund.pk@,
                ),
            )
            &&& sig.s.val() == redeemer_refund_sig_val(*b, *their_pks, *sks)
        },
        r is Err <==> redeemer_backend_fails(*b, *their_pks, *sks),
        r is Err ==> r == Err::<Signature, Error>(Error::Backend),
{
    proof {
        reveal(redeemer_backend_fails);
    }
    let (fund_tx, key) = fund_transaction(b, &their_pks.x, &sks.x.pk)?;
    let ftxid = compute_txid(&fund_tx);
    let refund_tx = refund_transaction(b, &ftxid);
    let digest = compute_sighash(&refund_tx, &key.bytes, b.fund_output_amount());
    let r_agg = match point_add(&their_pks.r_refund, &sks.r_refund.pk) {
        Some(p) => p,
        None => {
            return Err(Error::Backend);
        },
    };
    let s = sign_partial(&sks.x.sk, &sks.r_refund.sk, &r_agg, &key, &digest)?;
    Ok(Signature { s })
}

} // verus!

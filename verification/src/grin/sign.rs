use vstd::prelude::*;
use crate::grin::action::{Fund, FunderActions, Refund};
use crate::grin::{
    alpha_x_agg, compute_fund_output_id, compute_kernel_digest, fund_digest, fund_output_id,
    redeem_digest, redeem_r_agg, refund_digest, Kernel, RedeemerSigs, KERNEL_FUND, KERNEL_REDEEM,
    KERNEL_REFUND,
};
use crate::keypair::{
    add_is_identity, be_val, group_order, parses_as_point, point_add, point_add_of, PKs, Point,
    SKs,
};
use crate::schnorr::{
    combine_sigs, partial_sig_val, partial_valid, sig_challenge, sign_fails, sign_partial,
    verify_backend_fails, verify_partial, EncryptedSignature,
};
use crate::setup_parameters::Grin;
use crate::Error;

verus! {

/// The funder's validity condition for the redeemer's three contributions:
/// plain partials on the fund and refund kernels, and an adaptor-encrypted
/// partial on the redeem kernel.
pub open spec fn redeemer_sigs_valid(
    a: Grin,
    funder: PKs,
    redeemer: PKs,
    y: Seq<u8>,
    sigs: RedeemerSigs,
) -> bool {
    let x_agg = alpha_x_agg(funder.x@, redeemer.x@);
    &&& partial_valid(
        sigs.s_fund.val(),
        redeemer.r_fund@,
        redeemer.x@,
        point_add_of(funder.r_fund@, redeemer.r_fund@),
        x_agg,
        fund_digest(a, x_agg),
    )
    &&& partial_valid(
        sigs.s_refund.val(),
        redeemer.r_refund@,
        redeemer.x@,
        point_add_of(funder.r_refund@, redeemer.r_refund@),
        x_agg,
        refund_digest(a, x_agg),
    )
    &&& partial_valid(
        sigs.redeem_encsig.s.val(),
        redeemer.r_redeem@,
        redeemer.x@,
        redeem_r_agg(funder.r_redeem@, redeemer.r_redeem@, y),
        x_agg,
        redeem_digest(a, x_agg),
    )
}

/// When the funder's checking phase fails for backend reasons: a key or the
/// adaptor point does not parse, an aggregation sums to the identity, or a
/// verification equation cannot be evaluated.
#[verifier::opaque]
pub open spec fn funder_pre_fails(a: Grin, sks: SKs, redeemer: PKs, y: Seq<u8>) -> bool {
    let x_agg = alpha_x_agg(sks.x.pk@, redeemer.x@);
    ||| (!parses_as_point(sks.x.pk@) || !parses_as_point(redeemer.x@) || add_is_identity(
        sks.x.pk@,
        redeemer.x@,
    ))
    ||| (!parses_as_point(sks.r_fund.pk@) || !parses_as_point(redeemer.r_fund@)
        || add_is_identity(sks.r_fund.pk@, redeemer.r_fund@))
    ||| verify_backend_fails(
        redeemer.r_fund@,
        redeemer.x@,
        point_add_of(sks.r_fund.pk@, redeemer.r_fund@),
        x_agg,
        fund_digest(a, x_agg),
    )
    ||| (!parses_as_point(sks.r_refund.pk@) || !parses_as_point(redeemer.r_refund@)
        || add_is_identity(sks.r_refund.pk@, redeemer.r_refund@))
    ||| verify_backend_fails(
        redeemer.r_refund@,
        redeemer.x@,
        point_add_of(sks.r_refund.pk@, redeemer.r_refund@),
        x_agg,
        refund_digest(a, x_agg),
    )
    ||| (!parses_as_point(sks.r_redeem.pk@) || !parses_as_point(redeemer.r_redeem@)
        || add_is_identity(sks.r_redeem.pk@, redeemer.r_redeem@))
    ||| (!parses_as_point(y) || add_is_identity(
        point_add_of(sks.r_redeem.pk@, redeemer.r_redeem@),
        y,
    ))
    ||| verify_backend_fails(
        redeemer.r_redeem@,
        redeemer.x@,
        redeem_r_agg(sks.r_redeem.pk@, redeemer.r_redeem@, y),
        x_agg,
        redeem_digest(a, x_agg),
    )
}

/// When the funder's signing phase fails: one of its own contributions fails,
/// or a combined kernel signature reduces to zero modulo the group order.
#[verifier::opaque]
pub open spec fn funder_post_fails(
    a: Grin,
    sks: SKs,
    redeemer: PKs,
    y: Seq<u8>,
    sigs: RedeemerSigs,
) -> bool {
    let x_agg = alpha_x_agg(sks.x.pk@, redeemer.x@);
    let c_fund = sig_challenge(
        point_add_of(sks.r_fund.pk@, redeemer.r_fund@),
        x_agg,
        fund_digest(a, x_agg),
    );
    let c_refund = sig_challenge(
        point_add_of(sks.r_refund.pk@, redeemer.r_refund@),
        x_agg,
        refund_digest(a, x_agg),
    );
    ||| sign_fails(
        sks.x.sk.val(),
        sks.r_fund.sk.val(),
        point_add_of(sks.r_fund.pk@, redeemer.r_fund@),
        x_agg,
        fund_digest(a, x_agg),
    )
    ||| (partial_sig_val(be_val(c_fund), sks.x.sk.val(), sks.r_fund.sk.val()) + sigs.s_fund.val())
        % group_order() == 0
    ||| sign_fails(
        sks.x.sk.val(),
        sks.r_refund.sk.val(),
        point_add_of(sks.r_refund.pk@, redeemer.r_refund@),
        x_agg,
        refund_digest(a, x_agg),
    )
    ||| (partial_sig_val(be_val(c_refund), sks.x.sk.val(), sks.r_refund.sk.val())
        + sigs.s_refund.val()) % group_order() == 0
    ||| sign_fails(
        sks.x.sk.val(),
        sks.r_redeem.sk.val(),
        redeem_r_agg(sks.r_redeem.pk@, redeemer.r_redeem@, y),
        x_agg,
        redeem_digest(a, x_agg),
    )
}

/// The funder checks the redeemer's three contributions, co-signs the fund
/// and refund kernels, and produces its own adaptor-encrypted redeem
/// contribution. Rejects, with `AlphaSigInvalid`, exactly the contribution
/// bundles that do not verify, and succeeds exactly when they do and the
/// backend accepts every step.
#[verifier::rlimit(100)]
#[verifier::spinoff_prover]
pub fn funder(
    a: &Grin,
    sks: &SKs,
    their_pks: &PKs,
    y_pk: &Point,
    sigs: &RedeemerSigs,
) -> (r: Result<(FunderActions, EncryptedSignature), Error>)
    requires
        sks.wf(),
        their_pks.wf(),
        y_pk.wf(),
        sigs.wf(),
    ensures
        r matches Ok(t) ==> {
            let x_agg = alpha_x_agg(sks.x.pk@, their_pks.x@);
            &&& redeemer_sigs_valid(*a, sks.pks(), *their_pks, y_pk@, *sigs)
            &&& t.0.fund.kernel.wf()
            &&& t.0.fund.kernel.fee == a.fee
            &&& t.0.fund.kernel.lock_height == 0
            &&& t.0.fund.kernel.excess@ == x_agg
            &&& t.0.fund.kernel.r_agg@ == point_add_of(sks.r_fund.pk@, their_pks.r_fund@)
            &&& t.0.fund.kernel.digest@ == fund_digest(*a, x_agg)
            &&& t.0.fund.kernel.s.val() == (partial_sig_val(
                be_val(
                    sig_challenge(
                        point_add_of(sks.r_fund.pk@, their_pks.r_fund@),
                        x_agg,
                        fund_digest(*a, x_agg),
                    ),
                ),
                sks.x.sk.val(),
                sks.r_fund.sk.val(),
            ) + sigs.s_fund.val()) % group_order()
            &&& t.0.refund.kernel.wf()
            &&& t.0.refund.kernel.fee == a.fee
            &&& t.0.refund.kernel.lock_height == a.expiry
            &&& t.0.refund.kernel.excess@ == x_agg
            &&& t.0.refund.kernel.digest@ == refund_digest(*a, x_agg)
            &&& t.0.refund.kernel.s.val() == (partial_sig_val(
                be_val(
                    sig_challenge(
                        point_add_of(sks.r_refund.pk@, their_pks.r_refund@),
                        x_agg,
                        refund_digest(*a, x_agg),
                    ),
                ),
                sks.x.sk.val(),
                sks.r_refund.sk.val(),
            ) + sigs.s_refund.val()) % group_order()
            &&& t.0.refund.spends@ == fund_output_id(a.amount, x_agg)
            &&& t.1.s.wf()
            &&& t.1.s.val() == partial_sig_val(
                be_val(
                    sig_challenge(
                        redeem_r_agg(sks.r_redeem.pk@, their_pks.r_redeem@, y_pk@),
                        x_agg,
                        redeem_digest(*a, x_agg),
                    ),
                ),
                sks.x.sk.val(),
                sks.r_redeem.sk.val(),
            )
        },
        r is Ok <==> !funder_pre_fails(*a, *sks, *their_pks, y_pk@) && redeemer_sigs_valid(
            *a,
            sks.pks(),
            *their_pks,
            y_pk@,
            *sigs,
        ) && !funder_post_fails(*a, *sks, *their_pks, y_pk@, *sigs),
        r == Err::<(FunderActions, EncryptedSignature), Error>(Error::AlphaSigInvalid)
            <==> !funder_pre_fails(*a, *sks, *their_pks, y_pk@) && !redeemer_sigs_valid(
            *a,
            sks.pks(),
            *their_pks,
            y_pk@,
            *sigs,
        ),
        r is Err ==> r == Err::<(FunderActions, EncryptedSignature), Error>(Error::AlphaSigInvalid)
            || r == Err::<(FunderActions, EncryptedSignature), Error>(Error::Backend),
{
    proof {
        reveal(funder_pre_fails);
        reveal(funder_post_fails);
    }
    let x_agg = match point_add(&sks.x.pk, &their_pks.x) {
        Some(p) => p,
        None => {
            return Err(Error::Backend);
        },
    };
    let d_fund = compute_kernel_digest(KERNEL_FUND, a.fee, 0, &x_agg);
    let r_agg_fund = match point_add(&sks.r_fund.pk, &their_pks.r_fund) {
        Some(p) => p,
        None => {
            return Err(Error::Backend);
        },
    };
    let ok_fund = verify_partial(
        &sigs.s_fund,
        &their_pks.r_fund,
        &their_pks.x,
        &r_agg_fund,
        &x_agg,
        &d_fund,
    )?;
    let d_refund = compute_kernel_digest(KERNEL_REFUND, a.fee, a.expiry, &x_agg);
    let r_agg_refund = match point_add(&sks.r_refund.pk, &their_pks.r_refund) {
        Some(p) => p,
        None => {
            return Err(Error::Backend);
        },
    };
    let ok_refund = verify_partial(
        &sigs.s_refund,
        &their_pks.r_refund,
        &their_pks.x,
        &r_agg_refund,
        &x_agg,
        &d_refund,
    )?;
    let d_redeem = compute_kernel_digest(KERNEL_REDEEM, a.fee, 0, &x_agg);
    let r_sum = match point_add(&sks.r_redeem.pk, &their_pks.r_redeem) {
        Some(p) => p,
        None => {
            return Err(Error::Backend);
        },
    };
    let r_agg_y = match point_add(&r_sum, y_pk) {
        Some(p) => p,
        None => {
            return Err(Error::Backend);
        },
    };
    let ok_redeem = verify_partial(
        &sigs.redeem_encsig.s,
        &their_pks.r_redeem,
        &their_pks.x,
        &r_agg_y,
        &x_agg,
        &d_redeem,
    )?;
    if !(ok_fund && ok_refund && ok_redeem) {
        return Err(Error::AlphaSigInvalid);
    }
    let s_fund_mine = sign_partial(&sks.x.sk, &sks.r_fund.sk, &r_agg_fund, &x_agg, &d_fund)?;
    let s_fund = combine_sigs(&s_fund_mine, &sigs.s_fund)?;
    let s_refund_mine = sign_partial(&sks.x.sk, &sks.r_refund.sk, &r_agg_refund, &x_agg, &d_refund)?;
    let s_refund = combine_sigs(&s_refund_mine, &sigs.s_refund)?;
    let s_redeem_enc = sign_partial(&sks.x.sk, &sks.r_redeem.sk, &r_agg_y, &x_agg, &d_redeem)?;
    let spends = compute_fund_output_id(a.amount, &x_agg);
    let fund_kernel = Kernel {
        fee: a.fee,
        lock_height: 0,
        excess: x_agg.clone(),
        r_agg: r_agg_fund,
        s: s_fund,
        digest: d_fund,
    };
    let refund_kernel = Kernel {
        fee: a.fee,
        lock_height: a.expiry,
        excess: x_agg,
        r_agg: r_agg_refund,
        s: s_refund,
        digest: d_refund,
    };
    Ok(
        (
            FunderActions {
                fund: Fund { kernel: fund_kernel },
                refund: Refund { kernel: refund_kernel, spends },
            },
            EncryptedSignature { s: s_redeem_enc },
        ),
    )
}

} // verus!

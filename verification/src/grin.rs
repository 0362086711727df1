pub mod action;
pub mod bob;
pub mod sign;

use vstd::prelude::*;
use crate::digest::{sha256, sha256_of};
use crate::enc::{push_u64_le, u64_le};
use crate::keypair::{append_bytes, point_add_of, Point, Scalar};
use crate::schnorr::{partial_valid, sig_challenge, verify_partial, EncryptedSignature};
use crate::setup_parameters::Grin;
use crate::Error;

verus! {

/// Kernel kind tags: the funding kernel, the timelocked refund kernel and the
/// redeem kernel.
pub const KERNEL_FUND: u8 = 0;

pub const KERNEL_REFUND: u8 = 1;

pub const KERNEL_REDEEM: u8 = 2;

/// The aggregate signing key of the 2-of-2 Grin output: funder's key plus
/// redeemer's key. It is also the kernel excess both sign against.
pub open spec fn alpha_x_agg(xf: Seq<u8>, xr: Seq<u8>) -> Seq<u8> {
    point_add_of(xf, xr)
}

/// What a kernel commits to: its kind, the fee, the lock height and the
/// aggregate excess.
pub open spec fn kernel_msg(kind: u8, fee: u64, lock_height: u64, x_agg: Seq<u8>) -> Seq<u8> {
    seq![kind] + u64_le(fee) + u64_le(lock_height) + x_agg
}

/// The digest both parties sign for a kernel.
pub open spec fn kernel_digest(kind: u8, fee: u64, lock_height: u64, x_agg: Seq<u8>) -> Seq<u8> {
    sha256_of(kernel_msg(kind, fee, lock_height, x_agg))
}

/// The digest of the fund kernel: no lock height.
pub open spec fn fund_digest(a: Grin, x_agg: Seq<u8>) -> Seq<u8> {
    kernel_digest(KERNEL_FUND, a.fee, 0, x_agg)
}

/// The digest of the refund kernel: locked until the expiry height.
pub open spec fn refund_digest(a: Grin, x_agg: Seq<u8>) -> Seq<u8> {
    kernel_digest(KERNEL_REFUND, a.fee, a.expiry, x_agg)
}

/// The digest of the redeem kernel: no lock height.
pub open spec fn redeem_digest(a: Grin, x_agg: Seq<u8>) -> Seq<u8> {
    kernel_digest(KERNEL_REDEEM, a.fee, 0, x_agg)
}

/// The identifier of the 2-of-2 output created by the fund transaction; the
/// refund and redeem kernels both spend exactly this output.
pub open spec fn fund_output_id(amount: u64, x_agg: Seq<u8>) -> Seq<u8> {
    sha256_of(u64_le(amount) + x_agg)
}

/// The aggregate nonce of the redeem ceremony: both nonce points plus the
/// adaptor point, so every redeem signature is encrypted under `Y`.
pub open spec fn redeem_r_agg(rf: Seq<u8>, rr: Seq<u8>, y: Seq<u8>) -> Seq<u8> {
    point_add_of(point_add_of(rf, rr), y)
}

/// The challenge of one kernel ceremony.
pub open spec fn kernel_challenge(
    kind: u8,
    a: Grin,
    lock_height: u64,
    r_agg: Seq<u8>,
    x_agg: Seq<u8>,
) -> Seq<u8> {
    sig_challenge(r_agg, x_agg, kernel_digest(kind, a.fee, lock_height, x_agg))
}

/// Computes the digest of a kernel.
pub fn compute_kernel_digest(kind: u8, fee: u64, lock_height: u64, x_agg: &Point) -> (r: Vec<u8>)
    ensures
        r@ == kernel_digest(kind, fee, lock_height, x_agg@),
        r@.len() == 32,
{
    let mut data: Vec<u8> = Vec::new();
    data.push(kind);
    push_u64_le(&mut data, fee);
    push_u64_le(&mut data, lock_height);
    append_bytes(&mut data, &x_agg.bytes);
    assert(data@ =~= kernel_msg(kind, fee, lock_height, x_agg@));
    sha256(&data)
}

/// Computes the identifier of the 2-of-2 fund output.
pub fn compute_fund_output_id(amount: u64, x_agg: &Point) -> (r: Vec<u8>)
    ensures
        r@ == fund_output_id(amount, x_agg@),
        r@.len() == 32,
{
    let mut data: Vec<u8> = Vec::new();
    push_u64_le(&mut data, amount);
    append_bytes(&mut data, &x_agg.bytes);
    assert(data@ =~= u64_le(amount) + x_agg@);
    sha256(&data)
}

/// The redeemer's contributions sent in the third message: plain partial
/// signatures for the fund and refund kernels, and an adaptor-encrypted one
/// for the redeem kernel.
pub struct RedeemerSigs {
    pub s_fund: Scalar,
    pub s_refund: Scalar,
    pub redeem_encsig: EncryptedSignature,
}

impl RedeemerSigs {
    pub open spec fn wf(&self) -> bool {
        &&& self.s_fund.wf()
        &&& self.s_refund.wf()
        &&& self.redeem_encsig.s.wf()
    }
}

/// A fully co-signed Grin kernel.
pub struct Kernel {
    pub fee: u64,
    pub lock_height: u64,
    pub excess: Point,
    pub r_agg: Point,
    pub s: Scalar,
    pub digest: Vec<u8>,
}

impl Kernel {
    pub open spec fn wf(&self) -> bool {
        &&& self.excess.wf()
        &&& self.r_agg.wf()
        &&& self.s.wf()
    }

    /// Checks the aggregate kernel signature: `s*G == R_agg + c*excess`.
    pub fn verify(&self) -> (r: Result<bool, Error>)
        requires
            self.wf(),
        ensures
            r matches Ok(b) ==> b == partial_valid(
                self.s.val(),
                self.r_agg@,
                self.excess@,
                self.r_agg@,
                self.excess@,
                self.digest@,
            ),
            r is Err ==> r == Err::<bool, Error>(Error::Backend),
    {
        verify_partial(&self.s, &self.r_agg, &self.excess, &self.r_agg, &self.excess, &self.digest)
    }
}

/// Both spending kernels of the alpha chain consume the same 2-of-2 output:
/// the one created by the fund transaction. Chain consensus lets only one
/// spend of it confirm, which makes refund and redeem mutually exclusive.
pub proof fn lemma_alpha_refund_redeem_exclusive(
    amount: u64,
    x_agg: Seq<u8>,
    refund_spends: Seq<u8>,
    redeem_spends: Seq<u8>,
)
    requires
        refund_spends == fund_output_id(amount, x_agg),
        redeem_spends == fund_output_id(amount, x_agg),
    ensures
        refund_spends == redeem_spends,
{
}

} // verus!

pub mod action;
pub mod bob;
pub mod event;
pub mod sign;

use vstd::prelude::*;
use crate::digest::{sha256, sha256_of};
use crate::enc::{push_u32_le, push_u64_le, u32_le, u64_le};
use crate::keypair::{
    add_is_identity, append_bytes, parses_as_point, point_add, point_add_of, Point, Scalar,
};
use crate::schnorr::sig_challenge;
use crate::setup_parameters::Bitcoin;
use crate::Error;

pub use crate::schnorr::EncryptedSignature;

verus! {

/// A reference to a spendable transaction output.
pub struct OutPoint {
    pub txid: Vec<u8>,
    pub vout: u32,
}

impl Clone for OutPoint {
    fn clone(&self) -> (r: Self)
        ensures
            r.txid@ == self.txid@,
            r.vout == self.vout,
    {
        let txid = self.txid.clone();
        assert(txid@ =~= self.txid@);
        OutPoint { txid, vout: self.vout }
    }
}

/// A script that an output pays to.
pub struct Address {
    pub script: Vec<u8>,
}

impl Clone for Address {
    fn clone(&self) -> (r: Self)
        ensures
            r.script@ == self.script@,
    {
        let script = self.script.clone();
        assert(script@ =~= self.script@);
        Address { script }
    }
}

/// One party's contribution to a 2-of-2 signature.
pub struct Signature {
    pub s: Scalar,
}

impl Clone for Signature {
    fn clone(&self) -> (r: Self)
        ensures
            r.s@ == self.s@,
    {
        Signature { s: self.s.clone() }
    }
}

/// The canonical encoding of an outpoint: the referenced txid and the output
/// index.
pub open spec fn outpoint_enc(txid: Seq<u8>, vout: u32) -> Seq<u8> {
    txid + u32_le(vout)
}

/// The canonical encoding of a list of wallet inputs, in order.
pub open spec fn inputs_enc(s: Seq<(OutPoint, u64)>) -> Seq<u8>
    decreases s.len(),
{
    if s.len() == 0 {
        Seq::empty()
    } else {
        inputs_enc(s.drop_last()) + outpoint_enc(s.last().0.txid@, s.last().0.vout)
    }
}

/// The canonical encoding of an output: its value and the script it pays to.
pub open spec fn output_enc(value: u64, script: Seq<u8>) -> Seq<u8> {
    u64_le(value) + script
}

/// The combined 2-of-2 key of the fund output: the funder's key plus the
/// redeemer's key. Its encoding is also the fund output's script.
pub open spec fn beta_x_agg(xf: Seq<u8>, xr: Seq<u8>) -> Seq<u8> {
    point_add_of(xf, xr)
}

/// The fund transaction: no locktime, spends the funder's wallet inputs into
/// the 2-of-2 output worth `asset + fee` and the change output.
pub open spec fn fund_tx_enc(b: Bitcoin, fund_script: Seq<u8>) -> Seq<u8> {
    u32_le(0) + inputs_enc(b.inputs@) + output_enc((b.asset + b.fee) as u64, fund_script)
        + output_enc(b.change.1, b.change.0.script@)
}

/// The identifier of a transaction: the double SHA-256 of its encoding.
pub open spec fn tx_id(tx_enc: Seq<u8>) -> Seq<u8> {
    sha256_of(sha256_of(tx_enc))
}

/// The refund transaction: locked until the expiry, spends the fund output
/// and pays the asset back to the refund address.
pub open spec fn refund_tx_enc(b: Bitcoin, fund_txid: Seq<u8>) -> Seq<u8> {
    u32_le(b.expiry) + outpoint_enc(fund_txid, 0) + output_enc(b.asset, b.refund_address.script@)
}

/// The redeem transaction: no locktime, spends the fund output and pays the
/// asset to the redeem address.
pub open spec fn redeem_tx_enc(b: Bitcoin, fund_txid: Seq<u8>) -> Seq<u8> {
    u32_le(0) + outpoint_enc(fund_txid, 0) + output_enc(b.asset, b.redeem_address.script@)
}

/// The digest a signature of the fund output commits to: the spending
/// transaction, the script of the spent output and its value, hashed twice.
pub open spec fn sighash(tx_enc: Seq<u8>, script: Seq<u8>, value: u64) -> Seq<u8> {
    sha256_of(sha256_of(tx_enc + script + u64_le(value)))
}

/// The digest both parties sign for the refund transaction.
pub open spec fn refund_digest(b: Bitcoin, xf: Seq<u8>, xr: Seq<u8>) -> Seq<u8> {
    sighash(
        refund_tx_enc(b, tx_id(fund_tx_enc(b, beta_x_agg(xf, xr)))),
        beta_x_agg(xf, xr),
        (b.asset + b.fee) as u64,
    )
}

/// The digest both parties sign for the redeem transaction.
pub open spec fn redeem_digest(b: Bitcoin, xf: Seq<u8>, xr: Seq<u8>) -> Seq<u8> {
    sighash(
        redeem_tx_enc(b, tx_id(fund_tx_enc(b, beta_x_agg(xf, xr)))),
        beta_x_agg(xf, xr),
        (b.asset + b.fee) as u64,
    )
}

/// The aggregate nonce of the refund ceremony: funder's nonce point plus
/// redeemer's nonce point.
pub open spec fn refund_r_agg(rf: Seq<u8>, rr: Seq<u8>) -> Seq<u8> {
    point_add_of(rf, rr)
}

/// The aggregate nonce of the redeem ceremony: both parties' nonce points
/// plus the adaptor point, so every redeem signature is encrypted under `Y`.
pub open spec fn redeem_r_agg(rf: Seq<u8>, rr: Seq<u8>, y: Seq<u8>) -> Seq<u8> {
    point_add_of(point_add_of(rf, rr), y)
}

/// The challenge of the refund ceremony.
pub open spec fn refund_challenge(
    b: Bitcoin,
    xf: Seq<u8>,
    xr: Seq<u8>,
    rf: Seq<u8>,
    rr: Seq<u8>,
) -> Seq<u8> {
    sig_challenge(refund_r_agg(rf, rr), beta_x_agg(xf, xr), refund_digest(b, xf, xr))
}

/// The challenge of the redeem ceremony, under the adaptor point `y`.
pub open spec fn redeem_challenge(
    b: Bitcoin,
    xf: Seq<u8>,
    xr: Seq<u8>,
    rf: Seq<u8>,
    rr: Seq<u8>,
    y: Seq<u8>,
) -> Seq<u8> {
    sig_challenge(redeem_r_agg(rf, rr, y), beta_x_agg(xf, xr), redeem_digest(b, xf, xr))
}

/// When building the fund transaction fails: a party key does not parse, or
/// the two keys sum to the identity.
pub open spec fn fund_tx_fails(xf: Seq<u8>, xr: Seq<u8>) -> bool {
    ||| !parses_as_point(xf)
    ||| !parses_as_point(xr)
    ||| add_is_identity(xf, xr)
}

/// Serializes the wallet inputs in order.
pub fn encode_inputs(inputs: &Vec<(OutPoint, u64)>) -> (r: Vec<u8>)
    ensures
        r@ == inputs_enc(inputs@),
{
    let mut out: Vec<u8> = Vec::new();
    let mut i: usize = 0;
    while i < inputs.len()
        invariant
            0 <= i <= inputs.len(),
            out@ == inputs_enc(inputs@.take(i as int)),
        decreases inputs.len() - i,
    {
        assert(inputs@.take(i + 1 as int).drop_last() =~= inputs@.take(i as int));
        append_bytes(&mut out, &inputs[i].0.txid);
        push_u32_le(&mut out, inputs[i].0.vout);
        assert(out@ =~= inputs_enc(inputs@.take(i + 1 as int)));
        i = i + 1;
    }
    assert(inputs@.take(inputs@.len() as int) =~= inputs@);
    out
}

/// Builds the fund transaction and its output script, the combined 2-of-2
/// key of the two parties' signing keys.
pub fn fund_transaction(b: &Bitcoin, x_funder: &Point, x_redeemer: &Point) -> (r: Result<
    (Vec<u8>, Point),
    Error,
>)
    requires
        b.wf(),
        x_funder.wf(),
        x_redeemer.wf(),
    ensures
        r matches Ok(t) ==> t.1.wf() && t.1@ == beta_x_agg(x_funder@, x_redeemer@) && t.0@
            == fund_tx_enc(*b, t.1@) && parses_as_point(t.1@),
        r is Err <==> fund_tx_fails(x_funder@, x_redeemer@),
        r is Err ==> r == Err::<(Vec<u8>, Point), Error>(Error::Backend),
{
    let key = match point_add(x_funder, x_redeemer) {
        Some(k) => k,
        None => {
            return Err(Error::Backend);
        },
    };
    let mut tx: Vec<u8> = Vec::new();
    push_u32_le(&mut tx, 0);
    let ins = encode_inputs(&b.inputs);
    append_bytes(&mut tx, &ins);
    push_u64_le(&mut tx, b.asset + b.fee);
    append_bytes(&mut tx, &key.bytes);
    push_u64_le(&mut tx, b.change.1);
    append_bytes(&mut tx, &b.change.0.script);
    assert(tx@ =~= fund_tx_enc(*b, key@));
    Ok((tx, key))
}

/// The identifier of a serialized transaction: its double SHA-256 digest.
pub fn compute_txid(tx: &Vec<u8>) -> (r: Vec<u8>)
    ensures
        r@ == tx_id(tx@),
        r@.len() == 32,
{
    let once = sha256(tx);
    sha256(&once)
}

/// Builds the refund transaction spending the fund output.
pub fn refund_transaction(b: &Bitcoin, fund_txid: &Vec<u8>) -> (r: Vec<u8>)
    ensures
        r@ == refund_tx_enc(*b, fund_txid@),
{
    let mut tx: Vec<u8> = Vec::new();
    push_u32_le(&mut tx, b.expiry);
    append_bytes(&mut tx, fund_txid);
    push_u32_le(&mut tx, 0);
    push_u64_le(&mut tx, b.asset);
    append_bytes(&mut tx, &b.refund_address.script);
    assert(tx@ =~= refund_tx_enc(*b, fund_txid@));
    tx
}

/// Builds the redeem transaction spending the fund output.
pub fn redeem_transaction(b: &Bitcoin, fund_txid: &Vec<u8>) -> (r: Vec<u8>)
    ensures
        r@ == redeem_tx_enc(*b, fund_txid@),
{
    let mut tx: Vec<u8> = Vec::new();
    push_u32_le(&mut tx, 0);
    append_bytes(&mut tx, fund_txid);
    push_u32_le(&mut tx, 0);
    push_u64_le(&mut tx, b.asset);
    append_bytes(&mut tx, &b.redeem_address.script);
    assert(tx@ =~= redeem_tx_enc(*b, fund_txid@));
    tx
}

/// The digest signed over a spending transaction.
pub fn compute_sighash(tx: &Vec<u8>, script: &Vec<u8>, value: u64) -> (r: Vec<u8>)
    ensures
        r@ == sighash(tx@, script@, value),
        r@.len() == 32,
{
    let mut data: Vec<u8> = Vec::new();
    append_bytes(&mut data, tx);
    append_bytes(&mut data, script);
    push_u64_le(&mut data, value);
    assert(data@ =~= tx@ + script@ + u64_le(value));
    let once = sha256(&data);
    sha256(&once)
}

/// Both spending transactions of the beta chain consume the same outpoint:
/// the first output of the fund transaction. On-chain at most one of them can
/// confirm, which makes refund and redeem mutually exclusive.
pub proof fn lemma_beta_refund_redeem_exclusive(b: Bitcoin, fund_txid: Seq<u8>)
    requires
        fund_txid.len() == 32,
    ensures
        refund_tx_enc(b, fund_txid).subrange(4, 40) == redeem_tx_enc(b, fund_txid).subrange(
            4,
            40,
        ),
        refund_tx_enc(b, fund_txid).subrange(4, 40) == outpoint_enc(fund_txid, 0),
{
    assert(refund_tx_enc(b, fund_txid).subrange(4, 40) =~= outpoint_enc(fund_txid, 0));
    assert(redeem_tx_enc(b, fund_txid).subrange(4, 40) =~= outpoint_enc(fund_txid, 0));
}

} // verus!

use vstd::prelude::*;
use crate::bitcoin::{
    beta_x_agg, compute_sighash, compute_txid, fund_transaction, fund_tx_enc, fund_tx_fails,
    redeem_digest, redeem_transaction, redeem_tx_enc, tx_id,
};
use crate::keypair::{PKs, Point};
use crate::setup_parameters::Bitcoin;
use crate::Error;

verus! {

/// What a watcher needs to recognise the redeem transaction on the Bitcoin
/// chain and to pull the funder's signature out of its witness: the txid, the
/// funder's key, and the digest the witness signatures verify against.
pub struct Redeem {
    pub txid: Vec<u8>,
    pub funder_pk: Point,
    pub message_hash: Vec<u8>,
}

impl Redeem {
    pub fn new(b: &Bitcoin, redeemer_pks: &PKs, funder_pks: &PKs) -> (r: Result<Redeem, Error>)
        requires
            b.wf(),
            redeemer_pks.wf(),
            funder_pks.wf(),
        ensures
            r matches Ok(ev) ==> {
                &&& ev.txid@ == tx_id(
                    redeem_tx_enc(
                        *b,
                        tx_id(fund_tx_enc(*b, beta_x_agg(funder_pks.x@, redeemer_pks.x@))),
                    ),
                )
                &&& ev.funder_pk@ == funder_pks.x@
                &&& ev.message_hash@ == redeem_digest(*b, funder_pks.x@, redeemer_pks.x@)
            },
            r is Err <==> fund_tx_fails(funder_pks.x@, redeemer_pks.x@),
            r is Err ==> r == Err::<Redeem, Error>(Error::Backend),
    {
        let (fund_tx, key) = fund_transaction(b, &funder_pks.x, &redeemer_pks.x)?;
        let ftxid = compute_txid(&fund_tx);
        let redeem_tx = redeem_transaction(b, &ftxid);
        let txid = compute_txid(&redeem_tx);
        let message_hash = compute_sighash(&redeem_tx, &key.bytes, b.fund_output_amount());
        Ok(Redeem { txid, funder_pk: funder_pks.x.clone(), message_hash })
    }
}

} // verus!

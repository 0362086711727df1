use vstd::prelude::*;
use crate::bitcoin::{Address, OutPoint};
use crate::Error;

verus! {

/// The Grin funder's wallet-side keys: the key blinding the input being
/// spent into the swap and the key for the timelocked refund output. They are
/// consumed by the wallet when it assembles the transaction bodies around the
/// co-signed kernels.
pub struct GrinFunderSecret {
    pub fund_input_key: crate::keypair::KeyPair,
    pub refund_output_key: crate::keypair::KeyPair,
}

impl GrinFunderSecret {
    pub open spec fn wf(&self) -> bool {
        &&& self.fund_input_key.wf()
        &&& self.refund_output_key.wf()
    }

    /// Fresh wallet keys from the CSPRNG.
    pub fn new_random() -> (r: Result<GrinFunderSecret, Error>)
        ensures
            r matches Ok(s) ==> s.wf(),
            r is Err ==> r == Err::<GrinFunderSecret, Error>(Error::Backend),
    {
        let fund_input_key = crate::keypair::KeyPair::new_random()?;
        let refund_output_key = crate::keypair::KeyPair::new_random()?;
        Ok(GrinFunderSecret { fund_input_key, refund_output_key })
    }
}

/// The immutable inputs shared by both parties before the protocol starts.
pub struct SetupParameters {
    pub alpha: Grin,
    pub beta: Bitcoin,
}

/// The Grin side of the offer: the amount swapped, one fee used by every
/// kernel, and the block height after which the refund kernel is valid.
pub struct Grin {
    pub amount: u64,
    pub fee: u64,
    pub expiry: u64,
}

impl Clone for Grin {
    fn clone(&self) -> (r: Self)
        ensures
            r == *self,
    {
        Grin { amount: self.amount, fee: self.fee, expiry: self.expiry }
    }
}

/// The value of a sequence of spendable outputs.
pub open spec fn sum_inputs(s: Seq<(OutPoint, u64)>) -> int
    decreases s.len(),
{
    if s.len() == 0 {
        0
    } else {
        sum_inputs(s.drop_last()) + s.last().1
    }
}

/// Every prefix of a sequence of outputs is worth at most the whole.
pub proof fn lemma_sum_inputs_prefix(s: Seq<(OutPoint, u64)>, i: int)
    requires
        0 <= i <= s.len(),
    ensures
        sum_inputs(s.take(i)) <= sum_inputs(s),
    decreases s.len() - i,
{
    if i == s.len() {
        assert(s.take(i) =~= s);
    } else {
        assert(s.take(i + 1).drop_last() =~= s.take(i));
        assert(sum_inputs(s.take(i + 1)) == sum_inputs(s.take(i)) + s[i].1);
        lemma_sum_inputs_prefix(s, i + 1);
    }
}

/// The Bitcoin side of the offer: the asset amount, one fee per transaction,
/// the absolute locktime of the refund, the funder's wallet inputs, and the
/// addresses the transactions pay to.
pub struct Bitcoin {
    pub asset: u64,
    pub fee: u64,
    pub expiry: u32,
    pub inputs: Vec<(OutPoint, u64)>,
    pub change: (Address, u64),
    pub refund_address: Address,
    pub redeem_address: Address,
}

impl Bitcoin {
    /// The construction invariant: the inputs cover the asset, one fee for
    /// the fund transaction, one for the redeem-or-refund transaction, and
    /// the change.
    pub open spec fn wf(&self) -> bool {
        &&& self.asset + 2 * self.fee + self.change.1 <= u64::MAX
        &&& sum_inputs(self.inputs@) == self.asset + 2 * self.fee + self.change.1
    }

    /// Builds the Bitcoin parameters, checking that the inputs cover
    /// `asset + 2*fee`; what remains becomes the change. Fails with
    /// `InvalidAmounts` exactly when they do not (or when a sum cannot be
    /// represented in 64 bits).
    pub fn new(
        asset: u64,
        fee: u64,
        expiry: u32,
        inputs: Vec<(OutPoint, u64)>,
        change_address: Address,
        refund_address: Address,
        redeem_address: Address,
    ) -> (r: Result<Bitcoin, Error>)
        ensures
            r matches Ok(b) ==> {
                &&& b.wf()
                &&& b.asset == asset
                &&& b.fee == fee
                &&& b.expiry == expiry
                &&& b.inputs == inputs
                &&& b.change.0 == change_address
                &&& b.change.1 == sum_inputs(inputs@) - (asset + 2 * fee)
                &&& b.refund_address == refund_address
                &&& b.redeem_address == redeem_address
            },
            r is Ok <==> asset + 2 * fee <= sum_inputs(inputs@) <= u64::MAX,
            r is Err ==> r == Err::<Bitcoin, Error>(Error::InvalidAmounts),
    {
        let ghost all = inputs@;
        let mut total: u64 = 0;
        let mut i: usize = 0;
        while i < inputs.len()
            invariant
                0 <= i <= inputs.len(),
                inputs@ == all,
                total == sum_inputs(all.take(i as int)),
            decreases inputs.len() - i,
        {
            let v = inputs[i].1;
            assert(all.take(i + 1 as int).drop_last() =~= all.take(i as int));
            assert(sum_inputs(all.take(i + 1 as int)) == total + v);
            total = match total.checked_add(v) {
                Some(t) => t,
                None => {
                    proof {
                        lemma_sum_inputs_prefix(all, i + 1 as int);
                    }
                    return Err(Error::InvalidAmounts);
                },
            };
            i = i + 1;
        }
        assert(all.take(inputs.len() as int) =~= all);
        let needed = match asset.checked_add(fee) {
            Some(t) => t,
            None => {
                return Err(Error::InvalidAmounts);
            },
        };
        let needed = match needed.checked_add(fee) {
            Some(t) => t,
            None => {
                return Err(Error::InvalidAmounts);
            },
        };
        let change_amount = match total.checked_sub(needed) {
            Some(c) => c,
            None => {
                return Err(Error::InvalidAmounts);
            },
        };
        Ok(Bitcoin {
            asset,
            fee,
            expiry,
            inputs,
            change: (change_address, change_amount),
            refund_address,
            redeem_address,
        })
    }

    /// The value locked in the 2-of-2 fund output: the asset plus the fee
    /// that the later redeem-or-refund transaction will spend.
    pub fn fund_output_amount(&self) -> (r: u64)
        requires
            self.wf(),
        ensures
            r == self.asset + self.fee,
    {
        self.asset + self.fee
    }

    /// The value paid out by the redeem transaction.
    pub fn redeem_output_amount(&self) -> (r: u64)
        ensures
            r == self.asset,
    {
        self.asset
    }
}

} // verus!

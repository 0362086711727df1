use vstd::prelude::*;
use crate::grin::Kernel;

verus! {

/// The co-signed fund kernel, ready to publish together with the wallet's
/// transaction body.
pub struct Fund {
    pub kernel: Kernel,
}

/// The co-signed refund kernel, valid from the expiry height on; spends the
/// 2-of-2 fund output back to the funder.
pub struct Refund {
    pub kernel: Kernel,
    pub spends: Vec<u8>,
}

/// The co-signed redeem kernel; spends the 2-of-2 fund output to the
/// redeemer. Assembled only after the adaptor secret is known.
pub struct Redeem {
    pub kernel: Kernel,
    pub spends: Vec<u8>,
}

/// The funder's pair of action handles after the third message.
pub struct FunderActions {
    pub fund: Fund,
    pub refund: Refund,
}

} // verus!

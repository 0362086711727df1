pub mod alice;
pub mod bitcoin;
pub mod bob;
pub mod commit;
pub mod digest;
pub mod dleq;
pub mod enc;
pub mod grin;
pub mod keypair;
pub mod messages;
pub mod schnorr;
pub mod setup_parameters;

use vstd::prelude::*;

verus! {

/// The error taxonomy of the swap protocol. Every failure is fatal to the
/// swap instance: the protocol has no retry path.
#[derive(Clone, Copy, Debug, PartialEq, Eq, Structural)]
pub enum Error {
    /// The Bitcoin inputs do not cover asset, fees and change.
    InvalidAmounts,
    /// An opening does not hash to the committed value.
    CommitmentMismatch,
    /// A discrete-log-equality proof failed to verify.
    DleqInvalid,
    /// The peer's partial signatures on the alpha chain failed verification.
    AlphaSigInvalid,
    /// The peer's partial signatures on the beta chain failed verification.
    BetaSigInvalid,
    /// A decrypted adaptor signature does not verify under the expected key.
    AdaptorDecryptMismatch,
    /// The range proof for the alpha output failed to verify. The core
    /// carries the range-proof rounds as opaque blobs for the wallet, which
    /// verifies them; the variant is reserved for that collaborator's report.
    RangeProofInvalid,
    /// The curve backend refused an operation (a degenerate scalar or point).
    Backend,
}

} // verus!

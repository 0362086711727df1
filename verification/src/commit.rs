use vstd::prelude::*;
use crate::digest::{sha256, sha256_of};
use crate::keypair::{append_bytes, bytes_eq, pks_enc, random_bytes, PKs, Point};
use crate::Error;

verus! {

/// The preimage of a commitment: both public-key bundles, the adaptor point
/// and the hiding nonce, concatenated in fixed order.
pub open spec fn commit_msg(pks_alpha: PKs, pks_beta: PKs, y: Seq<u8>, nonce: Seq<u8>) -> Seq<u8> {
    pks_enc(pks_alpha) + pks_enc(pks_beta) + y + nonce
}

/// A binding and hiding commitment to two public-key bundles and the adaptor
/// point: the SHA-256 digest of their encodings and a 32-byte random nonce.
pub struct Commitment {
    pub bytes: Vec<u8>,
}

impl Commitment {
    pub open spec fn wf(&self) -> bool {
        self.bytes@.len() == 32
    }
}

impl Clone for Commitment {
    fn clone(&self) -> (r: Self)
        ensures
            r.bytes@ == self.bytes@,
    {
        let bytes = self.bytes.clone();
        assert(bytes@ =~= self.bytes@);
        Commitment { bytes }
    }
}

/// The preimage of a commitment, kept by the committing party and later sent
/// to the receiver.
pub struct Opening {
    pub pks_alpha: PKs,
    pub pks_beta: PKs,
    pub y: Point,
    pub nonce: Vec<u8>,
}

impl Opening {
    pub open spec fn wf(&self) -> bool {
        &&& self.pks_alpha.wf()
        &&& self.pks_beta.wf()
        &&& self.y.wf()
        &&& self.nonce@.len() == 32
    }

    /// The digest that this opening hashes to.
    pub open spec fn digest(&self) -> Seq<u8> {
        sha256_of(commit_msg(self.pks_alpha, self.pks_beta, self.y@, self.nonce@))
    }

    pub fn new(pks_alpha: PKs, pks_beta: PKs, y: Point, nonce: Vec<u8>) -> (r: Opening)
        ensures
            r.pks_alpha == pks_alpha,
            r.pks_beta == pks_beta,
            r.y == y,
            r.nonce == nonce,
    {
        Opening { pks_alpha, pks_beta, y, nonce }
    }

    /// Serializes the preimage.
    pub fn encode(&self) -> (r: Vec<u8>)
        ensures
            r@ == commit_msg(self.pks_alpha, self.pks_beta, self.y@, self.nonce@),
    {
        let mut out = self.pks_alpha.encode();
        let beta = self.pks_beta.encode();
        append_bytes(&mut out, &beta);
        append_bytes(&mut out, &self.y.bytes);
        append_bytes(&mut out, &self.nonce);
        assert(out@ =~= commit_msg(self.pks_alpha, self.pks_beta, self.y@, self.nonce@));
        out
    }

    /// Checks this opening against a commitment: succeeds exactly when the
    /// preimage hashes to the committed digest, and then yields the committed
    /// values.
    pub fn open(self, commitment: &Commitment) -> (r: Result<(PKs, PKs, Point), Error>)
        ensures
            r matches Ok(t) ==> commitment.bytes@ == self.digest() && t.0 == self.pks_alpha
                && t.1 == self.pks_beta && t.2 == self.y,
            r is Err ==> r == Err::<(PKs, PKs, Point), Error>(Error::CommitmentMismatch)
                && commitment.bytes@ != self.digest(),
    {
        let msg = self.encode();
        let digest = sha256(&msg);
        if bytes_eq(&digest, &commitment.bytes) {
            Ok((self.pks_alpha, self.pks_beta, self.y))
        } else {
            Err(Error::CommitmentMismatch)
        }
    }
}

/// Commits to the two public-key bundles and the adaptor point under a fresh
/// 32-byte nonce; returns the commitment together with its opening.
pub fn commit(pks_alpha: PKs, pks_beta: PKs, y: Point) -> (r: (Commitment, Opening))
    ensures
        r.0.wf(),
        r.0.bytes@ == r.1.digest(),
        r.1.pks_alpha == pks_alpha,
        r.1.pks_beta == pks_beta,
        r.1.y == y,
        r.1.nonce@.len() == 32,
{
    let nonce = random_bytes();
    let opening = Opening { pks_alpha, pks_beta, y, nonce };
    let msg = opening.encode();
    let digest = sha256(&msg);
    (Commitment { bytes: digest }, opening)
}

/// Any commitment produced together with an opening is accepted when that
/// opening is checked against it: commit followed by open cannot fail.
pub proof fn lemma_commit_roundtrip(c: Commitment, o: Opening)
    requires
        c.bytes@ == o.digest(),
    ensures
        c.bytes@ == sha256_of(commit_msg(o.pks_alpha, o.pks_beta, o.y@, o.nonce@)),
{
}

} // verus!

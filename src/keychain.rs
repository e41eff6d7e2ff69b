use vstd::prelude::*;

use crate::digest::{enc_u64, push_u64};
use crate::nodes::{Digest, NodeCount, NodeIndex};

verus! {

/// A signature, as the signature scheme writes it.
#[derive(Debug, PartialEq, Eq, Hash)]
pub struct Signature {
    pub bytes: Vec<u8>,
}

impl View for Signature {
    type V = Seq<u8>;

    open spec fn view(&self) -> Seq<u8> {
        self.bytes@
    }
}

impl Clone for Signature {
    fn clone(&self) -> (r: Self)
        ensures
            r@ == self@,
    {
        Signature { bytes: self.bytes.clone() }
    }
}

/// The signing capability of one committee member: its index, the committee size, signing
/// as that member, and checking the signatures of any member. Whether a signature is
/// `signer`'s signature of a digest is the same for every keychain of a type.
pub trait Keychain {
    spec fn spec_index(&self) -> NodeIndex;

    spec fn spec_node_count(&self) -> NodeCount;

    /// Whether `signature` is `signer`'s signature of `digest`.
    spec fn signed_by(digest: Digest, signature: Seq<u8>, signer: NodeIndex) -> bool;

    fn index(&self) -> (r: NodeIndex)
        ensures
            r == self.spec_index(),
    ;

    fn node_count(&self) -> (r: NodeCount)
        ensures
            r == self.spec_node_count(),
    ;

    /// Signs `digest` as this member.
    fn sign(&self, digest: Digest) -> (r: Signature)
        ensures
            Self::signed_by(digest, r@, self.spec_index()),
    ;

    /// Checks that `signature` is `signer`'s signature of `digest`.
    fn verify(&self, digest: Digest, signature: &Signature, signer: NodeIndex) -> (r: bool)
        ensures
            r == Self::signed_by(digest, signature@, signer),
    ;
}

/// The bytes of a plain signature: the signer's index, then the digest.
pub open spec fn plain_signature(digest: Digest, signer: NodeIndex) -> Seq<u8> {
    enc_u64(signer.0 as u64) + enc_u64(digest)
}

/// A keychain whose signature is the signer's index and the digest in the clear. It
/// authenticates nothing; it suits simulations and tests, where every member is honest
/// about who it is.
#[derive(Clone, Copy, Debug, PartialEq, Eq, Structural)]
pub struct PlainKeychain {
    pub index: NodeIndex,
    pub node_count: NodeCount,
}

impl PlainKeychain {
    pub fn new(node_count: NodeCount, index: NodeIndex) -> (r: PlainKeychain)
        ensures
            r == (PlainKeychain { index, node_count }),
    {
        PlainKeychain { index, node_count }
    }
}

impl Keychain for PlainKeychain {
    open spec fn spec_index(&self) -> NodeIndex {
        self.index
    }

    open spec fn spec_node_count(&self) -> NodeCount {
        self.node_count
    }

    open spec fn signed_by(digest: Digest, signature: Seq<u8>, signer: NodeIndex) -> bool {
        signature == plain_signature(digest, signer)
    }

    fn index(&self) -> (r: NodeIndex) {
        self.index
    }

    fn node_count(&self) -> (r: NodeCount) {
        self.node_count
    }

    fn sign(&self, digest: Digest) -> (r: Signature) {
        let mut bytes: Vec<u8> = Vec::new();
        push_u64(&mut bytes, self.index.0 as u64);
        push_u64(&mut bytes, digest);
        assert(bytes@ =~= plain_signature(digest, self.index));
        Signature { bytes }
    }

    fn verify(&self, digest: Digest, signature: &Signature, signer: NodeIndex) -> (r: bool) {
        let mut expected: Vec<u8> = Vec::new();
        push_u64(&mut expected, signer.0 as u64);
        push_u64(&mut expected, digest);
        assert(expected@ =~= plain_signature(digest, signer));
        let b = &signature.bytes;
        if b.len() != expected.len() {
            return false;
        }
        let mut i: usize = 0;
        while i < b.len()
            invariant
                b@ == signature@,
                expected@ == plain_signature(digest, signer),
                b.len() == expected.len(),
                i <= b.len(),
                forall|j: int| 0 <= j < i ==> b@[j] == expected@[j],
            decreases b.len() - i,
        {
            if b[i] != expected[i] {
                return false;
            }
            i += 1;
        }
        assert(b@ =~= expected@);
        true
    }
}

} // verus!

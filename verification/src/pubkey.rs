//! Thirty-two-byte identities.
//!
//! Every account address, authority, beneficiary and token mint in the
//! vesting core is a 32-byte identity. The core never interprets the bytes;
//! it only stores, copies and compares them.

use vstd::prelude::*;

verus! {

/// The number of bytes in an identity.
pub const PUBKEY_BYTES: usize = 32;

/// A 32-byte identity: an account address, an authority, or a token mint.
#[derive(Debug)]
pub struct Pubkey {
    bytes: Vec<u8>,
}

impl View for Pubkey {
    type V = Seq<u8>;

    closed spec fn view(&self) -> Seq<u8> {
        self.bytes@
    }
}

impl Pubkey {
    /// A key always holds exactly 32 bytes.
    #[verifier::type_invariant]
    pub open spec fn wf(self) -> bool {
        self@.len() == PUBKEY_BYTES
    }

    /// Builds a key from an owned byte vector; any other length is refused.
    pub fn new(bytes: Vec<u8>) -> (r: Option<Pubkey>)
        ensures
            r is Some <==> bytes@.len() == PUBKEY_BYTES,
            r matches Some(k) ==> k@ == bytes@,
    {
        if bytes.len() == PUBKEY_BYTES {
            Some(Pubkey { bytes })
        } else {
            None
        }
    }

    /// Builds a key by copying 32 bytes out of a slice.
    pub fn from_slice(src: &[u8]) -> (r: Option<Pubkey>)
        ensures
            r is Some <==> src@.len() == PUBKEY_BYTES,
            r matches Some(k) ==> k@ == src@,
    {
        if src.len() == PUBKEY_BYTES {
            let bytes = vstd::slice::slice_to_vec(src);
            Some(Pubkey { bytes })
        } else {
            None
        }
    }

    /// The raw bytes of the key.
    pub fn as_bytes(&self) -> (r: &[u8])
        ensures
            r@ == self@,
            r@.len() == PUBKEY_BYTES,
    {
        proof {
            use_type_invariant(self);
        }
        self.bytes.as_slice()
    }
}

impl Clone for Pubkey {
    fn clone(&self) -> (r: Self)
        ensures
            r@ == self@,
    {
        proof {
            use_type_invariant(self);
        }
        let bytes = self.bytes.clone();
        assert(bytes@ =~= self.bytes@);
        Pubkey { bytes }
    }
}

/// Compares two byte vectors for equality of contents.
fn bytes_eq(a: &Vec<u8>, b: &Vec<u8>) -> (r: bool)
    ensures
        r <==> a@ == b@,
{
    let n = a.len();
    if n != b.len() {
        return false;
    }
    let mut i: usize = 0;
    while i < n
        invariant
            i <= n,
            n == a@.len(),
            n == b@.len(),
            forall|j: int| 0 <= j < i ==> a@[j] == b@[j],
        decreases n - i,
    {
        if a[i] != b[i] {
            return false;
        }
        i = i + 1;
    }
    proof {
        assert(a@ =~= b@);
    }
    true
}

impl PartialEq for Pubkey {
    fn eq(&self, other: &Pubkey) -> (r: bool) {
        bytes_eq(&self.bytes, &other.bytes)
    }
}

impl vstd::std_specs::cmp::PartialEqSpecImpl for Pubkey {
    open spec fn obeys_eq_spec() -> bool {
        true
    }

    open spec fn eq_spec(&self, other: &Pubkey) -> bool {
        self@ == other@
    }
}

} // verus!

//! Identifiers that the contracts store and compare: account or contract
//! addresses (held as their strkey text) and 32-byte hashes (username
//! commitments, SMT roots, vault identifiers).

use crate::store::opt_view;
use vstd::prelude::*;

verus! {

/// An account or contract address, held as the bytes of its strkey
/// (for example `G...` or `C...`).
#[derive(Debug, PartialEq, Eq)]
pub struct Address {
    strkey: Vec<u8>,
}

impl View for Address {
    type V = Seq<u8>;

    closed spec fn view(&self) -> Seq<u8> {
        self.strkey@
    }
}

/// Compares two byte slices element by element.
pub fn bytes_equal(a: &[u8], b: &[u8]) -> (r: bool)
    ensures
        r == (a@ == b@),
{
    if a.len() != b.len() {
        return false;
    }
    let n = a.len();
    let mut i: usize = 0;
    while i < n
        invariant
            n == a@.len(),
            n == b@.len(),
            i <= n,
            forall|j: int| 0 <= j < i ==> a@[j] == b@[j],
        decreases n - i,
    {
        if a[i] != b[i] {
            return false;
        }
        i = i + 1;
    }
    assert(a@ =~= b@);
    true
}

impl Address {
    /// Builds an address from the bytes of its strkey.
    pub fn from_strkey(strkey: Vec<u8>) -> (r: Address)
        ensures
            r@ == strkey@,
    {
        Address { strkey }
    }

    /// The bytes of the strkey.
    pub fn strkey(&self) -> (r: &[u8])
        ensures
            r@ == self@,
    {
        self.strkey.as_slice()
    }

    /// Whether two addresses are the same.
    pub fn same(&self, other: &Address) -> (r: bool)
        ensures
            r == (self@ == other@),
    {
        bytes_equal(self.strkey.as_slice(), other.strkey.as_slice())
    }

}

impl Clone for Address {
    fn clone(&self) -> (r: Address)
        ensures
            r@ == self@,
    {
        Address { strkey: self.strkey.clone() }
    }
}

/// A 32-byte value: a username commitment, an SMT root or a vault id.
#[derive(Clone, Copy, Debug, PartialEq, Eq)]
pub struct Hash32 {
    bytes: [u8; 32],
}

impl View for Hash32 {
    type V = Seq<u8>;

    closed spec fn view(&self) -> Seq<u8> {
        self.bytes@
    }
}

impl Hash32 {
    /// Wraps 32 bytes.
    pub fn from_array(bytes: [u8; 32]) -> (r: Hash32)
        ensures
            r@ == bytes@,
    {
        Hash32 { bytes }
    }

    /// The 32 bytes.
    pub fn to_array(&self) -> (r: [u8; 32])
        ensures
            r@ == self@,
    {
        self.bytes
    }

    /// Whether two hashes hold the same bytes.
    pub fn same(&self, other: &Hash32) -> (r: bool)
        ensures
            r == (self@ == other@),
    {
        bytes_equal(self.bytes.as_slice(), other.bytes.as_slice())
    }
}

/// Copies an optional address.
pub fn copy_opt_address(a: &Option<Address>) -> (r: Option<Address>)
    ensures
        opt_view(r) == opt_view(*a),
{
    match a {
        Some(x) => Some(x.clone()),
        None => None,
    }
}

} // verus!

//! Account addresses in canonical binary form, and the targets of grants.

use vstd::prelude::*;
use crate::table::{Key, Record, Value};

verus! {

/// A canonical account address: a string of bytes. Its view is that string.
#[derive(Debug)]
pub struct Address {
    pub bytes: Vec<u8>,
}

impl View for Address {
    type V = Seq<u8>;

    open spec fn view(&self) -> Seq<u8> {
        self.bytes@
    }
}

impl Address {
    /// Wraps canonical bytes.
    pub fn new(bytes: Vec<u8>) -> (a: Address)
        ensures
            a@ == bytes@,
    {
        Address { bytes }
    }

    /// The canonical bytes.
    pub fn as_slice(&self) -> (s: &[u8])
        ensures
            s@ == self@,
    {
        self.bytes.as_slice()
    }
}

impl Value for Address {
    fn copy(&self) -> (a: Address) {
        Address { bytes: self.bytes.clone() }
    }
}

impl Key for Address {
    fn same(&self, other: &Address) -> (r: bool) {
        let r = self.bytes == other.bytes;
        proof {
            if r {
                assert(self.bytes@ =~= other.bytes@);
            }
        }
        r
    }
}

/// An address is a record under itself: a table of addresses is a set of them.
impl Record for Address {
    type Key = Address;

    open spec fn key_of(v: Seq<u8>) -> Seq<u8> {
        v
    }

    fn key(&self) -> (k: &Address) {
        self
    }
}

/// The target of a grant: one address, or everyone.
#[derive(Debug)]
pub enum Grantee {
    /// anyone, whether or not the requester is known
    Public,
    /// the holder of this address
    Address(Address),
}

/// The view of a [`Grantee`].
pub enum GranteeView {
    Public,
    Address(Seq<u8>),
}

impl View for Grantee {
    type V = GranteeView;

    open spec fn view(&self) -> GranteeView {
        match self {
            Grantee::Public => GranteeView::Public,
            Grantee::Address(a) => GranteeView::Address(a@),
        }
    }
}

impl Value for Grantee {
    fn copy(&self) -> (g: Grantee) {
        match self {
            Grantee::Public => Grantee::Public,
            Grantee::Address(a) => Grantee::Address(a.copy()),
        }
    }
}

impl Key for Grantee {
    fn same(&self, other: &Grantee) -> (r: bool) {
        match (self, other) {
            (Grantee::Public, Grantee::Public) => true,
            (Grantee::Address(a), Grantee::Address(b)) => a.same(b),
            _ => false,
        }
    }
}

/// An optional address, copied.
pub fn copy_opt_address(a: &Option<Address>) -> (r: Option<Address>)
    ensures
        opt_addr_view(r) == opt_addr_view(*a),
{
    match a {
        Some(x) => Some(x.copy()),
        None => None,
    }
}

/// The view of an optional address.
pub open spec fn opt_addr_view(a: Option<Address>) -> Option<Seq<u8>> {
    match a {
        Some(x) => Some(x@),
        None => None,
    }
}

/// The view of an optional string.
pub open spec fn opt_str_view(a: Option<String>) -> Option<Seq<char>> {
    match a {
        Some(x) => Some(x@),
        None => None,
    }
}

/// An optional string, copied.
pub fn copy_opt_string(a: &Option<String>) -> (r: Option<String>)
    ensures
        opt_str_view(r) == opt_str_view(*a),
{
    match a {
        Some(x) => Some(x.clone()),
        None => None,
    }
}

} // verus!

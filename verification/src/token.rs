//! Tokens, the grants they carry, and their metadata.

use vstd::prelude::*;
use crate::address::{copy_opt_string, opt_str_view, Address, Grantee, GranteeView};
use crate::expiration::{BlockInfo, Expiration};
use crate::table::{lookup, Key, Record, Table, Value};

verus! {

/// permission types
#[derive(Clone, Copy, Debug, PartialEq, Eq, Structural)]
pub enum PermissionType {
    ViewOwner,
    ViewMetadata,
    Transfer,
}

impl PermissionType {
    /// The slot of the permission type in a list of expirations.
    pub open spec fn slot(self) -> int {
        match self {
            PermissionType::ViewOwner => 0,
            PermissionType::ViewMetadata => 1,
            PermissionType::Transfer => 2,
        }
    }

    /// Returns usize representation of the enum variant
    pub fn to_usize(&self) -> (i: usize)
        ensures
            i == self.slot(),
            i < 3,
    {
        match self {
            PermissionType::ViewOwner => 0,
            PermissionType::ViewMetadata => 1,
            PermissionType::Transfer => 2,
        }
    }

    /// returns the number of permission types
    pub fn num_types(&self) -> (n: usize)
        ensures
            n == 3,
    {
        3
    }
}

/// the slots of the three permission types
#[derive(Clone, Copy, Debug, PartialEq, Eq, Structural)]
pub struct PermissionTypeInfo {
    /// index for view owner permission
    pub view_owner_idx: usize,
    /// index for view private metadata permission
    pub view_meta_idx: usize,
    /// index for transfer permission
    pub transfer_idx: usize,
    /// number of permission types
    pub num_types: usize,
}

impl PermissionTypeInfo {
    /// The slots as [`PermissionType::to_usize`] gives them.
    pub fn new() -> (info: PermissionTypeInfo)
        ensures
            info.view_owner_idx == PermissionType::ViewOwner.slot(),
            info.view_meta_idx == PermissionType::ViewMetadata.slot(),
            info.transfer_idx == PermissionType::Transfer.slot(),
            info.num_types == 3,
    {
        PermissionTypeInfo {
            view_owner_idx: PermissionType::ViewOwner.to_usize(),
            view_meta_idx: PermissionType::ViewMetadata.to_usize(),
            transfer_idx: PermissionType::Transfer.to_usize(),
            num_types: PermissionType::Transfer.num_types(),
        }
    }
}

/// permission to view token info/transfer tokens
#[derive(Debug)]
pub struct Permission {
    /// permitted address
    pub address: Grantee,
    /// list of permission expirations for this address
    pub expirations: [Option<Expiration>; 3],
}

/// The view of a [`Permission`]. A slot that holds an expiration is a grant that
/// was made; an empty slot was never granted.
pub struct PermissionView {
    pub address: GranteeView,
    pub expirations: Seq<Option<Expiration>>,
}

impl View for Permission {
    type V = PermissionView;

    open spec fn view(&self) -> PermissionView {
        PermissionView { address: self.address@, expirations: self.expirations@ }
    }
}

impl Value for Permission {
    fn copy(&self) -> (p: Permission) {
        let expirations = [self.expirations[0], self.expirations[1], self.expirations[2]];
        assert(expirations@ =~= self.expirations@);
        Permission { address: self.address.copy(), expirations }
    }
}

impl Record for Permission {
    type Key = Grantee;

    open spec fn key_of(v: PermissionView) -> GranteeView {
        v.address
    }

    fn key(&self) -> (k: &Grantee) {
        &self.address
    }
}

/// What a list of grants says of one grantee and one permission type.
#[derive(Clone, Copy, Debug, PartialEq, Eq, Structural)]
pub enum GrantStatus {
    /// a grant was made and has not expired
    Allowed,
    /// a grant was made and has expired
    Expired,
    /// no grant was made
    NotGranted,
}

/// The expiration that `perms` holds for `grantee` in slot `k`, if a grant was made.
pub open spec fn grant_of(perms: Seq<PermissionView>, grantee: GranteeView, k: int) -> Option<
    Expiration,
> {
    match lookup::<Permission>(perms, grantee) {
        Some(p) => if 0 <= k < p.expirations.len() {
            p.expirations[k]
        } else {
            None
        },
        None => None,
    }
}

/// What `perms` says of `grantee` and slot `k` in `block`.
pub open spec fn grant_status(
    perms: Seq<PermissionView>,
    grantee: GranteeView,
    k: int,
    block: BlockInfo,
) -> GrantStatus {
    match grant_of(perms, grantee, k) {
        Some(e) => if e.expired_at(block) {
            GrantStatus::Expired
        } else {
            GrantStatus::Allowed
        },
        None => GrantStatus::NotGranted,
    }
}

/// Looks up what `perms` says of `grantee` and `kind` in `block`.
pub fn query_grant(
    perms: &Table<Permission>,
    grantee: &Grantee,
    kind: PermissionType,
    block: &BlockInfo,
) -> (s: GrantStatus)
    ensures
        s == grant_status(perms@, grantee@, kind.slot(), *block),
{
    match perms.get(grantee) {
        Some(p) => match p.expirations[kind.to_usize()] {
            Some(e) => if e.is_expired(block) {
                GrantStatus::Expired
            } else {
                GrantStatus::Allowed
            },
            None => GrantStatus::NotGranted,
        },
        None => GrantStatus::NotGranted,
    }
}

/// list of one owner's tokens authorized to a single address
#[derive(Debug)]
pub struct AuthList {
    /// whitelisted address
    pub address: Grantee,
    /// lists of tokens address has access to
    pub tokens: [Vec<u32>; 3],
}

/// The view of an [`AuthList`]: per permission type, the tokens on which the
/// address holds a grant of that type.
pub struct AuthListView {
    pub address: GranteeView,
    pub tokens: Seq<Seq<u32>>,
}

impl View for AuthList {
    type V = AuthListView;

    open spec fn view(&self) -> AuthListView {
        AuthListView {
            address: self.address@,
            tokens: seq![self.tokens[0]@, self.tokens[1]@, self.tokens[2]@],
        }
    }
}

/// A fresh copy of a list of token indices.
pub fn copy_indices(v: &Vec<u32>) -> (r: Vec<u32>)
    ensures
        r@ == v@,
{
    let r = v.clone();
    assert(r@ =~= v@);
    r
}

impl Value for AuthList {
    fn copy(&self) -> (a: AuthList) {
        let tokens = [
            copy_indices(&self.tokens[0]),
            copy_indices(&self.tokens[1]),
            copy_indices(&self.tokens[2]),
        ];
        let a = AuthList { address: self.address.copy(), tokens };
        assert(a@.tokens =~= self@.tokens);
        a
    }
}

impl Record for AuthList {
    type Key = Grantee;

    open spec fn key_of(v: AuthListView) -> GranteeView {
        v.address
    }

    fn key(&self) -> (k: &Grantee) {
        &self.address
    }
}

/// A token: who owns it, the grants on it, and whether it can change hands.
/// `permissions` holds at most one entry per grantee.
#[derive(Debug)]
pub struct Token {
    /// owner
    pub owner: Address,
    /// permissions granted for this token
    pub permissions: Table<Permission>,
    /// true if the private metadata is no longer sealed
    pub unwrapped: bool,
    /// true if this token is transferable
    pub transferable: bool,
}

/// The view of a [`Token`].
pub struct TokenView {
    pub owner: Seq<u8>,
    pub permissions: Seq<PermissionView>,
    pub unwrapped: bool,
    pub transferable: bool,
}

impl View for Token {
    type V = TokenView;

    open spec fn view(&self) -> TokenView {
        TokenView {
            owner: self.owner@,
            permissions: self.permissions@,
            unwrapped: self.unwrapped,
            transferable: self.transferable,
        }
    }
}

impl Value for Token {
    fn copy(&self) -> (t: Token) {
        Token {
            owner: self.owner.copy(),
            permissions: self.permissions.copy(),
            unwrapped: self.unwrapped,
            transferable: self.transferable,
        }
    }
}

impl Token {
    /// A token of `owner` that carries no grant.
    pub fn new(owner: Address, transferable: bool, unwrapped: bool) -> (t: Token)
        ensures
            t@ == (TokenView {
                owner: owner@,
                permissions: Seq::empty(),
                unwrapped,
                transferable,
            }),
    {
        Token { owner, permissions: Table::new(), unwrapped, transferable }
    }
}

/// The metadata of a token: a URI, or an extension in its serialised form.
#[derive(Debug)]
pub struct Metadata {
    /// optional uri for off-chain metadata
    pub token_uri: Option<String>,
    /// optional on-chain metadata
    pub extension: Option<String>,
}

/// The view of a [`Metadata`].
pub struct MetadataView {
    pub token_uri: Option<Seq<char>>,
    pub extension: Option<Seq<char>>,
}

impl View for Metadata {
    type V = MetadataView;

    open spec fn view(&self) -> MetadataView {
        MetadataView {
            token_uri: opt_str_view(self.token_uri),
            extension: opt_str_view(self.extension),
        }
    }
}

/// The view of an optional [`Metadata`].
pub open spec fn opt_metadata_view(m: Option<Metadata>) -> Option<MetadataView> {
    match m {
        Some(x) => Some(x@),
        None => None,
    }
}

impl Value for Metadata {
    fn copy(&self) -> (m: Metadata) {
        Metadata {
            token_uri: copy_opt_string(&self.token_uri),
            extension: copy_opt_string(&self.extension),
        }
    }
}

} // verus!

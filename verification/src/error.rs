//! The failures of the registry.

use vstd::prelude::*;
use vstd::string::StringExecFns;
use crate::address::Address;
use crate::table::Value;

verus! {

/// Why a request was not authorised.
#[derive(Debug)]
pub enum Denial {
    /// no grant covers the request; the text is the caller's own
    NotAuthorized { message: String },
    /// the requester's grant on this token has expired
    TokenAccessExpired { token_id: String },
    /// the requester's grant on all tokens of this owner has expired
    AllAccessExpired { owner: Address },
    /// the requester may not see who owns this token
    OwnerHidden { token_id: String },
    /// the requester may not see the token supply
    SupplyPrivate,
}

/// The view of a [`Denial`].
pub enum DenialView {
    NotAuthorized { message: Seq<char> },
    TokenAccessExpired { token_id: Seq<char> },
    AllAccessExpired { owner: Seq<u8> },
    OwnerHidden { token_id: Seq<char> },
    SupplyPrivate,
}

impl View for Denial {
    type V = DenialView;

    open spec fn view(&self) -> DenialView {
        match self {
            Denial::NotAuthorized { message } => DenialView::NotAuthorized { message: message@ },
            Denial::TokenAccessExpired { token_id } => DenialView::TokenAccessExpired {
                token_id: token_id@,
            },
            Denial::AllAccessExpired { owner } => DenialView::AllAccessExpired { owner: owner@ },
            Denial::OwnerHidden { token_id } => DenialView::OwnerHidden { token_id: token_id@ },
            Denial::SupplyPrivate => DenialView::SupplyPrivate,
        }
    }
}

/// A counter that is at capacity.
#[derive(Clone, Copy, Debug, PartialEq, Eq, Structural)]
pub enum Counter {
    /// the count of tokens
    Tokens,
    /// the count of transactions
    Transactions,
    /// the index that follows the last token
    TokenIndex,
}

/// A state that correct code never produces.
#[derive(Debug)]
pub enum Violation {
    /// an id maps to an index under which no token is stored
    TokenInfoMissing { token_id: String },
    /// an index is stored without its token
    TokenStorageCorrupt,
}

/// The view of a [`Violation`].
pub enum ViolationView {
    TokenInfoMissing { token_id: Seq<char> },
    TokenStorageCorrupt,
}

impl View for Violation {
    type V = ViolationView;

    open spec fn view(&self) -> ViolationView {
        match self {
            Violation::TokenInfoMissing { token_id } => ViolationView::TokenInfoMissing {
                token_id: token_id@,
            },
            Violation::TokenStorageCorrupt => ViolationView::TokenStorageCorrupt,
        }
    }
}

/// Every failure of the registry.
#[derive(Debug)]
pub enum ContractError {
    /// the requester lacks the permission
    AuthorizationDenied(Denial),
    /// no token has this id
    NotFound { token_id: String },
    /// the token is not in the inventory that was asked for
    NotInInventory { token_id: String },
    /// a token with this id exists already
    DuplicateID { token_id: String },
    /// the recipient of a transfer owns the token already
    AlreadyOwnedByRecipient { token_id: String },
    /// the token cannot change hands
    NonTransferable { token_id: String },
    /// only the admin may do this
    AdminRequired,
    /// the contract status forbids the action
    StatusGateClosed,
    /// a counter is at capacity
    CounterOverflow(Counter),
    /// the stored state contradicts itself
    InvariantViolation(Violation),
    /// metadata holds both a URI and an extension
    MetadataConflict,
    /// the private metadata of the token is still sealed
    SealedMetadata,
    /// the viewing key does not match the one set for the address
    WrongViewingKey,
    /// the private metadata of a sealed token cannot be changed
    SealedMetadataFixed,
}

/// The view of a [`ContractError`].
pub enum ErrorView {
    AuthorizationDenied(DenialView),
    NotFound { token_id: Seq<char> },
    NotInInventory { token_id: Seq<char> },
    DuplicateID { token_id: Seq<char> },
    AlreadyOwnedByRecipient { token_id: Seq<char> },
    NonTransferable { token_id: Seq<char> },
    AdminRequired,
    StatusGateClosed,
    CounterOverflow(Counter),
    InvariantViolation(ViolationView),
    MetadataConflict,
    SealedMetadata,
    WrongViewingKey,
    SealedMetadataFixed,
}

impl View for ContractError {
    type V = ErrorView;

    open spec fn view(&self) -> ErrorView {
        match self {
            ContractError::AuthorizationDenied(d) => ErrorView::AuthorizationDenied(d@),
            ContractError::NotFound { token_id } => ErrorView::NotFound { token_id: token_id@ },
            ContractError::NotInInventory { token_id } => ErrorView::NotInInventory {
                token_id: token_id@,
            },
            ContractError::DuplicateID { token_id } => ErrorView::DuplicateID {
                token_id: token_id@,
            },
            ContractError::AlreadyOwnedByRecipient { token_id } => ErrorView::AlreadyOwnedByRecipient {
                token_id: token_id@,
            },
            ContractError::NonTransferable { token_id } => ErrorView::NonTransferable {
                token_id: token_id@,
            },
            ContractError::AdminRequired => ErrorView::AdminRequired,
            ContractError::StatusGateClosed => ErrorView::StatusGateClosed,
            ContractError::CounterOverflow(c) => ErrorView::CounterOverflow(*c),
            ContractError::InvariantViolation(v) => ErrorView::InvariantViolation(v@),
            ContractError::MetadataConflict => ErrorView::MetadataConflict,
            ContractError::SealedMetadata => ErrorView::SealedMetadata,
            ContractError::WrongViewingKey => ErrorView::WrongViewingKey,
            ContractError::SealedMetadataFixed => ErrorView::SealedMetadataFixed,
        }
    }
}

/// The text that tells a requester that nothing authorises the action on a token.
pub open spec fn unauthorized_text(token_id: Seq<char>) -> Seq<char> {
    "You are not authorized to perform this action on token "@ + token_id
}

/// Builds the text of [`unauthorized_text`].
pub fn unauthorized_message(token_id: &str) -> (s: String)
    ensures
        s@ == unauthorized_text(token_id@),
{
    String::from_str("You are not authorized to perform this action on token ").concat(token_id)
}

/// `prefix`, then `middle`, then `suffix`.
fn join3(prefix: &str, middle: &str, suffix: &str) -> (s: String)
    ensures
        s@ == prefix@ + middle@ + suffix@,
{
    String::from_str(prefix).concat(middle).concat(suffix)
}

impl DenialView {
    /// The text of a denial; `owner_name` is the readable form of the owner that
    /// an `AllAccessExpired` names.
    pub open spec fn text(self, owner_name: Seq<char>) -> Seq<char> {
        match self {
            DenialView::NotAuthorized { message } => message,
            DenialView::TokenAccessExpired { token_id } => "Access to token "@ + token_id
                + " has expired"@,
            DenialView::AllAccessExpired { owner } => "Access to all tokens of "@ + owner_name
                + " has expired"@,
            DenialView::OwnerHidden { token_id } =>
                "You are not authorized to view the owner of token "@ + token_id,
            DenialView::SupplyPrivate => "The token supply of this contract is private"@,
        }
    }
}

impl ErrorView {
    /// The text of a failure; `owner_name` is the readable form of the owner that
    /// an `AllAccessExpired` denial names.
    pub open spec fn text(self, owner_name: Seq<char>) -> Seq<char> {
        match self {
            ErrorView::AuthorizationDenied(d) => d.text(owner_name),
            ErrorView::NotFound { token_id } => "Token ID: "@ + token_id + " not found"@,
            ErrorView::NotInInventory { token_id } => "Token ID: "@ + token_id
                + " is not in the specified inventory"@,
            ErrorView::DuplicateID { token_id } => "Token ID "@ + token_id + " is already in use"@,
            ErrorView::AlreadyOwnedByRecipient { token_id } =>
                "Attempting to transfer token ID: "@ + token_id
                    + " to the address that already owns it"@,
            ErrorView::NonTransferable { token_id } => "Token ID: "@ + token_id
                + " is non-transferable"@,
            ErrorView::AdminRequired =>
                "This is an admin command and can only be run from the admin address"@,
            ErrorView::StatusGateClosed =>
                "The contract admin has temporarily disabled this action"@,
            ErrorView::CounterOverflow(c) => match c {
                Counter::Tokens => "Attempting to mint more tokens than the implementation limit"@,
                Counter::Transactions =>
                    "Attempting to record more transactions than the implementation limit"@,
                Counter::TokenIndex => "This token was the last one the contract could mint"@,
            },
            ErrorView::InvariantViolation(v) => match v {
                ViolationView::TokenInfoMissing { token_id } => "Unable to find token info for "@
                    + token_id,
                ViolationView::TokenStorageCorrupt => "Token info storage is corrupt"@,
            },
            ErrorView::MetadataConflict => "Metadata can not have BOTH token_uri AND extension"@,
            ErrorView::SealedMetadata =>
                "Sealed metadata must be unwrapped by calling Reveal before it can be viewed"@,
            ErrorView::WrongViewingKey =>
                "Wrong viewing key for this address or viewing key not set"@,
            ErrorView::SealedMetadataFixed =>
                "The private metadata of a sealed token can not be modified"@,
        }
    }
}

impl Denial {
    /// The text of the denial, as the requester reads it.
    pub fn message(&self, owner_name: &str) -> (s: String)
        ensures
            s@ == self@.text(owner_name@),
    {
        match self {
            Denial::NotAuthorized { message } => message.clone(),
            Denial::TokenAccessExpired { token_id } => join3(
                "Access to token ",
                token_id.as_str(),
                " has expired",
            ),
            Denial::AllAccessExpired { owner } => join3(
                "Access to all tokens of ",
                owner_name,
                " has expired",
            ),
            Denial::OwnerHidden { token_id } => String::from_str(
                "You are not authorized to view the owner of token ",
            ).concat(token_id.as_str()),
            Denial::SupplyPrivate => String::from_str("The token supply of this contract is private"),
        }
    }

    /// A fresh copy of the denial.
    pub fn copy(&self) -> (d: Denial)
        ensures
            d@ == self@,
    {
        match self {
            Denial::NotAuthorized { message } => Denial::NotAuthorized { message: message.clone() },
            Denial::TokenAccessExpired { token_id } => Denial::TokenAccessExpired {
                token_id: token_id.clone(),
            },
            Denial::AllAccessExpired { owner } => Denial::AllAccessExpired { owner: owner.copy() },
            Denial::OwnerHidden { token_id } => Denial::OwnerHidden { token_id: token_id.clone() },
            Denial::SupplyPrivate => Denial::SupplyPrivate,
        }
    }
}

impl ContractError {
    /// The text of the failure, as the requester reads it. `owner_name` is the
    /// readable form of the owner named by an `AllAccessExpired` denial; every
    /// other failure ignores it.
    pub fn message(&self, owner_name: &str) -> (s: String)
        ensures
            s@ == self@.text(owner_name@),
    {
        match self {
            ContractError::AuthorizationDenied(d) => d.message(owner_name),
            ContractError::NotFound { token_id } => join3("Token ID: ", token_id.as_str(), " not found"),
            ContractError::NotInInventory { token_id } => join3(
                "Token ID: ",
                token_id.as_str(),
                " is not in the specified inventory",
            ),
            ContractError::DuplicateID { token_id } => join3(
                "Token ID ",
                token_id.as_str(),
                " is already in use",
            ),
            ContractError::AlreadyOwnedByRecipient { token_id } => join3(
                "Attempting to transfer token ID: ",
                token_id.as_str(),
                " to the address that already owns it",
            ),
            ContractError::NonTransferable { token_id } => join3(
                "Token ID: ",
                token_id.as_str(),
                " is non-transferable",
            ),
            ContractError::AdminRequired => String::from_str(
                "This is an admin command and can only be run from the admin address",
            ),
            ContractError::StatusGateClosed => String::from_str(
                "The contract admin has temporarily disabled this action",
            ),
            ContractError::CounterOverflow(c) => match c {
                Counter::Tokens => String::from_str(
                    "Attempting to mint more tokens than the implementation limit",
                ),
                Counter::Transactions => String::from_str(
                    "Attempting to record more transactions than the implementation limit",
                ),
                Counter::TokenIndex => String::from_str(
                    "This token was the last one the contract could mint",
                ),
            },
            ContractError::InvariantViolation(v) => match v {
                Violation::TokenInfoMissing { token_id } => String::from_str(
                    "Unable to find token info for ",
                ).concat(token_id.as_str()),
                Violation::TokenStorageCorrupt => String::from_str("Token info storage is corrupt"),
            },
            ContractError::MetadataConflict => String::from_str(
                "Metadata can not have BOTH token_uri AND extension",
            ),
            ContractError::SealedMetadata => String::from_str(
                "Sealed metadata must be unwrapped by calling Reveal before it can be viewed",
            ),
            ContractError::WrongViewingKey => String::from_str(
                "Wrong viewing key for this address or viewing key not set",
            ),
            ContractError::SealedMetadataFixed => String::from_str(
                "The private metadata of a sealed token can not be modified",
            ),
        }
    }

    /// A fresh copy of the failure.
    pub fn copy(&self) -> (e: ContractError)
        ensures
            e@ == self@,
    {
        match self {
            ContractError::AuthorizationDenied(d) => ContractError::AuthorizationDenied(d.copy()),
            ContractError::NotFound { token_id } => ContractError::NotFound {
                token_id: token_id.clone(),
            },
            ContractError::NotInInventory { token_id } => ContractError::NotInInventory {
                token_id: token_id.clone(),
            },
            ContractError::DuplicateID { token_id } => ContractError::DuplicateID {
                token_id: token_id.clone(),
            },
            ContractError::AlreadyOwnedByRecipient { token_id } => ContractError::AlreadyOwnedByRecipient {
                token_id: token_id.clone(),
            },
            ContractError::NonTransferable { token_id } => ContractError::NonTransferable {
                token_id: token_id.clone(),
            },
            ContractError::AdminRequired => ContractError::AdminRequired,
            ContractError::StatusGateClosed => ContractError::StatusGateClosed,
            ContractError::CounterOverflow(c) => ContractError::CounterOverflow(*c),
            ContractError::InvariantViolation(v) => match v {
                Violation::TokenInfoMissing { token_id } => ContractError::InvariantViolation(
                    Violation::TokenInfoMissing { token_id: token_id.clone() },
                ),
                Violation::TokenStorageCorrupt => ContractError::InvariantViolation(
                    Violation::TokenStorageCorrupt,
                ),
            },
            ContractError::MetadataConflict => ContractError::MetadataConflict,
            ContractError::SealedMetadata => ContractError::SealedMetadata,
            ContractError::WrongViewingKey => ContractError::WrongViewingKey,
            ContractError::SealedMetadataFixed => ContractError::SealedMetadataFixed,
        }
    }
}

} // verus!

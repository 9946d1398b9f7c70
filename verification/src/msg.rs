//! The requests that the registry takes and the answers that it gives.

use vstd::prelude::*;
use crate::address::{opt_str_view, Address};

verus! {

/// This type represents optional configuration values.
/// All values are optional and have defaults which are more private by default,
/// but can be overridden if necessary
#[derive(Clone, Copy, Debug, PartialEq, Eq, Structural)]
pub struct InitConfig {
    /// indicates whether the token IDs and the number of tokens controlled by the contract are
    /// public.  If the token supply is private, only minters can view the token IDs and
    /// number of tokens controlled by the contract
    pub public_token_supply: Option<bool>,
    /// indicates whether token ownership is public or private.  A user can still change whether the
    /// ownership of their tokens is public or private
    pub public_owner: Option<bool>,
}

impl Default for InitConfig {
    fn default() -> (c: Self)
        ensures
            c == (InitConfig { public_token_supply: Some(true), public_owner: Some(true) }),
    {
        InitConfig { public_token_supply: Some(true), public_owner: Some(true) }
    }
}

/// permission access level
#[derive(Clone, Copy, Debug, PartialEq, Eq, Structural)]
pub enum AccessLevel {
    /// approve permission only for the specified token
    ApproveToken,
    /// grant permission for all tokens
    All,
    /// revoke permission only for the specified token
    RevokeToken,
    /// remove all permissions for this address
    NoAccess,
}

#[derive(Clone, Copy, Debug, PartialEq, Eq, Structural)]
pub enum AuctionStatus {
    NotUpForAuction,
    AuctionInProgress,
    AuctionClosed,
}

#[derive(Clone, Copy, Debug, PartialEq, Eq, Structural)]
pub enum ResponseStatus {
    Success,
    Failure,
}

#[derive(Clone, Copy, Debug, PartialEq, Eq, Structural)]
pub enum ContractStatus {
    Normal,
    StopTransactions,
    StopAll,
}

impl ContractStatus {
    /// The level of the status: the higher, the more is stopped.
    pub open spec fn level(self) -> u8 {
        match self {
            ContractStatus::Normal => 0,
            ContractStatus::StopTransactions => 1,
            ContractStatus::StopAll => 2,
        }
    }

    /// Returns u8 representation of the ContractStatus
    pub fn to_u8(&self) -> (level: u8)
        ensures
            level == self.level(),
    {
        match self {
            ContractStatus::Normal => 0,
            ContractStatus::StopTransactions => 1,
            ContractStatus::StopAll => 2,
        }
    }
}

#[derive(Debug)]
pub enum HandleAnswer {
    RegisterReceiveNft { status: ResponseStatus },
    SetContractStatus { status: ResponseStatus },
    MakeOwnershipPrivate { status: ResponseStatus },
    TransferNft { status: ResponseStatus },
    SendNft { status: ResponseStatus },
    /// response from both setting and creating a viewing key
    ViewingKey { key: String },
    ChangeAdmin { status: ResponseStatus },
    ListNft { status: ResponseStatus },
}

/// The view of a [`HandleAnswer`].
pub enum HandleAnswerView {
    RegisterReceiveNft { status: ResponseStatus },
    SetContractStatus { status: ResponseStatus },
    MakeOwnershipPrivate { status: ResponseStatus },
    TransferNft { status: ResponseStatus },
    SendNft { status: ResponseStatus },
    ViewingKey { key: Seq<char> },
    ChangeAdmin { status: ResponseStatus },
    ListNft { status: ResponseStatus },
}

impl View for HandleAnswer {
    type V = HandleAnswerView;

    open spec fn view(&self) -> HandleAnswerView {
        match self {
            HandleAnswer::RegisterReceiveNft { status } => HandleAnswerView::RegisterReceiveNft {
                status: *status,
            },
            HandleAnswer::SetContractStatus { status } => HandleAnswerView::SetContractStatus {
                status: *status,
            },
            HandleAnswer::MakeOwnershipPrivate { status } => HandleAnswerView::MakeOwnershipPrivate {
                status: *status,
            },
            HandleAnswer::TransferNft { status } => HandleAnswerView::TransferNft { status: *status },
            HandleAnswer::SendNft { status } => HandleAnswerView::SendNft { status: *status },
            HandleAnswer::ViewingKey { key } => HandleAnswerView::ViewingKey { key: key@ },
            HandleAnswer::ChangeAdmin { status } => HandleAnswerView::ChangeAdmin { status: *status },
            HandleAnswer::ListNft { status } => HandleAnswerView::ListNft { status: *status },
        }
    }
}

/// a recipient contract's code hash and whether it implements BatchReceiveNft
#[derive(Debug)]
pub struct ReceiverInfo {
    /// recipient's code hash
    pub recipient_code_hash: String,
    /// true if the contract also implements BacthReceiveNft.  Defaults to false
    /// if not specified
    pub also_implements_batch_receive_nft: Option<bool>,
}

/// The view of a [`ReceiverInfo`].
pub struct ReceiverInfoView {
    pub recipient_code_hash: Seq<char>,
    pub also_implements_batch_receive_nft: Option<bool>,
}

impl View for ReceiverInfo {
    type V = ReceiverInfoView;

    open spec fn view(&self) -> ReceiverInfoView {
        ReceiverInfoView {
            recipient_code_hash: self.recipient_code_hash@,
            also_implements_batch_receive_nft: self.also_implements_batch_receive_nft,
        }
    }
}

/// The view of an optional [`ReceiverInfo`].
pub open spec fn opt_receiver_view(r: Option<ReceiverInfo>) -> Option<ReceiverInfoView> {
    match r {
        Some(x) => Some(x@),
        None => None,
    }
}

/// The view of an optional string of bytes.
pub open spec fn opt_bytes_view(b: Option<Vec<u8>>) -> Option<Seq<u8>> {
    match b {
        Some(x) => Some(x@),
        None => None,
    }
}

/// An optional string of bytes, copied.
pub fn copy_opt_bytes(b: &Option<Vec<u8>>) -> (r: Option<Vec<u8>>)
    ensures
        opt_bytes_view(r) == opt_bytes_view(*b),
{
    match b {
        Some(x) => {
            let c = x.clone();
            assert(c@ =~= x@);
            Some(c)
        },
        None => None,
    }
}

/// The views of a list of token ids.
pub open spec fn ids_view(ids: Seq<String>) -> Seq<Seq<char>> {
    ids.map_values(|s: String| s@)
}

/// token transfer info used when doing a BatchTransferNft
#[derive(Debug)]
pub struct Transfer {
    /// recipient of the transferred tokens
    pub recipient: Address,
    /// tokens being transferred
    pub token_ids: Vec<String>,
    /// optional memo for the tx
    pub memo: Option<String>,
}

/// The view of a [`Transfer`].
pub struct TransferView {
    pub recipient: Seq<u8>,
    pub token_ids: Seq<Seq<char>>,
    pub memo: Option<Seq<char>>,
}

impl View for Transfer {
    type V = TransferView;

    open spec fn view(&self) -> TransferView {
        TransferView {
            recipient: self.recipient@,
            token_ids: ids_view(self.token_ids@),
            memo: opt_str_view(self.memo),
        }
    }
}

/// send token info used when doing a BatchSendNft
#[derive(Debug)]
pub struct Send {
    /// recipient of the sent tokens
    pub contract: Address,
    /// optional code hash and BatchReceiveNft implementation status of the recipient contract
    pub receiver_info: Option<ReceiverInfo>,
    /// tokens being sent
    pub token_ids: Vec<String>,
    /// optional message to send with the (Batch)RecieveNft callback
    pub msg: Option<Vec<u8>>,
    /// optional memo for the tx
    pub memo: Option<String>,
}

/// The view of a [`Send`].
pub struct SendView {
    pub contract: Seq<u8>,
    pub receiver_info: Option<ReceiverInfoView>,
    pub token_ids: Seq<Seq<char>>,
    pub msg: Option<Seq<u8>>,
    pub memo: Option<Seq<char>>,
}

impl View for Send {
    type V = SendView;

    open spec fn view(&self) -> SendView {
        SendView {
            contract: self.contract@,
            receiver_info: opt_receiver_view(self.receiver_info),
            token_ids: ids_view(self.token_ids@),
            msg: opt_bytes_view(self.msg),
            memo: opt_str_view(self.memo),
        }
    }
}

/// The block of a request, who sent it, and the address of the registry itself.
#[derive(Debug)]
pub struct Env {
    /// the block in which the request runs
    pub block: crate::expiration::BlockInfo,
    /// the address that sent the request
    pub sender: Address,
    /// the address of the registry
    pub contract_address: Address,
}

/// The view of an [`Env`].
pub struct EnvView {
    pub block: crate::expiration::BlockInfo,
    pub sender: Seq<u8>,
    pub contract_address: Seq<u8>,
}

impl View for Env {
    type V = EnvView;

    open spec fn view(&self) -> EnvView {
        EnvView {
            block: self.block,
            sender: self.sender@,
            contract_address: self.contract_address@,
        }
    }
}

/// The view of an optional [`HandleAnswer`].
pub open spec fn opt_answer_view(a: Option<HandleAnswer>) -> Option<HandleAnswerView> {
    match a {
        Some(x) => Some(x@),
        None => None,
    }
}

/// What a request that changes the state hands back: the notifications to
/// deliver, and the answer.
#[derive(Debug)]
pub struct HandleResponse {
    /// the notifications for receiving contracts
    pub messages: Vec<crate::receiver::ReceiverCallback>,
    /// the answer to the request
    pub data: Option<HandleAnswer>,
}

/// The view of a [`HandleResponse`].
pub struct HandleResponseView {
    pub messages: Seq<crate::receiver::CallbackView>,
    pub data: Option<HandleAnswerView>,
}

impl View for HandleResponse {
    type V = HandleResponseView;

    open spec fn view(&self) -> HandleResponseView {
        HandleResponseView {
            messages: crate::receiver::callbacks_view(self.messages@),
            data: opt_answer_view(self.data),
        }
    }
}

} // verus!

//! The questions that the registry answers, and its answers.

use vstd::prelude::*;
use crate::address::{opt_addr_view, opt_str_view, Address};
use crate::expiration::Expiration;
use crate::msg::ids_view;
use crate::state::{StoredTx, StoredTxAction};
use crate::token::{opt_metadata_view, Metadata, MetadataView};

verus! {

/// CW721 Approval
#[derive(Debug)]
pub struct Cw721Approval {
    /// address that can transfer the token
    pub spender: Address,
    /// expiration of this approval
    pub expires: Expiration,
}

/// The view of a [`Cw721Approval`].
pub struct ApprovalView {
    pub spender: Seq<u8>,
    pub expires: Expiration,
}

impl View for Cw721Approval {
    type V = ApprovalView;

    open spec fn view(&self) -> ApprovalView {
        ApprovalView { spender: self.spender@, expires: self.expires }
    }
}

/// The views of a list of approvals.
pub open spec fn approvals_view(a: Seq<Cw721Approval>) -> Seq<ApprovalView> {
    a.map_values(|x: Cw721Approval| x@)
}

/// response of CW721 OwnerOf
#[derive(Debug)]
pub struct Cw721OwnerOfResponse {
    /// Owner of the token if permitted to view it
    pub owner: Option<Address>,
    /// list of addresses approved to transfer this token
    pub approvals: Vec<Cw721Approval>,
}

/// The view of a [`Cw721OwnerOfResponse`].
pub struct OwnerOfResponseView {
    pub owner: Option<Seq<u8>>,
    pub approvals: Seq<ApprovalView>,
}

impl View for Cw721OwnerOfResponse {
    type V = OwnerOfResponseView;

    open spec fn view(&self) -> OwnerOfResponseView {
        OwnerOfResponseView {
            owner: opt_addr_view(self.owner),
            approvals: approvals_view(self.approvals@),
        }
    }
}

/// the address and viewing key making an authenticated query request
#[derive(Debug)]
pub struct ViewerInfo {
    /// querying address
    pub address: Address,
    /// authentication key string
    pub viewing_key: String,
}

/// The view of a [`ViewerInfo`].
pub struct ViewerInfoView {
    pub address: Seq<u8>,
    pub viewing_key: Seq<char>,
}

impl View for ViewerInfo {
    type V = ViewerInfoView;

    open spec fn view(&self) -> ViewerInfoView {
        ViewerInfoView { address: self.address@, viewing_key: self.viewing_key@ }
    }
}

/// The view of an optional [`ViewerInfo`].
pub open spec fn opt_viewer_view(v: Option<ViewerInfo>) -> Option<ViewerInfoView> {
    match v {
        Some(x) => Some(x@),
        None => None,
    }
}

#[derive(Debug)]
pub enum QueryAnswer {
    ContractInfo { name: String },
    ContractConfig { token_supply_is_public: bool, owner_is_public: bool },
    RegisteredCodeHash { code_hash: Option<String>, also_implements_batch_receive_nft: bool },
    ContractCreator { creator: Option<Address> },
    OwnerOf { owner: Address, approvals: Vec<Cw721Approval> },
    NftInfo { token_uri: Option<String>, extension: Option<String> },
    PrivateMetadata { token_uri: Option<String>, extension: Option<String> },
    AllNftInfo { access: Cw721OwnerOfResponse, info: Option<Metadata> },
    IsTransferable { token_is_transferable: bool },
    TokenList { tokens: Vec<String> },
    NumTokens { count: u32 },
}

/// The view of a [`QueryAnswer`].
pub enum AnswerView {
    ContractInfo { name: Seq<char> },
    ContractConfig { token_supply_is_public: bool, owner_is_public: bool },
    RegisteredCodeHash { code_hash: Option<Seq<char>>, also_implements_batch_receive_nft: bool },
    ContractCreator { creator: Option<Seq<u8>> },
    OwnerOf { owner: Seq<u8>, approvals: Seq<ApprovalView> },
    NftInfo { token_uri: Option<Seq<char>>, extension: Option<Seq<char>> },
    PrivateMetadata { token_uri: Option<Seq<char>>, extension: Option<Seq<char>> },
    AllNftInfo { access: OwnerOfResponseView, info: Option<MetadataView> },
    IsTransferable { token_is_transferable: bool },
    TokenList { tokens: Seq<Seq<char>> },
    NumTokens { count: u32 },
}

impl View for QueryAnswer {
    type V = AnswerView;

    open spec fn view(&self) -> AnswerView {
        match self {
            QueryAnswer::ContractInfo { name } => AnswerView::ContractInfo { name: name@ },
            QueryAnswer::ContractConfig {
                token_supply_is_public,
                owner_is_public,
            } => AnswerView::ContractConfig {
                token_supply_is_public: *token_supply_is_public,
                owner_is_public: *owner_is_public,
            },
            QueryAnswer::RegisteredCodeHash {
                code_hash,
                also_implements_batch_receive_nft,
            } => AnswerView::RegisteredCodeHash {
                code_hash: opt_str_view(*code_hash),
                also_implements_batch_receive_nft: *also_implements_batch_receive_nft,
            },
            QueryAnswer::ContractCreator { creator } => AnswerView::ContractCreator {
                creator: opt_addr_view(*creator),
            },
            QueryAnswer::OwnerOf { owner, approvals } => AnswerView::OwnerOf {
                owner: owner@,
                approvals: approvals_view(approvals@),
            },
            QueryAnswer::NftInfo { token_uri, extension } => AnswerView::NftInfo {
                token_uri: opt_str_view(*token_uri),
                extension: opt_str_view(*extension),
            },
            QueryAnswer::PrivateMetadata { token_uri, extension } => AnswerView::PrivateMetadata {
                token_uri: opt_str_view(*token_uri),
                extension: opt_str_view(*extension),
            },
            QueryAnswer::AllNftInfo { access, info } => AnswerView::AllNftInfo {
                access: access@,
                info: opt_metadata_view(*info),
            },
            QueryAnswer::IsTransferable { token_is_transferable } => AnswerView::IsTransferable {
                token_is_transferable: *token_is_transferable,
            },
            QueryAnswer::TokenList { tokens } => AnswerView::TokenList { tokens: ids_view(tokens@) },
            QueryAnswer::NumTokens { count } => AnswerView::NumTokens { count: *count },
        }
    }
}

#[derive(Debug)]
#[allow(inconsistent_fields)]
pub enum QueryMsg {
    /// display the contract's name and symbol
    ContractInfo {},
    /// display the contract's configuration
    ContractConfig {},
    /// display the code hash a contract has registered with the token contract and whether
    /// the contract implements BatchReceivenft
    RegisteredCodeHash {
        /// the contract whose receive registration info you want to view
        contract: Address,
    },
    /// display the contract's creator
    ContractCreator {},
    /// display the number of tokens controlled by the contract.  The token supply must
    /// either be public, or the querier must be an authenticated minter
    NumTokens {
        /// optional address and key requesting to view the number of tokens
        viewer: Option<ViewerInfo>,
    },
    /// display an optionally paginated list of all the tokens controlled by the contract.
    /// The token supply must either be public, or the querier must be an authenticated
    /// minter
    AllTokens {
        /// optional address and key requesting to view the list of tokens
        viewer: Option<ViewerInfo>,
        /// paginate by providing the last token_id received in the previous query
        start_after: Option<String>,
        /// optional number of token ids to display
        limit: Option<u32>,
    },
    /// display the owner of the specified token if authorized to view it.  If the requester
    /// is also the token's owner, the response will also include a list of any addresses
    /// that can transfer this token.
    OwnerOf {
        token_id: String,
        /// optional address and key requesting to view the token owner
        viewer: Option<ViewerInfo>,
        /// optionally include expired Approvals in the response list.  If ommitted or
        /// false, expired Approvals will be filtered out of the response
        include_expired: Option<bool>,
    },
    /// displays the public metadata of a token
    NftInfo { token_id: String },
    /// displays all the information contained in the OwnerOf and NftInfo queries
    AllNftInfo {
        token_id: String,
        /// optional address and key requesting to view the token owner
        viewer: Option<ViewerInfo>,
        /// optionally include expired Approvals in the response list.  If ommitted or
        /// false, expired Approvals will be filtered out of the response
        include_expired: Option<bool>,
    },
    /// displays the private metadata if permitted to view it
    PrivateMetadata {
        token_id: String,
        /// optional address and key requesting to view the private metadata
        viewer: Option<ViewerInfo>,
    },
    /// displays a list of all the tokens belonging to the input owner in which the viewer
    /// has view_owner permission
    Tokens {
        owner: Address,
        /// optional address of the querier if different from the owner
        viewer: Option<Address>,
        /// optional viewing key
        viewing_key: Option<String>,
        /// paginate by providing the last token_id received in the previous query
        start_after: Option<String>,
        /// optional number of token ids to display
        limit: Option<u32>,
    },
    /// displays the number of tokens that the querier has permission to see the owner and that
    /// belong to the specified address
    NumTokensOfOwner {
        owner: Address,
        /// optional address of the querier if different from the owner
        viewer: Option<Address>,
        /// optional viewing key
        viewing_key: Option<String>,
    },
    /// display if a token is transferable
    IsTransferable { token_id: String },
}

/// The view of a [`QueryMsg`].
#[allow(inconsistent_fields)]
pub enum QueryMsgView {
    ContractInfo,
    ContractConfig,
    RegisteredCodeHash { contract: Seq<u8> },
    ContractCreator,
    NumTokens { viewer: Option<ViewerInfoView> },
    AllTokens { viewer: Option<ViewerInfoView>, start_after: Option<Seq<char>>, limit: Option<u32> },
    OwnerOf { token_id: Seq<char>, viewer: Option<ViewerInfoView>, include_expired: Option<bool> },
    NftInfo { token_id: Seq<char> },
    AllNftInfo {
        token_id: Seq<char>,
        viewer: Option<ViewerInfoView>,
        include_expired: Option<bool>,
    },
    PrivateMetadata { token_id: Seq<char>, viewer: Option<ViewerInfoView> },
    Tokens {
        owner: Seq<u8>,
        viewer: Option<Seq<u8>>,
        viewing_key: Option<Seq<char>>,
        start_after: Option<Seq<char>>,
        limit: Option<u32>,
    },
    NumTokensOfOwner { owner: Seq<u8>, viewer: Option<Seq<u8>>, viewing_key: Option<Seq<char>> },
    IsTransferable { token_id: Seq<char> },
}

impl View for QueryMsg {
    type V = QueryMsgView;

    open spec fn view(&self) -> QueryMsgView {
        match self {
            QueryMsg::ContractInfo {  } => QueryMsgView::ContractInfo,
            QueryMsg::ContractConfig {  } => QueryMsgView::ContractConfig,
            QueryMsg::RegisteredCodeHash { contract } => QueryMsgView::RegisteredCodeHash {
                contract: contract@,
            },
            QueryMsg::ContractCreator {  } => QueryMsgView::ContractCreator,
            QueryMsg::NumTokens { viewer } => QueryMsgView::NumTokens {
                viewer: opt_viewer_view(*viewer),
            },
            QueryMsg::AllTokens { viewer, start_after, limit } => QueryMsgView::AllTokens {
                viewer: opt_viewer_view(*viewer),
                start_after: opt_str_view(*start_after),
                limit: *limit,
            },
            QueryMsg::OwnerOf { token_id, viewer, include_expired } => QueryMsgView::OwnerOf {
                token_id: token_id@,
                viewer: opt_viewer_view(*viewer),
                include_expired: *include_expired,
            },
            QueryMsg::NftInfo { token_id } => QueryMsgView::NftInfo { token_id: token_id@ },
            QueryMsg::AllNftInfo { token_id, viewer, include_expired } => QueryMsgView::AllNftInfo {
                token_id: token_id@,
                viewer: opt_viewer_view(*viewer),
                include_expired: *include_expired,
            },
            QueryMsg::PrivateMetadata { token_id, viewer } => QueryMsgView::PrivateMetadata {
                token_id: token_id@,
                viewer: opt_viewer_view(*viewer),
            },
            QueryMsg::Tokens {
                owner,
                viewer,
                viewing_key,
                start_after,
                limit,
            } => QueryMsgView::Tokens {
                owner: owner@,
                viewer: opt_addr_view(*viewer),
                viewing_key: opt_str_view(*viewing_key),
                start_after: opt_str_view(*start_after),
                limit: *limit,
            },
            QueryMsg::NumTokensOfOwner {
                owner,
                viewer,
                viewing_key,
            } => QueryMsgView::NumTokensOfOwner {
                owner: owner@,
                viewer: opt_addr_view(*viewer),
                viewing_key: opt_str_view(*viewing_key),
            },
            QueryMsg::IsTransferable { token_id } => QueryMsgView::IsTransferable {
                token_id: token_id@,
            },
        }
    }
}

/// queries using permits instead of viewing keys
#[derive(Debug)]
pub enum QueryWithPermit {
    /// displays the private metadata if permitted to view it
    PrivateMetadata { token_id: String },
    /// display the owner of the specified token if authorized to view it.  If the requester
    /// is also the token's owner, the response will also include a list of any addresses
    /// that can transfer this token.
    OwnerOf {
        token_id: String,
        /// optionally include expired Approvals in the response list.  If ommitted or
        /// false, expired Approvals will be filtered out of the response
        include_expired: Option<bool>,
    },
    /// displays all the information contained in the OwnerOf and NftInfo queries
    AllNftInfo {
        token_id: String,
        /// optionally include expired Approvals in the response list.  If ommitted or
        /// false, expired Approvals will be filtered out of the response
        include_expired: Option<bool>,
    },
    /// display the number of tokens controlled by the contract.  The token supply must
    /// either be public, or the querier must be an authenticated minter
    NumTokens {},
    /// display an optionally paginated list of all the tokens controlled by the contract.
    /// The token supply must either be public, or the querier must be an authenticated
    /// minter
    AllTokens {
        /// paginate by providing the last token_id received in the previous query
        start_after: Option<String>,
        /// optional number of token ids to display
        limit: Option<u32>,
    },
    /// displays a list of all the tokens belonging to the input owner in which the permit
    /// creator has view_owner permission
    Tokens {
        owner: Address,
        /// paginate by providing the last token_id received in the previous query
        start_after: Option<String>,
        /// optional number of token ids to display
        limit: Option<u32>,
    },
    /// displays the number of tokens that the querier has permission to see the owner and that
    /// belong to the specified address
    NumTokensOfOwner { owner: Address },
}

/// The view of a [`QueryWithPermit`].
pub enum QueryWithPermitView {
    PrivateMetadata { token_id: Seq<char> },
    OwnerOf { token_id: Seq<char>, include_expired: Option<bool> },
    AllNftInfo { token_id: Seq<char>, include_expired: Option<bool> },
    NumTokens,
    AllTokens { start_after: Option<Seq<char>>, limit: Option<u32> },
    Tokens { owner: Seq<u8>, start_after: Option<Seq<char>>, limit: Option<u32> },
    NumTokensOfOwner { owner: Seq<u8> },
}

impl View for QueryWithPermit {
    type V = QueryWithPermitView;

    open spec fn view(&self) -> QueryWithPermitView {
        match self {
            QueryWithPermit::PrivateMetadata { token_id } => QueryWithPermitView::PrivateMetadata {
                token_id: token_id@,
            },
            QueryWithPermit::OwnerOf { token_id, include_expired } => QueryWithPermitView::OwnerOf {
                token_id: token_id@,
                include_expired: *include_expired,
            },
            QueryWithPermit::AllNftInfo {
                token_id,
                include_expired,
            } => QueryWithPermitView::AllNftInfo {
                token_id: token_id@,
                include_expired: *include_expired,
            },
            QueryWithPermit::NumTokens {  } => QueryWithPermitView::NumTokens,
            QueryWithPermit::AllTokens { start_after, limit } => QueryWithPermitView::AllTokens {
                start_after: opt_str_view(*start_after),
                limit: *limit,
            },
            QueryWithPermit::Tokens { owner, start_after, limit } => QueryWithPermitView::Tokens {
                owner: owner@,
                start_after: opt_str_view(*start_after),
                limit: *limit,
            },
            QueryWithPermit::NumTokensOfOwner { owner } => QueryWithPermitView::NumTokensOfOwner {
                owner: owner@,
            },
        }
    }
}

/// tx type and specifics
#[derive(Debug)]
pub enum TxAction {
    /// transferred token ownership
    Transfer {
        /// previous owner
        from: String,
        /// optional sender if not owner
        sender: Option<String>,
        /// new owner
        recipient: String,
    },
}

/// tx for display
#[derive(Debug)]
pub struct Tx {
    /// tx id
    pub tx_id: u64,
    /// the block containing this tx
    pub block_height: u64,
    /// the time (in seconds since 01/01/1970) of the block containing this tx
    pub block_time: u64,
    /// token id
    pub token_id: String,
    /// tx type and specifics
    pub action: TxAction,
    /// optional memo
    pub memo: Option<String>,
}

/// The view of a [`Tx`].
pub struct TxView {
    pub tx_id: u64,
    pub block_height: u64,
    pub block_time: u64,
    pub token_id: Seq<char>,
    pub from: Seq<char>,
    pub sender: Option<Seq<char>>,
    pub recipient: Seq<char>,
    pub memo: Option<Seq<char>>,
}

impl View for Tx {
    type V = TxView;

    open spec fn view(&self) -> TxView {
        match self.action {
            TxAction::Transfer { from, sender, recipient } => TxView {
                tx_id: self.tx_id,
                block_height: self.block_height,
                block_time: self.block_time,
                token_id: self.token_id@,
                from: from@,
                sender: opt_str_view(sender),
                recipient: recipient@,
                memo: opt_str_view(self.memo),
            },
        }
    }
}

impl StoredTx {
    /// Converts a stored tx to a displayable tx. The addresses of the stored tx
    /// give way to their readable forms, which the caller hands in: `from` and
    /// `recipient` for the previous and the new owner, `sender` for the sender
    /// where the stored tx names one.
    ///
    /// # Arguments
    ///
    /// * `from` - the readable form of the previous owner's address
    /// * `sender` - the readable form of the sender's address
    /// * `recipient` - the readable form of the new owner's address
    pub fn into_humanized(self, from: String, sender: String, recipient: String) -> (tx: Tx)
        ensures
            tx@ == (TxView {
                tx_id: self.tx_id,
                block_height: self.block_height,
                block_time: self.block_time,
                token_id: self.token_id@,
                from: from@,
                sender: match self.action {
                    StoredTxAction::Transfer { from: f, sender: s, recipient: r } => match s {
                        Some(_) => Some(sender@),
                        None => None,
                    },
                },
                recipient: recipient@,
                memo: opt_str_view(self.memo),
            }),
    {
        let action = match self.action {
            StoredTxAction::Transfer { from: f, sender: s, recipient: r } => {
                let sndr = match s {
                    Some(_) => Some(sender),
                    None => None,
                };
                TxAction::Transfer { from, sender: sndr, recipient }
            },
        };
        Tx {
            tx_id: self.tx_id,
            block_height: self.block_height,
            block_time: self.block_time,
            token_id: self.token_id,
            action,
            memo: self.memo,
        }
    }
}

} // verus!

//! The notifications that tell a contract that tokens were sent to it.

use vstd::prelude::*;
use crate::address::Address;
use crate::msg::{ids_view, opt_bytes_view};

verus! {

/// used to create ReceiveNft and BatchReceiveNft callback messages.  BatchReceiveNft is preferred
/// over ReceiveNft, because ReceiveNft does not allow the recipient to know who sent the token,
/// only its previous owner, and ReceiveNft can only process one token.
#[derive(Debug)]
pub enum Snip721ReceiveMsg {
    /// ReceiveNft may be a HandleMsg variant of any contract that wants to implement a receiver
    /// interface.  BatchReceiveNft, which is more informative and more efficient, is preferred over
    /// ReceiveNft.
    ReceiveNft {
        /// previous owner of sent token
        sender: Address,
        /// token that was sent
        token_id: String,
        /// optional message to control receiving logic
        msg: Option<Vec<u8>>,
    },
    /// BatchReceiveNft may be a HandleMsg variant of any contract that wants to implement a receiver
    /// interface.  BatchReceiveNft, which is more informative and more efficient, is preferred over
    /// ReceiveNft.
    BatchReceiveNft {
        /// address that sent the tokens.  There is no ReceiveNft field equivalent to this
        sender: Address,
        /// previous owner of sent tokens.  This is equivalent to the ReceiveNft `sender` field
        from: Address,
        /// tokens that were sent
        token_ids: Vec<String>,
        /// optional message to control receiving logic
        msg: Option<Vec<u8>>,
    },
}

/// The view of a [`Snip721ReceiveMsg`].
pub enum ReceiveMsgView {
    ReceiveNft { sender: Seq<u8>, token_id: Seq<char>, msg: Option<Seq<u8>> },
    BatchReceiveNft {
        sender: Seq<u8>,
        from: Seq<u8>,
        token_ids: Seq<Seq<char>>,
        msg: Option<Seq<u8>>,
    },
}

impl View for Snip721ReceiveMsg {
    type V = ReceiveMsgView;

    open spec fn view(&self) -> ReceiveMsgView {
        match self {
            Snip721ReceiveMsg::ReceiveNft { sender, token_id, msg } => ReceiveMsgView::ReceiveNft {
                sender: sender@,
                token_id: token_id@,
                msg: opt_bytes_view(*msg),
            },
            Snip721ReceiveMsg::BatchReceiveNft {
                sender,
                from,
                token_ids,
                msg,
            } => ReceiveMsgView::BatchReceiveNft {
                sender: sender@,
                from: from@,
                token_ids: ids_view(token_ids@),
                msg: opt_bytes_view(*msg),
            },
        }
    }
}

/// A notification to deliver: the message, the contract that gets it, and that
/// contract's code hash.
#[derive(Debug)]
pub struct ReceiverCallback {
    /// the message for the receiving contract
    pub msg: Snip721ReceiveMsg,
    /// code hash of the contract that was sent the tokens
    pub callback_code_hash: String,
    /// address of the contract that was sent the tokens
    pub contract_addr: Address,
}

/// The view of a [`ReceiverCallback`].
pub struct CallbackView {
    pub msg: ReceiveMsgView,
    pub callback_code_hash: Seq<char>,
    pub contract_addr: Seq<u8>,
}

impl View for ReceiverCallback {
    type V = CallbackView;

    open spec fn view(&self) -> CallbackView {
        CallbackView {
            msg: self.msg@,
            callback_code_hash: self.callback_code_hash@,
            contract_addr: self.contract_addr@,
        }
    }
}

/// The views of a list of notifications.
pub open spec fn callbacks_view(c: Seq<ReceiverCallback>) -> Seq<CallbackView> {
    c.map_values(|x: ReceiverCallback| x@)
}

/// Returns the notification used to call a registered contract's ReceiveNft
///
/// # Arguments
///
/// * `sender` - the address of the former owner of the sent token
/// * `token_id` - ID String of the token that was sent
/// * `msg` - optional msg used to control ReceiveNft logic
/// * `callback_code_hash` - String holding the code hash of the contract that was
///                          sent the token
/// * `contract_addr` - address of the contract that was sent the token
pub fn receive_nft_msg(
    sender: Address,
    token_id: String,
    msg: Option<Vec<u8>>,
    callback_code_hash: String,
    contract_addr: Address,
) -> (c: ReceiverCallback)
    ensures
        c@ == (CallbackView {
            msg: ReceiveMsgView::ReceiveNft {
                sender: sender@,
                token_id: token_id@,
                msg: opt_bytes_view(msg),
            },
            callback_code_hash: callback_code_hash@,
            contract_addr: contract_addr@,
        }),
{
    let msg = Snip721ReceiveMsg::ReceiveNft { sender, token_id, msg };
    ReceiverCallback { msg, callback_code_hash, contract_addr }
}

/// Returns the notification used to call a registered contract's
/// BatchReceiveNft
///
/// # Arguments
///
/// * `sender` - the address that is sending the token
/// * `from` - the address of the former owner of the sent token
/// * `token_ids` - list of ID Strings of the tokens that were sent
/// * `msg` - optional msg used to control ReceiveNft logic
/// * `callback_code_hash` - String holding the code hash of the contract that was
///                          sent the token
/// * `contract_addr` - address of the contract that was sent the token
pub fn batch_receive_nft_msg(
    sender: Address,
    from: Address,
    token_ids: Vec<String>,
    msg: Option<Vec<u8>>,
    callback_code_hash: String,
    contract_addr: Address,
) -> (c: ReceiverCallback)
    ensures
        c@ == (CallbackView {
            msg: ReceiveMsgView::BatchReceiveNft {
                sender: sender@,
                from: from@,
                token_ids: ids_view(token_ids@),
                msg: opt_bytes_view(msg),
            },
            callback_code_hash: callback_code_hash@,
            contract_addr: contract_addr@,
        }),
{
    let msg = Snip721ReceiveMsg::BatchReceiveNft { sender, from, token_ids, msg };
    ReceiverCallback { msg, callback_code_hash, contract_addr }
}

} // verus!

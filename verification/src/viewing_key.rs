//! Viewing keys: the secret with which an address proves who it is when it asks.
//! The registry stores the SHA-256 hash of each key, never the key.

use vstd::prelude::*;
use vstd::bytes::{spec_u64_to_le_bytes, u64_to_le_bytes};
use vstd::string::StringExecFns;

use vstd::utf8::encode_utf8;
use crate::address::Address;
use crate::contract::check_status;
use crate::crypto::{base64_encode, base64_of, sha256_of, sha_256};
use crate::error::{ContractError, ErrorView};
use crate::msg::{Env, EnvView, HandleAnswer, HandleAnswerView, HandleResponse,
    HandleResponseView};
use crate::receiver::{callbacks_view, CallbackView, ReceiverCallback};
use crate::state::{value_at, Config, ConfigView, Entry, EntryView, Ledger, LedgerView};
use crate::table::{stored, Value};

verus! {

/// The number of bytes in the hash of a viewing key.
pub const VIEWING_KEY_SIZE: usize = 32;

/// The hash that stands for "no key set": 32 zero bytes.
pub open spec fn unset_hash() -> Seq<u8> {
    Seq::new(32, |i: int| 0u8)
}

/// The hash stored for `address`, or the hash that stands for "no key set".
pub open spec fn key_hash_of(l: LedgerView, address: Seq<u8>) -> Seq<u8> {
    match value_at::<Address, Vec<u8>>(l.view_keys, address) {
        Some(hash) => hash,
        None => unset_hash(),
    }
}

/// Whether the key with the bytes `viewing_key` is the key of `address`: its hash
/// is the stored one.
pub open spec fn key_matches(l: LedgerView, address: Seq<u8>, viewing_key: Seq<u8>) -> bool {
    sha256_of(viewing_key) == key_hash_of(l, address)
}

/// Decides on a viewing key from the stored hash and the hash of the key that
/// was presented.
pub fn hashes_match(stored_hash: Option<&Vec<u8>>, presented: &Vec<u8>) -> (r: bool)
    ensures
        r == (presented@ == match stored_hash {
            Some(h) => h@,
            None => unset_hash(),
        }),
{
    match stored_hash {
        Some(h) => {
            let r = *h == *presented;
            proof {
                if r {
                    assert(h@ =~= presented@);
                }
            }
            r
        },
        None => {
            if presented.len() != VIEWING_KEY_SIZE {
                return false;
            }
            let mut i: usize = 0;
            while i < VIEWING_KEY_SIZE
                invariant
                    i <= 32,
                    stored_hash is None,
                    presented@.len() == 32,
                    forall|j: int| 0 <= j < i ==> presented@[j] == 0u8,
                decreases 32 - i,
            {
                if presented[i] != 0 {
                    assert(unset_hash()[i as int] == 0u8);
                    return false;
                }
                i += 1;
            }
            assert(presented@ =~= unset_hash());
            true
        },
    }
}

/// Returns Ok where `viewing_key` is the key set for `address`
///
/// # Arguments
///
/// * `ledger` - a reference to the ledger
/// * `address` - a reference to the address whose key should be validated
/// * `viewing_key` - String key used for authentication
pub fn check_key(ledger: &Ledger, address: &Address, viewing_key: &str) -> (r: Result<
    (),
    ContractError,
>)
    ensures
        match r {
            Ok(()) => key_matches(ledger@, address@, encode_utf8(viewing_key@)),
            Err(e) => !key_matches(ledger@, address@, encode_utf8(viewing_key@)) && e@
                == ErrorView::WrongViewingKey,
        },
{
    let presented = sha_256(viewing_key.as_bytes());
    let stored_hash = match ledger.view_keys.get(address) {
        Some(entry) => Some(&entry.value),
        None => None,
    };
    if hashes_match(stored_hash, &presented) {
        Ok(())
    } else {
        Err(ContractError::WrongViewingKey)
    }
}

/// Setting a viewing key as a request: fails where the contract status is above
/// `priority`, else stores the hash of `key` for the sender and hands the key
/// back.
pub open spec fn set_key_spec(
    l: LedgerView,
    config: ConfigView,
    env: EnvView,
    priority: u8,
    key: Seq<char>,
) -> (Result<HandleResponseView, ErrorView>, LedgerView) {
    if priority < config.status {
        (Err(ErrorView::StatusGateClosed), l)
    } else {
        (
            Ok(
                HandleResponseView {
                    messages: Seq::empty(),
                    data: Some(HandleAnswerView::ViewingKey { key }),
                },
            ),
            LedgerView {
                view_keys: stored::<Entry<Address, Vec<u8>>>(
                    l.view_keys,
                    EntryView { key: env.sender, value: sha256_of(encode_utf8(key)) },
                ),
                ..l
            },
        )
    }
}

/// Sets the viewing key to the input String
///
/// # Arguments
///
/// * `ledger` - mutable reference to the ledger
/// * `env` - Env of contract's environment
/// * `config` - a reference to the Config
/// * `priority` - u8 representation of highest ContractStatus level this action is permitted
/// * `key` - String to be used as the viewing key
pub fn set_key(ledger: &mut Ledger, env: &Env, config: &Config, priority: u8, key: String) -> (r:
    Result<HandleResponse, ContractError>)
    ensures
        ({
            let model = set_key_spec(old(ledger)@, config@, env@, priority, key@);
            &&& final(ledger)@ == model.1
            &&& match r {
                Ok(response) => model.0 == Ok::<HandleResponseView, ErrorView>(response@),
                Err(e) => model.0 == Err::<HandleResponseView, ErrorView>(e@),
            }
        }),
{
    match check_status(config.status, priority) {
        Ok(()) => {},
        Err(e) => {
            return Err(e);
        },
    }
    let hash = sha_256(key.as_str().as_bytes());
    ledger.view_keys.put(Entry { key: env.sender.copy(), value: hash });
    let messages: Vec<ReceiverCallback> = Vec::new();
    assert(callbacks_view(messages@) =~= Seq::<CallbackView>::empty());
    Ok(HandleResponse { messages, data: Some(HandleAnswer::ViewingKey { key }) })
}

/// `dst` with the bytes of `src` behind it.
fn append(dst: &mut Vec<u8>, src: &[u8])
    ensures
        final(dst)@ == old(dst)@ + src@,
{
    let mut i: usize = 0;
    while i < src.len()
        invariant
            i <= src@.len(),
            dst@ == old(dst)@ + src@.take(i as int),
        decreases src@.len() - i,
    {
        dst.push(src[i]);
        assert(src@.take(i + 1) =~= src@.take(i as int).push(src@[i as int]));
        i += 1;
    }
    assert(src@.take(src@.len() as int) =~= src@);
}

/// What a created key is derived from: the seed of the contract, the height and
/// the time of the block in little-endian bytes, the sender, and the sender's
/// entropy.
pub open spec fn key_material(seed: Seq<u8>, env: EnvView, entropy: Seq<char>) -> Seq<u8> {
    seed + spec_u64_to_le_bytes(env.block.height) + spec_u64_to_le_bytes(env.block.time)
        + env.sender + encode_utf8(entropy)
}

/// The viewing key that the contract creates for a request: `api_key_`, then the
/// base64 text of the SHA-256 digest of the [`key_material`].
pub open spec fn derived_key(seed: Seq<u8>, env: EnvView, entropy: Seq<char>) -> Seq<char> {
    "api_key_"@ + base64_of(sha256_of(key_material(seed, env, entropy)))
}

/// Derives the viewing key of [`derived_key`].
pub fn derive_key(seed: &Vec<u8>, env: &Env, entropy: &str) -> (key: String)
    ensures
        key@ == derived_key(seed@, env@, entropy@),
{
    let mut material: Vec<u8> = Vec::new();
    append(&mut material, seed.as_slice());
    let height = u64_to_le_bytes(env.block.height);
    append(&mut material, height.as_slice());
    let time = u64_to_le_bytes(env.block.time);
    append(&mut material, time.as_slice());
    append(&mut material, env.sender.as_slice());
    append(&mut material, entropy.as_bytes());
    assert(material@ =~= key_material(seed@, env@, entropy@));
    let hash = sha_256(material.as_slice());
    let text = base64_encode(hash.as_slice());
    String::from_str("api_key_").concat(text.as_str())
}

/// Creating a viewing key as a request: what [`set_key_spec`] says of the key
/// that is derived from the seed of the contract, the block, the sender and the
/// sender's entropy.
pub open spec fn create_key_spec(
    l: LedgerView,
    config: ConfigView,
    env: EnvView,
    priority: u8,
    entropy: Seq<char>,
) -> (Result<HandleResponseView, ErrorView>, LedgerView) {
    set_key_spec(l, config, env, priority, derived_key(config.prng_seed, env, entropy))
}

/// Creates a viewing key
///
/// # Arguments
///
/// * `ledger` - mutable reference to the ledger
/// * `env` - Env of contract's environment
/// * `config` - a reference to the Config
/// * `priority` - u8 representation of highest ContractStatus level this action is permitted
/// * `entropy` - string slice of the input String to be used as entropy in randomization
pub fn create_key(ledger: &mut Ledger, env: &Env, config: &Config, priority: u8, entropy: &str)
    -> (r: Result<HandleResponse, ContractError>)
    ensures
        ({
            let model = create_key_spec(old(ledger)@, config@, env@, priority, entropy@);
            &&& final(ledger)@ == model.1
            &&& match r {
                Ok(response) => model.0 == Ok::<HandleResponseView, ErrorView>(response@),
                Err(e) => model.0 == Err::<HandleResponseView, ErrorView>(e@),
            }
        }),
{
    let key = derive_key(&config.prng_seed, env, entropy);
    set_key(ledger, env, config, priority, key)
}

} // verus!

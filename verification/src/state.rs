//! What the contract keeps in storage, and the calls that read and write it.
//!
//! The storage is a `cosmwasm_std::MemoryStorage`. Four things live in it:
//! the version marker of `cw2`, the owner, a score for each address and a
//! score for each pair of an address and a token. Each is read and written
//! through `cw-storage-plus`, by the functions at the end of this file, whose
//! contracts are taken on trust. Each is handed the key or the namespace that
//! it works under, and its contract holds for that one. Everything else in
//! the crate is proved from them.

use cosmwasm_std::{Addr, MemoryStorage, StdError};
use vstd::prelude::*;

verus! {

/// Storage key of the owner record.
pub const STATE: &'static str = "state";

/// Namespace of the scores by address.
pub const SCORE_BY_ADDRESS: &'static str = "score_by_address";

/// Namespace of the scores by address and token.
pub const SCORE_BY_ADDRESS_AND_TOKEN: &'static str = "score_by_address_and_token";

/// The most bytes that the address of a pair may take. In the storage key of
/// a pair the address is preceded by its length, written in two bytes.
pub const MAX_PAIRABLE_LEN: usize = 0xFFFF;

/// The owner record. It is stored under [`STATE`] as the owner's address.
#[derive(Clone, Debug, PartialEq)]
pub struct State {
    pub owner: String,
}

/// `cosmwasm_std::MemoryStorage`, a map from byte keys to byte values.
#[verifier::external_type_specification]
#[verifier::external_body]
pub struct ExMemoryStorage(MemoryStorage);

/// The contract name and the version that `cw2::get_contract_version` would
/// read from the storage, or `None` where that call would fail.
pub uninterp spec fn stored_version(storage: MemoryStorage) -> Option<(Seq<char>, Seq<char>)>;

/// The owner that `cw_storage_plus::Item::load` would read under [`STATE`],
/// or `None` where that call would fail (nothing is stored there, or what
/// is stored does not decode).
pub uninterp spec fn stored_owner(storage: MemoryStorage) -> Option<Seq<char>>;

/// The entries of the map of scores by address, [`SCORE_BY_ADDRESS`]. An
/// address is a key where `cw_storage_plus::Map::has` finds an entry for it;
/// its value is what `Map::load` would read, or `None` where the bytes of
/// the entry do not decode to an `i32`.
pub uninterp spec fn stored_scores(storage: MemoryStorage) -> Map<Seq<char>, Option<i32>>;

/// The entries of the map of scores by address and token,
/// [`SCORE_BY_ADDRESS_AND_TOKEN`], in the same way as [`stored_scores`].
pub uninterp spec fn stored_token_scores(storage: MemoryStorage) -> Map<
    (Seq<char>, Seq<char>),
    Option<i32>,
>;

/// The mathematical picture of a storage: what the four names above say of it.
/// In the two maps, `None` marks an entry that is there but cannot be read.
#[verifier::ext_equal]
pub struct Ledger {
    pub version: Option<(Seq<char>, Seq<char>)>,
    pub owner: Option<Seq<char>>,
    pub scores: Map<Seq<char>, Option<i32>>,
    pub token_scores: Map<(Seq<char>, Seq<char>), Option<i32>>,
}

/// The ledger that a storage holds.
pub open spec fn ledger(storage: MemoryStorage) -> Ledger {
    Ledger {
        version: stored_version(storage),
        owner: stored_owner(storage),
        scores: stored_scores(storage),
        token_scores: stored_token_scores(storage),
    }
}

/// Whether an address can be the first part of a pair's storage key.
pub open spec fn pairable(address: Seq<char>) -> bool {
    vstd::utf8::encode_utf8(address).len() <= MAX_PAIRABLE_LEN
}

/// Tests [`pairable`].
pub fn is_pairable(address: &str) -> (fits: bool)
    ensures
        fits == pairable(address@),
{
    address.as_bytes().len() <= MAX_PAIRABLE_LEN
}

/// An address of up to a quarter of [`MAX_PAIRABLE_LEN`] characters fits,
/// whatever the characters: none takes more than four bytes.
pub proof fn short_address_fits(address: Seq<char>)
    requires
        4 * address.len() <= MAX_PAIRABLE_LEN,
    ensures
        pairable(address),
{
    encoding_is_short(address);
}

/// The UTF-8 encoding of a text takes at most four bytes for each character.
proof fn encoding_is_short(text: Seq<char>)
    ensures
        vstd::utf8::encode_utf8(text).len() <= 4 * text.len(),
    decreases text.len(),
{
    if text.len() > 0 {
        encoding_is_short(text.drop_first());
    }
}

/// Calls `cw2::set_contract_version`, which saves the two texts as one record
/// under the key `contract_info`. Trusted: the call succeeds (a record of two
/// strings always serialises), the version marker then reads as the two
/// texts, and the owner and the scores, which live under other keys, stay
/// as they were.
#[verifier::external_body]
pub(crate) fn register_version(
    storage: &mut MemoryStorage,
    contract: &str,
    version: &str,
) -> (registered: Result<(), StdError>)
    ensures
        registered is Ok,
        stored_version(*final(storage)) == Some((contract@, version@)),
        stored_owner(*final(storage)) == stored_owner(*old(storage)),
        stored_scores(*final(storage)) == stored_scores(*old(storage)),
        stored_token_scores(*final(storage)) == stored_token_scores(*old(storage)),
{
    cw2::set_contract_version(storage, contract, version)
}

/// Calls `cw_storage_plus::Item::load` on the owner record. Trusted: the
/// call returns the stored owner, and fails exactly where none can be read.
#[verifier::external_body]
pub(crate) fn load_state(storage: &MemoryStorage, key: &str) -> (loaded: Result<State, StdError>)
    requires
        key@ == STATE@,
    ensures
        match loaded {
            Ok(state) => stored_owner(*storage) == Some(state.owner@),
            Err(_) => stored_owner(*storage) is None,
        },
{
    match cw_storage_plus::Item::<Addr>::new(key).load(storage) {
        Ok(owner) => Ok(State { owner: owner.into_string() }),
        Err(e) => Err(e),
    }
}

/// Calls `cw_storage_plus::Item::save` on the owner record. Trusted: the
/// call succeeds (an address always serialises), the owner then reads as
/// `state.owner`, and the version marker and the scores stay as they were.
#[verifier::external_body]
pub(crate) fn save_state(
    storage: &mut MemoryStorage,
    key: &str,
    state: &State,
) -> (saved: Result<(), StdError>)
    requires
        key@ == STATE@,
    ensures
        saved is Ok,
        stored_owner(*final(storage)) == Some(state.owner@),
        stored_version(*final(storage)) == stored_version(*old(storage)),
        stored_scores(*final(storage)) == stored_scores(*old(storage)),
        stored_token_scores(*final(storage)) == stored_token_scores(*old(storage)),
{
    cw_storage_plus::Item::<Addr>::new(key).save(storage, &Addr::unchecked(state.owner.as_str()))
}

/// Calls `cw_storage_plus::Map::has` on the scores by address. Trusted: the
/// call tells whether the address has an entry, readable or not.
#[verifier::external_body]
pub(crate) fn has_score(storage: &MemoryStorage, namespace: &str, address: &str) -> (present: bool)
    requires
        namespace@ == SCORE_BY_ADDRESS@,
    ensures
        present == stored_scores(*storage).contains_key(address@),
{
    cw_storage_plus::Map::<Addr, i32>::new(namespace).has(storage, Addr::unchecked(address))
}

/// Calls `cw_storage_plus::Map::load` on the scores by address. Trusted: the
/// call returns the score of an entry that can be read, and fails where the
/// address has no entry or its entry cannot be read.
#[verifier::external_body]
pub(crate) fn load_score(
    storage: &MemoryStorage,
    namespace: &str,
    address: &str,
) -> (loaded: Result<i32, StdError>)
    requires
        namespace@ == SCORE_BY_ADDRESS@,
    ensures
        match loaded {
            Ok(score) => stored_scores(*storage).contains_key(address@)
                && stored_scores(*storage)[address@] == Some(score),
            Err(_) => !stored_scores(*storage).contains_key(address@)
                || stored_scores(*storage)[address@] is None,
        },
{
    cw_storage_plus::Map::<Addr, i32>::new(namespace).load(storage, Addr::unchecked(address))
}

/// Calls `cw_storage_plus::Map::save` on the scores by address. Trusted: the
/// call succeeds (an `i32` always serialises), the address then has the
/// score as a readable entry, and every other entry, the scores by address
/// and token, the owner and the version marker stay as they were.
#[verifier::external_body]
pub(crate) fn save_score(
    storage: &mut MemoryStorage,
    namespace: &str,
    address: &str,
    score: i32,
) -> (saved: Result<(), StdError>)
    requires
        namespace@ == SCORE_BY_ADDRESS@,
    ensures
        saved is Ok,
        stored_scores(*final(storage))
            == stored_scores(*old(storage)).insert(address@, Some(score)),
        stored_token_scores(*final(storage)) == stored_token_scores(*old(storage)),
        stored_owner(*final(storage)) == stored_owner(*old(storage)),
        stored_version(*final(storage)) == stored_version(*old(storage)),
{
    cw_storage_plus::Map::<Addr, i32>::new(namespace).save(
        storage,
        Addr::unchecked(address),
        &score,
    )
}

/// Calls `cw_storage_plus::Map::has` on the scores by address and token.
/// Trusted: the call tells whether the pair has an entry, readable or not.
/// An address of more than [`MAX_PAIRABLE_LEN`] bytes is left out: building
/// the key panics on it.
#[verifier::external_body]
pub(crate) fn has_token_score(
    storage: &MemoryStorage,
    namespace: &str,
    address: &str,
    token: &str,
) -> (present: bool)
    requires
        namespace@ == SCORE_BY_ADDRESS_AND_TOKEN@,
        pairable(address@),
    ensures
        present == stored_token_scores(*storage).contains_key((address@, token@)),
{
    cw_storage_plus::Map::<(Addr, Addr), i32>::new(namespace).has(
        storage,
        (Addr::unchecked(address), Addr::unchecked(token)),
    )
}

/// Calls `cw_storage_plus::Map::load` on the scores by address and token.
/// Trusted: the call returns the score of an entry that can be read, and
/// fails where the pair has no entry or its entry cannot be read.
#[verifier::external_body]
pub(crate) fn load_token_score(
    storage: &MemoryStorage,
    namespace: &str,
    address: &str,
    token: &str,
) -> (loaded: Result<i32, StdError>)
    requires
        namespace@ == SCORE_BY_ADDRESS_AND_TOKEN@,
        pairable(address@),
    ensures
        match loaded {
            Ok(score) => stored_token_scores(*storage).contains_key((address@, token@))
                && stored_token_scores(*storage)[(address@, token@)] == Some(score),
            Err(_) => !stored_token_scores(*storage).contains_key((address@, token@))
                || stored_token_scores(*storage)[(address@, token@)] is None,
        },
{
    cw_storage_plus::Map::<(Addr, Addr), i32>::new(namespace).load(
        storage,
        (Addr::unchecked(address), Addr::unchecked(token)),
    )
}

/// Calls `cw_storage_plus::Map::save` on the scores by address and token.
/// Trusted: the call succeeds, the pair then has the score as a readable
/// entry, and every other entry, the scores by address, the owner and the
/// version marker stay as they were.
#[verifier::external_body]
pub(crate) fn save_token_score(
    storage: &mut MemoryStorage,
    namespace: &str,
    address: &str,
    token: &str,
    score: i32,
) -> (saved: Result<(), StdError>)
    requires
        namespace@ == SCORE_BY_ADDRESS_AND_TOKEN@,
        pairable(address@),
    ensures
        saved is Ok,
        stored_token_scores(*final(storage))
            == stored_token_scores(*old(storage)).insert((address@, token@), Some(score)),
        stored_scores(*final(storage)) == stored_scores(*old(storage)),
        stored_owner(*final(storage)) == stored_owner(*old(storage)),
        stored_version(*final(storage)) == stored_version(*old(storage)),
{
    cw_storage_plus::Map::<(Addr, Addr), i32>::new(namespace).save(
        storage,
        (Addr::unchecked(address), Addr::unchecked(token)),
        &score,
    )
}

} // verus!

//! The host's ordered map, as far as the donation ledger relies on it.
//!
//! The host keeps maps as immutable objects that a contract holds by handle;
//! every method of `soroban_sdk::Map` is a call into the host. Nothing in this
//! file is proved: each function states what the host's map is documented to do,
//! in terms of the entries that the map holds.
//!
//! The ledger files amounts under account identifiers. An identifier goes to
//! the host as a host string of the same bytes (`soroban_sdk::String::from_bytes`)
//! and comes back by `soroban_sdk::String::len` and `copy_into_slice`; the host
//! tells two strings apart by their bytes. A map that only these functions have
//! filled holds amounts only, so that reading one back never fails.
//!
//! Like an allocator that runs out of memory, the host ends the invocation when
//! its metering budget is spent; the statements below are about the calls that
//! return.

use vstd::prelude::*;
use crate::account::AccountId;
use crate::account::precedes;

verus! {

/// `soroban_sdk::Env`, the handle to the host. It is carried, never looked into.
#[verifier::external_type_specification]
#[verifier::external_body]
pub struct ExEnv(soroban_sdk::Env);

/// `soroban_sdk::String`, a string that the host keeps; the key type of the map.
#[verifier::external_type_specification]
#[verifier::external_body]
pub struct ExHostString(soroban_sdk::String);

/// `soroban_sdk::Map`, a map that the host keeps. What one holds is named by
/// `host_map_entries`.
#[verifier::external_type_specification]
#[verifier::external_body]
#[verifier::reject_recursive_types(K)]
#[verifier::reject_recursive_types(V)]
pub struct ExHostMap<K, V>(soroban_sdk::Map<K, V>);

/// The entries of a host map from strings to amounts: each key by its bytes.
pub uninterp spec fn host_map_entries(m: soroban_sdk::Map<soroban_sdk::String, i128>) -> Map<
    Seq<u8>,
    i128,
>;

/// `soroban_sdk::Map::new`: a map without entries.
#[verifier::external_body]
pub(crate) fn host_map_new(env: &soroban_sdk::Env) -> (made: soroban_sdk::Map<
    soroban_sdk::String,
    i128,
>)
    ensures
        host_map_entries(made) == (Map::<Seq<u8>, i128>::empty()),
{
    soroban_sdk::Map::new(env)
}

/// `soroban_sdk::Map::get`: the value filed under the key, or `None` where the
/// map has no entry for it. The map is left as it was.
#[verifier::external_body]
pub(crate) fn host_map_get(
    m: &soroban_sdk::Map<soroban_sdk::String, i128>,
    key: &AccountId,
) -> (found: Option<i128>)
    ensures
        host_map_entries(*m).contains_key(key@) ==> found == Some(host_map_entries(*m)[key@]),
        !host_map_entries(*m).contains_key(key@) ==> found.is_none(),
{
    m.get(soroban_sdk::String::from_bytes(m.env(), key.as_bytes()))
}

/// `soroban_sdk::Map::set`: afterwards the key has the given value, replacing
/// the one it had, and every other entry is as before.
#[verifier::external_body]
pub(crate) fn host_map_set(
    m: &mut soroban_sdk::Map<soroban_sdk::String, i128>,
    key: &AccountId,
    value: i128,
)
    ensures
        host_map_entries(*final(m)) == host_map_entries(*old(m)).insert(key@, value),
{
    m.set(soroban_sdk::String::from_bytes(m.env(), key.as_bytes()), value)
}

/// `soroban_sdk::Map::remove`: afterwards the key has no entry, and every
/// other entry is as before. It returns `None` where the key had none.
#[verifier::external_body]
pub(crate) fn host_map_remove(
    m: &mut soroban_sdk::Map<soroban_sdk::String, i128>,
    key: &AccountId,
) -> (removed: Option<()>)
    ensures
        host_map_entries(*final(m)) == host_map_entries(*old(m)).remove(key@),
        removed.is_some() == host_map_entries(*old(m)).contains_key(key@),
{
    m.remove(soroban_sdk::String::from_bytes(m.env(), key.as_bytes()))
}

/// `soroban_sdk::Map::keys`: every key of the map once, in the order in which
/// the host keeps them. The host keeps a map sorted by its keys and orders
/// strings as byte strings, so the keys come out in strictly ascending
/// dictionary order. Each key is handed out as the identifier of its bytes.
#[verifier::external_body]
pub(crate) fn host_map_keys(m: &soroban_sdk::Map<soroban_sdk::String, i128>) -> (keys: Vec<AccountId>)
    ensures
        forall|i: int|
            0 <= i < keys@.len() ==> host_map_entries(*m).contains_key(#[trigger] keys@[i]@),
        forall|k: Seq<u8>| #[trigger]
            host_map_entries(*m).contains_key(k) ==> exists|i: int|
                0 <= i < keys@.len() && #[trigger] keys@[i]@ == k,
        forall|i: int, j: int|
            0 <= i < j < keys@.len() ==> precedes(#[trigger] keys@[i]@, #[trigger] keys@[j]@),
{
    let mut keys = Vec::new();
    for key in m.keys().iter() {
        let mut bytes = vec![0u8; key.len() as usize];
        key.copy_into_slice(&mut bytes);
        keys.push(AccountId::from_bytes(bytes));
    }
    keys
}

} // verus!

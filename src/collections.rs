//! The concurrent maps and sets of the gateway. They come from `dashmap`;
//! what each one holds is named below, and every call made on them goes
//! through one of the wrappers of this module, whose contracts state what
//! the call does to the contents.

use vstd::prelude::*;

use dashmap::{DashMap, DashSet};

use crate::session::{PendingToken, WebSocketSessionData};
use crate::topics::WebSocketSubscriptionType;

verus! {

#[verifier::external_type_specification]
#[verifier::external_body]
#[verifier::reject_recursive_types(K)]
#[verifier::reject_recursive_types(V)]
#[verifier::reject_recursive_types(S)]
pub struct ExDashMap<K, V, S>(DashMap<K, V, S>);

#[verifier::external_type_specification]
#[verifier::external_body]
#[verifier::reject_recursive_types(K)]
#[verifier::reject_recursive_types(S)]
pub struct ExDashSet<K, S>(DashSet<K, S>);

/// The map of live sessions, keyed by connection id.
pub type SessionMap = DashMap<u128, WebSocketSessionData>;

/// The map of pending tokens, keyed by token id.
pub type TokenMap = DashMap<u128, PendingToken>;

/// The live sessions held by a session map, by connection id.
pub uninterp spec fn session_entries(m: SessionMap) -> Map<
    u128,
    WebSocketSessionData,
>;

/// The pending tokens held by a token map, by token id.
pub uninterp spec fn token_entries(m: TokenMap) -> Map<u128, PendingToken>;

/// The topics held by a subscription set.
pub uninterp spec fn topic_entries(s: DashSet<WebSocketSubscriptionType>) -> Set<
    WebSocketSubscriptionType,
>;

/// Relies on `DashMap::new`: the new map is empty.
#[verifier::external_body]
pub(crate) fn new_session_map() -> (r: SessionMap)
    ensures
        session_entries(r).is_empty(),
{
    DashMap::new()
}

/// Relies on `DashMap::insert`: afterwards `key` maps to `value`, every other
/// entry is kept.
#[verifier::external_body]
pub(crate) fn session_map_insert(
    m: &mut SessionMap,
    key: u128,
    value: WebSocketSessionData,
)
    ensures
        session_entries(*final(m)) == session_entries(*old(m)).insert(key, value),
{
    m.insert(key, value);
}

/// Relies on `DashMap::remove`: the entry of `key` leaves the map and is
/// handed back, if there was one.
#[verifier::external_body]
pub(crate) fn session_map_remove(m: &mut SessionMap, key: u128) -> (r:
    Option<WebSocketSessionData>)
    ensures
        session_entries(*final(m)) == session_entries(*old(m)).remove(key),
        r == (if session_entries(*old(m)).contains_key(key) {
            Some(session_entries(*old(m))[key])
        } else {
            None::<WebSocketSessionData>
        }),
{
    m.remove(&key).map(|(_, v)| v)
}

/// Relies on `DashMap::iter`: it visits each entry once; only the keys are
/// kept, in the order of the visit.
#[verifier::external_body]
pub(crate) fn session_map_keys(m: &SessionMap) -> (r: Vec<u128>)
    ensures
        r@.no_duplicates(),
        r@.to_set() == session_entries(*m).dom(),
{
    m.iter().map(|e| *e.key()).collect()
}

/// Relies on `DashMap::new`: the new map is empty.
#[verifier::external_body]
pub(crate) fn new_token_map() -> (r: TokenMap)
    ensures
        token_entries(r).is_empty(),
{
    DashMap::new()
}

/// Relies on `DashMap::insert`: afterwards `key` maps to `value`, every other
/// entry is kept.
#[verifier::external_body]
pub(crate) fn token_map_insert(m: &mut TokenMap, key: u128, value: PendingToken)
    ensures
        token_entries(*final(m)) == token_entries(*old(m)).insert(key, value),
{
    m.insert(key, value);
}

/// Relies on `DashMap::remove`: the entry of `key` leaves the map and is
/// handed back, if there was one.
#[verifier::external_body]
pub(crate) fn token_map_remove(m: &mut TokenMap, key: u128) -> (r: Option<
    PendingToken,
>)
    ensures
        token_entries(*final(m)) == token_entries(*old(m)).remove(key),
        r == (if token_entries(*old(m)).contains_key(key) {
            Some(token_entries(*old(m))[key])
        } else {
            None::<PendingToken>
        }),
{
    m.remove(&key).map(|(_, v)| v)
}

/// Relies on `DashSet::new`: the new set is empty.
#[verifier::external_body]
pub(crate) fn new_topic_set() -> (r: DashSet<WebSocketSubscriptionType>)
    ensures
        topic_entries(r) == Set::<WebSocketSubscriptionType>::empty(),
{
    DashSet::new()
}

/// Relies on `DashSet::insert`: afterwards the set holds `key` besides what
/// it held.
#[verifier::external_body]
pub(crate) fn topic_set_insert(s: &mut DashSet<WebSocketSubscriptionType>, key: WebSocketSubscriptionType)
    ensures
        topic_entries(*final(s)) == topic_entries(*old(s)).insert(key),
{
    s.insert(key);
}

/// Relies on `DashSet::remove`: afterwards the set no longer holds `key`.
#[verifier::external_body]
pub(crate) fn topic_set_remove(s: &mut DashSet<WebSocketSubscriptionType>, key: WebSocketSubscriptionType)
    ensures
        topic_entries(*final(s)) == topic_entries(*old(s)).remove(key),
{
    s.remove(&key);
}

/// Relies on `DashSet::contains`: whether the set holds `key`.
#[verifier::external_body]
pub(crate) fn topic_set_contains(s: &DashSet<WebSocketSubscriptionType>, key: WebSocketSubscriptionType) -> (r: bool)
    ensures
        r == topic_entries(*s).contains(key),
{
    s.contains(&key)
}

} // verus!

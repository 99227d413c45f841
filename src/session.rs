//! The session store and the token broker: the shared state of the gateway.
//!
//! A token bridges the HTTP request that asks for a connection and the
//! connection itself: it is issued bound to an identity, redeemed at most
//! once, and worthless once its expiry window has passed. A redeemed token
//! becomes a live session, which carries its identity and its topics until
//! the connection closes.

use vstd::prelude::*;

use std::collections::HashSet;

use dashmap::DashSet;

use crate::broadcast::{event_receives, session_receives};
use crate::collections::{
    new_session_map, new_token_map, new_topic_set, session_entries, session_map_insert,
    session_map_keys, session_map_remove, token_entries, token_map_insert, token_map_remove,
    topic_entries, topic_set_contains, topic_set_insert, topic_set_remove, SessionMap, TokenMap,
};
use crate::ids::{new_token_id, parse_token_id, uuid_parsed};
use crate::messages::WebSocketEvent;
use crate::models::SessionQuery;
use crate::text::owned_opt;
use crate::topics::{all_topics, valid_subscription_types, WebSocketSubscriptionType};

verus! {

broadcast use vstd::std_specs::hash::group_hash_axioms;

/// How long an unredeemed token stays valid, in milliseconds.
pub const TOKEN_EXPIRATION_MS: u64 = 30_000;

/// The expiry window as the number of seconds the HTTP layer reports.
pub const TOKEN_EXPIRATION_SECS: u64 = 30;

/// The address that stands for an unauthenticated identity.
pub open spec fn guest_address() -> Seq<char> {
    "guest"@
}

/// The text of an optional string.
pub open spec fn opt_text(o: Option<String>) -> Option<Seq<char>> {
    match o {
        Some(s) => Some(s@),
        None => None,
    }
}

/// The identity a token is bound to, and that its session starts with.
#[derive(Debug)]
pub struct WebSocketTokenData {
    pub address: String,
    pub private_key: Option<String>,
}

/// What a token's identity holds.
pub struct Identity {
    pub address: Seq<char>,
    pub private_key: Option<Seq<char>>,
}

impl View for WebSocketTokenData {
    type V = Identity;

    open spec fn view(&self) -> Identity {
        Identity { address: self.address@, private_key: opt_text(self.private_key) }
    }
}

impl WebSocketTokenData {
    pub fn new(address: String, private_key: Option<String>) -> (r: WebSocketTokenData)
        ensures
            r.address == address,
            r.private_key == private_key,
    {
        WebSocketTokenData { address, private_key }
    }

    /// The identity of a client that presented no credential.
    pub fn guest() -> (r: WebSocketTokenData)
        ensures
            r@ == (Identity { address: guest_address(), private_key: None }),
    {
        WebSocketTokenData { address: guest_string(), private_key: None }
    }
}

/// A fresh copy of the guest address.
pub fn guest_string() -> (r: String)
    ensures
        r@ == guest_address(),
{
    crate::text::owned("guest")
}

/// A token waiting to be redeemed: its identity and when it was issued.
pub struct PendingToken {
    pub data: WebSocketTokenData,
    pub issued_at: u64,
}

/// What a pending token holds.
pub struct TokenView {
    pub identity: Identity,
    pub issued_at: int,
}

impl View for PendingToken {
    type V = TokenView;

    open spec fn view(&self) -> TokenView {
        TokenView { identity: self.data@, issued_at: self.issued_at as int }
    }
}

/// A token issued at `issued_at` can still be redeemed at time `now`.
pub open spec fn token_live(issued_at: int, now: int) -> bool {
    now < issued_at + TOKEN_EXPIRATION_MS
}

/// The token `id` of `m` can be redeemed at time `now`.
pub open spec fn redeemable(m: Map<u128, TokenView>, id: u128, now: int) -> bool {
    m.contains_key(id) && token_live(m[id].issued_at, now)
}

/// The state of one live session.
pub struct WebSocketSessionData {
    pub address: String,
    pub private_key: Option<String>,
    pub subscriptions: DashSet<WebSocketSubscriptionType>,
}

/// What a live session holds.
pub struct SessionView {
    pub address: Seq<char>,
    pub private_key: Option<Seq<char>>,
    pub subscriptions: Set<WebSocketSubscriptionType>,
}

impl View for WebSocketSessionData {
    type V = SessionView;

    open spec fn view(&self) -> SessionView {
        SessionView {
            address: self.address@,
            private_key: opt_text(self.private_key),
            subscriptions: topic_entries(self.subscriptions),
        }
    }
}

/// A session is a guest's when its address is the guest marker.
pub open spec fn is_guest_view(s: SessionView) -> bool {
    s.address == guest_address()
}

impl WebSocketSessionData {
    /// Whether this session is unauthenticated.
    pub fn is_guest(&self) -> (r: bool)
        ensures
            r == is_guest_view(self@),
    {
        crate::text::text_eq(self.address.as_str(), "guest")
    }
}

/// The topics a session starts with.
pub open spec fn default_topics() -> Set<WebSocketSubscriptionType> {
    set![WebSocketSubscriptionType::OwnTransactions, WebSocketSubscriptionType::Blocks]
}

/// The session that redeeming a token bound to `identity` creates.
pub open spec fn fresh_session(identity: Identity) -> SessionView {
    SessionView {
        address: identity.address,
        private_key: identity.private_key,
        subscriptions: default_topics(),
    }
}

/// The sessions after `id` subscribed to `t`; unknown ids change nothing.
pub open spec fn subscribed(
    m: Map<u128, SessionView>,
    id: u128,
    t: WebSocketSubscriptionType,
) -> Map<u128, SessionView> {
    if m.contains_key(id) {
        m.insert(id, SessionView { subscriptions: m[id].subscriptions.insert(t), ..m[id] })
    } else {
        m
    }
}

/// The sessions after `id` unsubscribed from `t`; unknown ids change nothing.
pub open spec fn unsubscribed(
    m: Map<u128, SessionView>,
    id: u128,
    t: WebSocketSubscriptionType,
) -> Map<u128, SessionView> {
    if m.contains_key(id) {
        m.insert(id, SessionView { subscriptions: m[id].subscriptions.remove(t), ..m[id] })
    } else {
        m
    }
}

/// The sessions after `id` authenticated as `address` with `key`.
pub open spec fn authenticated(
    m: Map<u128, SessionView>,
    id: u128,
    address: Seq<char>,
    key: Seq<char>,
) -> Map<u128, SessionView> {
    if m.contains_key(id) {
        m.insert(id, SessionView { address, private_key: Some(key), ..m[id] })
    } else {
        m
    }
}

/// The sessions after `id` went back to being a guest.
pub open spec fn signed_out(m: Map<u128, SessionView>, id: u128) -> Map<u128, SessionView> {
    if m.contains_key(id) {
        m.insert(id, SessionView { address: guest_address(), private_key: None, ..m[id] })
    } else {
        m
    }
}

/// The topics of a session, in the order in which the server lists topics.
pub open spec fn topic_list(s: SessionView) -> Seq<WebSocketSubscriptionType> {
    all_topics().filter(|t: WebSocketSubscriptionType| s.subscriptions.contains(t))
}

/// The topics of the session `uuid`, in the order in which the server lists
/// topics; empty for an unknown session.
pub open spec fn subscription_level(m: Map<u128, SessionView>, uuid: u128) -> Seq<
    WebSocketSubscriptionType,
> {
    if m.contains_key(uuid) {
        topic_list(m[uuid])
    } else {
        Seq::empty()
    }
}

/// Why a token could not be redeemed.
#[derive(Debug, Clone, Copy, PartialEq, Eq, Structural)]
pub enum WebSocketServerError {
    /// The token is unknown, spent or expired.
    TokenNotFound,
    /// Every id drawn for a new token was already taken.
    NoFreshId,
}

/// How many ids are drawn for a new token before issuing gives up.
pub const MAX_ID_DRAWS: u64 = 16;

/// The session store and the pending tokens of one gateway.
pub struct WebSocketServer {
    sessions: SessionMap,
    pending_tokens: TokenMap,
    issued_ids: HashSet<u128>,
}

impl WebSocketServer {
    /// The live sessions, by connection id.
    pub closed spec fn sessions(&self) -> Map<u128, SessionView> {
        Map::new(
            |k: u128| session_entries(self.sessions).contains_key(k),
            |k: u128| session_entries(self.sessions)[k]@,
        )
    }

    /// The pending tokens, by token id.
    pub closed spec fn tokens(&self) -> Map<u128, TokenView> {
        Map::new(
            |k: u128| token_entries(self.pending_tokens).contains_key(k),
            |k: u128| token_entries(self.pending_tokens)[k]@,
        )
    }

    /// Every id a token was ever issued under.
    pub closed spec fn issued(&self) -> Set<u128> {
        self.issued_ids@
    }

    /// A gateway with no session and no pending token, that has issued no
    /// token yet.
    pub fn new() -> (r: WebSocketServer)
        ensures
            r.sessions().is_empty(),
            r.tokens().is_empty(),
            r.issued().is_empty(),
    {
        let r = WebSocketServer {
            sessions: new_session_map(),
            pending_tokens: new_token_map(),
            issued_ids: HashSet::new(),
        };
        assert(r.sessions() =~= Map::<u128, SessionView>::empty());
        assert(r.tokens() =~= Map::<u128, TokenView>::empty());
        r
    }

    /// Creates the session `uuid` for a redeemed token's identity, with the
    /// default topics.
    pub fn insert_session(&mut self, uuid: u128, data: WebSocketTokenData)
        ensures
            final(self).issued() == old(self).issued(),
            final(self).sessions() == old(self).sessions().insert(uuid, fresh_session(data@)),
            final(self).tokens() == old(self).tokens(),
    {
        let mut subscriptions = new_topic_set();
        topic_set_insert(&mut subscriptions, WebSocketSubscriptionType::OwnTransactions);
        topic_set_insert(&mut subscriptions, WebSocketSubscriptionType::Blocks);
        let session_data = WebSocketSessionData {
            address: data.address,
            private_key: data.private_key,
            subscriptions,
        };
        proof {
            assert(topic_entries(session_data.subscriptions) =~= default_topics());
        }
        session_map_insert(&mut self.sessions, uuid, session_data);
        proof {
            assert(self.sessions() =~= old(self).sessions().insert(uuid, fresh_session(data@)));
            assert(self.tokens() =~= old(self).tokens());
        }
    }

    /// Removes the session `uuid`. Removing a session that is not there is
    /// no error and changes nothing.
    pub fn cleanup_session(&mut self, uuid: u128)
        ensures
            final(self).issued() == old(self).issued(),
            final(self).sessions() == old(self).sessions().remove(uuid),
            final(self).tokens() == old(self).tokens(),
    {
        let _ = session_map_remove(&mut self.sessions, uuid);
        proof {
            assert(self.sessions() =~= old(self).sessions().remove(uuid));
            assert(self.tokens() =~= old(self).tokens());
        }
    }
    /// Whether `id` is taken: pending as a token or live as a session.
    fn id_in_use(&mut self, id: u128) -> (r: bool)
        ensures
            final(self).issued() == old(self).issued(),
            final(self).sessions() == old(self).sessions(),
            final(self).tokens() == old(self).tokens(),
            r == (old(self).tokens().contains_key(id) || old(self).sessions().contains_key(id)),
    {
        let pending = match token_map_remove(&mut self.pending_tokens, id) {
            Some(token) => {
                token_map_insert(&mut self.pending_tokens, id, token);
                true
            },
            None => false,
        };
        let live = match session_map_remove(&mut self.sessions, id) {
            Some(data) => {
                session_map_insert(&mut self.sessions, id, data);
                true
            },
            None => false,
        };
        proof {
            assert(self.tokens() =~= old(self).tokens());
            assert(self.sessions() =~= old(self).sessions());
        }
        pending || live
    }

    /// Issues a token bound to `data` at time `now` under `id`, if `id` was
    /// never issued before and is neither pending nor live. Returns whether
    /// it did.
    pub fn issue_with_id(&mut self, id: u128, data: WebSocketTokenData, now: u64) -> (r: bool)
        ensures
            final(self).sessions() == old(self).sessions(),
            r == !(old(self).issued().contains(id) || old(self).tokens().contains_key(id) || old(
                self,
            ).sessions().contains_key(id)),
            r ==> final(self).tokens() == old(self).tokens().insert(
                id,
                (TokenView { identity: data@, issued_at: now as int }),
            ) && final(self).issued() == old(self).issued().insert(id),
            !r ==> final(self).tokens() == old(self).tokens() && final(self).issued() == old(
                self,
            ).issued(),
    {
        let seen = self.issued_ids.contains(&id);
        if seen || self.id_in_use(id) {
            return false;
        }
        let pending = PendingToken { data, issued_at: now };
        token_map_insert(&mut self.pending_tokens, id, pending);
        self.issued_ids.insert(id);
        proof {
            assert(self.tokens() =~= old(self).tokens().insert(id, pending@));
            assert(self.sessions() =~= old(self).sessions());
        }
        true
    }

    /// Issues a token bound to `token_data` at time `now` and returns its id.
    /// The id is drawn at random, and drawn again while it was issued before
    /// or is pending or live, at most `MAX_ID_DRAWS` times; if every draw was
    /// taken nothing is issued. On a gateway that has issued nothing and
    /// holds no session, the first draw is taken.
    pub fn obtain_token(&mut self, token_data: WebSocketTokenData, now: u64) -> (r: Result<
        u128,
        WebSocketServerError,
    >)
        ensures
            final(self).sessions() == old(self).sessions(),
            r is Ok ==> !old(self).issued().contains(r->Ok_0) && !old(self).tokens().contains_key(
                r->Ok_0,
            ) && !old(self).sessions().contains_key(r->Ok_0) && final(self).tokens() == old(
                self,
            ).tokens().insert(
                r->Ok_0,
                (TokenView { identity: token_data@, issued_at: now as int }),
            ) && final(self).issued() == old(self).issued().insert(r->Ok_0),
            r is Err ==> r->Err_0 == WebSocketServerError::NoFreshId && final(self).tokens() == old(
                self,
            ).tokens() && final(self).issued() == old(self).issued(),
            old(self).issued().is_empty() && old(self).tokens().is_empty() && old(
                self,
            ).sessions().is_empty() ==> r is Ok,
    {
        let ghost untouched = old(self).issued().is_empty() && old(self).tokens().is_empty() && old(
            self,
        ).sessions().is_empty();
        let mut draws: u64 = 0;
        while draws < MAX_ID_DRAWS
            invariant
                self.sessions() == old(self).sessions(),
                self.tokens() == old(self).tokens(),
                self.issued() == old(self).issued(),
                untouched == (old(self).issued().is_empty() && old(self).tokens().is_empty() && old(
                    self,
                ).sessions().is_empty()),
                untouched ==> draws == 0,
            decreases MAX_ID_DRAWS - draws,
        {
            let uuid = new_token_id();
            let data = WebSocketTokenData {
                address: token_data.address.clone(),
                private_key: owned_opt(&token_data.private_key),
            };
            if self.issue_with_id(uuid, data, now) {
                return Ok(uuid);
            }
            draws = draws + 1;
        }
        Err(WebSocketServerError::NoFreshId)
    }

    /// Redeems the token `uuid` at time `now`. It succeeds only for a pending
    /// token still inside its expiry window, and hands back its identity.
    /// Whatever the outcome, the token is no longer pending afterwards.
    pub fn use_token(&mut self, uuid: u128, now: u64) -> (r: Result<
        WebSocketTokenData,
        WebSocketServerError,
    >)
        ensures
            final(self).issued() == old(self).issued(),
            final(self).tokens() == old(self).tokens().remove(uuid),
            final(self).sessions() == old(self).sessions(),
            r is Ok <==> redeemable(old(self).tokens(), uuid, now as int),
            r is Ok ==> r->Ok_0@ == old(self).tokens()[uuid].identity,
            r is Err ==> r->Err_0 == WebSocketServerError::TokenNotFound,
    {
        let removed = token_map_remove(&mut self.pending_tokens, uuid);
        proof {
            assert(self.tokens() =~= old(self).tokens().remove(uuid));
            assert(self.sessions() =~= old(self).sessions());
        }
        match removed {
            Some(token) => {
                if now < token.issued_at || now - token.issued_at < TOKEN_EXPIRATION_MS {
                    Ok(token.data)
                } else {
                    Err(WebSocketServerError::TokenNotFound)
                }
            },
            None => Err(WebSocketServerError::TokenNotFound),
        }
    }

    /// Drops the token `uuid` if it is still pending and its window has
    /// passed at time `now`; anything else is left as it is.
    pub fn expire_token(&mut self, uuid: u128, now: u64)
        ensures
            final(self).issued() == old(self).issued(),
            final(self).tokens() == (if old(self).tokens().contains_key(uuid) && !token_live(
                old(self).tokens()[uuid].issued_at,
                now as int,
            ) {
                old(self).tokens().remove(uuid)
            } else {
                old(self).tokens()
            }),
            final(self).sessions() == old(self).sessions(),
    {
        let removed = token_map_remove(&mut self.pending_tokens, uuid);
        match removed {
            Some(token) => {
                if now < token.issued_at || now - token.issued_at < TOKEN_EXPIRATION_MS {
                    token_map_insert(&mut self.pending_tokens, uuid, token);
                    proof {
                        assert(self.tokens() =~= old(self).tokens());
                    }
                } else {
                    proof {
                        assert(self.tokens() =~= old(self).tokens().remove(uuid));
                    }
                }
            },
            None => {
                proof {
                    assert(self.tokens() =~= old(self).tokens());
                }
            },
        }
        proof {
            assert(self.sessions() =~= old(self).sessions());
        }
    }

    /// Subscribes the session `uuid` to `event`; an unknown session is left
    /// alone.
    pub fn subscribe_to_event(&mut self, uuid: u128, event: WebSocketSubscriptionType)
        ensures
            final(self).issued() == old(self).issued(),
            final(self).sessions() == subscribed(old(self).sessions(), uuid, event),
            final(self).tokens() == old(self).tokens(),
    {
        let removed = session_map_remove(&mut self.sessions, uuid);
        match removed {
            Some(mut data) => {
                topic_set_insert(&mut data.subscriptions, event);
                session_map_insert(&mut self.sessions, uuid, data);
                proof {
                    assert(self.sessions() =~= subscribed(old(self).sessions(), uuid, event));
                }
            },
            None => {
                proof {
                    assert(self.sessions() =~= old(self).sessions());
                }
            },
        }
        proof {
            assert(self.tokens() =~= old(self).tokens());
        }
    }

    /// Unsubscribes the session `uuid` from `event`; an unknown session is
    /// left alone.
    pub fn unsubscribe_from_event(&mut self, uuid: u128, event: WebSocketSubscriptionType)
        ensures
            final(self).issued() == old(self).issued(),
            final(self).sessions() == unsubscribed(old(self).sessions(), uuid, event),
            final(self).tokens() == old(self).tokens(),
    {
        let removed = session_map_remove(&mut self.sessions, uuid);
        match removed {
            Some(mut data) => {
                topic_set_remove(&mut data.subscriptions, event);
                session_map_insert(&mut self.sessions, uuid, data);
                proof {
                    assert(self.sessions() =~= unsubscribed(old(self).sessions(), uuid, event));
                }
            },
            None => {
                proof {
                    assert(self.sessions() =~= old(self).sessions());
                }
            },
        }
        proof {
            assert(self.tokens() =~= old(self).tokens());
        }
    }

    /// Binds the session `uuid` to `address`, authenticated with `private_key`.
    pub fn authenticate_session(&mut self, uuid: u128, address: String, private_key: String)
        ensures
            final(self).issued() == old(self).issued(),
            final(self).sessions() == authenticated(
                old(self).sessions(),
                uuid,
                address@,
                private_key@,
            ),
            final(self).tokens() == old(self).tokens(),
    {
        let removed = session_map_remove(&mut self.sessions, uuid);
        match removed {
            Some(mut data) => {
                data.address = address;
                data.private_key = Some(private_key);
                session_map_insert(&mut self.sessions, uuid, data);
                proof {
                    assert(self.sessions() =~= authenticated(
                        old(self).sessions(),
                        uuid,
                        address@,
                        private_key@,
                    ));
                }
            },
            None => {
                proof {
                    assert(self.sessions() =~= old(self).sessions());
                }
            },
        }
        proof {
            assert(self.tokens() =~= old(self).tokens());
        }
    }

    /// Turns the session `uuid` back into a guest's.
    pub fn sign_out_session(&mut self, uuid: u128)
        ensures
            final(self).issued() == old(self).issued(),
            final(self).sessions() == signed_out(old(self).sessions(), uuid),
            final(self).tokens() == old(self).tokens(),
    {
        let removed = session_map_remove(&mut self.sessions, uuid);
        match removed {
            Some(mut data) => {
                data.address = guest_string();
                data.private_key = None;
                session_map_insert(&mut self.sessions, uuid, data);
                proof {
                    assert(self.sessions() =~= signed_out(old(self).sessions(), uuid));
                }
            },
            None => {
                proof {
                    assert(self.sessions() =~= old(self).sessions());
                }
            },
        }
        proof {
            assert(self.tokens() =~= old(self).tokens());
        }
    }

    /// A read-only copy of the session `uuid`, or `None` for an unknown id.
    pub fn snapshot(&mut self, uuid: u128) -> (r: Option<SessionDataResponse>)
        ensures
            final(self).issued() == old(self).issued(),
            final(self).sessions() == old(self).sessions(),
            final(self).tokens() == old(self).tokens(),
            r is Some <==> old(self).sessions().contains_key(uuid),
            r is Some ==> r->Some_0@ == snapshot_of(old(self).sessions()[uuid]),
    {
        let removed = session_map_remove(&mut self.sessions, uuid);
        match removed {
            Some(data) => {
                let snap = SessionDataResponse {
                    address: data.address.clone(),
                    private_key: owned_opt(&data.private_key),
                    subscriptions: topics_in_order(&data.subscriptions),
                };
                session_map_insert(&mut self.sessions, uuid, data);
                proof {
                    assert(self.sessions() =~= old(self).sessions());
                    assert(self.tokens() =~= old(self).tokens());
                }
                Some(snap)
            },
            None => {
                proof {
                    assert(self.sessions() =~= old(self).sessions());
                    assert(self.tokens() =~= old(self).tokens());
                }
                None
            },
        }
    }

    /// The topics of the session `uuid` in the order in which the server
    /// lists topics; empty for an unknown session.
    pub fn get_subscription_list(&mut self, uuid: u128) -> (r: Vec<WebSocketSubscriptionType>)
        ensures
            final(self).issued() == old(self).issued(),
            final(self).sessions() == old(self).sessions(),
            final(self).tokens() == old(self).tokens(),
            r@ == subscription_level(old(self).sessions(), uuid),
    {
        match self.snapshot(uuid) {
            Some(snap) => snap.subscriptions,
            None => Vec::new(),
        }
    }

    /// Whether the session `uuid` is live and is to be sent `event`.
    pub fn session_wants(&mut self, uuid: u128, event: &WebSocketEvent) -> (r: bool)
        ensures
            final(self).issued() == old(self).issued(),
            final(self).sessions() == old(self).sessions(),
            final(self).tokens() == old(self).tokens(),
            r == (old(self).sessions().contains_key(uuid) && event_receives(
                old(self).sessions()[uuid],
                *event,
            )),
    {
        let removed = session_map_remove(&mut self.sessions, uuid);
        match removed {
            Some(data) => {
                let wanted = session_receives(&data, event);
                session_map_insert(&mut self.sessions, uuid, data);
                proof {
                    assert(self.sessions() =~= old(self).sessions());
                    assert(self.tokens() =~= old(self).tokens());
                }
                wanted
            },
            None => {
                proof {
                    assert(self.sessions() =~= old(self).sessions());
                    assert(self.tokens() =~= old(self).tokens());
                }
                false
            },
        }
    }

    /// The session named by an internal query, if its text spells the id of
    /// a live session.
    pub fn get_session(&mut self, query: &SessionQuery) -> (r: Option<SessionDataResponse>)
        ensures
            final(self).issued() == old(self).issued(),
            final(self).sessions() == old(self).sessions(),
            final(self).tokens() == old(self).tokens(),
            r is Some <==> (uuid_parsed(query.session@) matches Some(u) && old(
                self,
            ).sessions().contains_key(u)),
            r is Some ==> r->Some_0@ == snapshot_of(
                old(self).sessions()[uuid_parsed(query.session@)->Some_0],
            ),
    {
        match parse_token_id(query.session.as_str()) {
            Some(uuid) => self.snapshot(uuid),
            None => None,
        }
    }

    /// Every live session's id and address, each session once.
    pub fn get_sessions(&mut self) -> (r: Vec<BasicSessionDataResponse>)
        ensures
            final(self).issued() == old(self).issued(),
            final(self).sessions() == old(self).sessions(),
            final(self).tokens() == old(self).tokens(),
            r@.map_values(|b: BasicSessionDataResponse| b.uuid).no_duplicates(),
            r@.map_values(|b: BasicSessionDataResponse| b.uuid).to_set() == old(
                self,
            ).sessions().dom(),
            forall|i: int|
                0 <= i < r@.len() ==> #[trigger] r@[i].address@ == old(self).sessions()[r@[i].uuid].address,
    {
        let ghost m = self.sessions();
        let ids = self.session_ids();
        let mut r: Vec<BasicSessionDataResponse> = Vec::new();
        let mut i: usize = 0;
        while i < ids.len()
            invariant
                0 <= i <= ids@.len(),
                ids@.no_duplicates(),
                ids@.to_set() == m.dom(),
                self.sessions() == m,
                m == old(self).sessions(),
                self.tokens() == old(self).tokens(),
                self.issued() == old(self).issued(),
                r@.map_values(|b: BasicSessionDataResponse| b.uuid) == ids@.take(i as int),
                forall|j: int| 0 <= j < r@.len() ==> #[trigger] r@[j].address@ == m[r@[j].uuid].address,
            decreases ids@.len() - i,
        {
            let uuid = ids[i];
            proof {
                assert(ids@.to_set().contains(uuid));
            }
            let ghost prev = r@;
            let snap = self.snapshot(uuid);
            proof {
                assert(snap is Some);
            }
            if let Some(data) = snap {
                r.push(BasicSessionDataResponse { uuid, address: data.address });
            }
            proof {
                assert(r@.len() == prev.len() + 1);
                assert(r@[prev.len() as int].uuid == uuid);
                assert(forall|j: int| 0 <= j < prev.len() ==> r@[j] == prev[j]);
                assert(ids@.take(i + 1) =~= ids@.take(i as int).push(uuid));
                assert(r@.map_values(|b: BasicSessionDataResponse| b.uuid) =~= prev.map_values(
                    |b: BasicSessionDataResponse| b.uuid,
                ).push(uuid));
            }
            i = i + 1;
        }
        proof {
            assert(ids@.take(ids@.len() as int) =~= ids@);
        }
        r
    }

    /// The ids of all live sessions, each once, in no particular order.
    pub fn session_ids(&self) -> (r: Vec<u128>)
        ensures
            r@.no_duplicates(),
            r@.to_set() == self.sessions().dom(),
    {
        let r = session_map_keys(&self.sessions);
        proof {
            assert(self.sessions().dom() =~= session_entries(self.sessions).dom());
        }
        r
    }
}

impl Default for WebSocketServer {
    /// A gateway with no session and no pending token, that has issued no
    /// token yet.
    fn default() -> (r: WebSocketServer)
        ensures
            r.sessions().is_empty(),
            r.tokens().is_empty(),
            r.issued().is_empty(),
    {
        WebSocketServer::new()
    }
}

/// What a snapshot of the session `s` holds.
pub open spec fn snapshot_of(s: SessionView) -> SessionDataView {
    SessionDataView {
        address: s.address,
        private_key: s.private_key,
        subscriptions: topic_list(s),
    }
}

/// A live session's id and address.
#[derive(Debug)]
pub struct BasicSessionDataResponse {
    pub uuid: u128,
    pub address: String,
}

/// A read-only copy of one session's state.
pub struct SessionDataResponse {
    pub address: String,
    pub private_key: Option<String>,
    pub subscriptions: Vec<WebSocketSubscriptionType>,
}

/// What a snapshot holds.
pub struct SessionDataView {
    pub address: Seq<char>,
    pub private_key: Option<Seq<char>>,
    pub subscriptions: Seq<WebSocketSubscriptionType>,
}

impl View for SessionDataResponse {
    type V = SessionDataView;

    open spec fn view(&self) -> SessionDataView {
        SessionDataView {
            address: self.address@,
            private_key: opt_text(self.private_key),
            subscriptions: self.subscriptions@,
        }
    }
}

/// The topics of a subscription set, in the order in which the server lists
/// topics.
fn topics_in_order(s: &DashSet<WebSocketSubscriptionType>) -> (r: Vec<WebSocketSubscriptionType>)
    ensures
        r@ == all_topics().filter(|t: WebSocketSubscriptionType| topic_entries(*s).contains(t)),
{
    let candidates = valid_subscription_types();
    let ghost pred = |t: WebSocketSubscriptionType| topic_entries(*s).contains(t);
    let mut r: Vec<WebSocketSubscriptionType> = Vec::new();
    let mut i: usize = 0;
    while i < candidates.len()
        invariant
            0 <= i <= candidates@.len(),
            candidates@ == all_topics(),
            pred == (|t: WebSocketSubscriptionType| topic_entries(*s).contains(t)),
            r@ == candidates@.take(i as int).filter(pred),
        decreases candidates@.len() - i,
    {
        let t = candidates[i];
        let ghost before = r@;
        let present = topic_set_contains(s, t);
        if present {
            r.push(t);
        }
        proof {
            let next = candidates@.take(i + 1);
            assert(next.drop_last() =~= candidates@.take(i as int));
            assert(next.last() == t);
            assert(next.filter(pred) == (if pred(t) {
                before.push(t)
            } else {
                before
            })) by {
                reveal(Seq::filter);
            }
        }
        i = i + 1;
    }
    proof {
        assert(candidates@.take(candidates@.len() as int) =~= candidates@);
    }
    r
}

} // verus!

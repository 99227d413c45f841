//! The message router: decodes a client frame into a command, dispatches it
//! to its handler, and builds the one response frame that answers it.
//!
//! Commands that need the ledger's persisted state (wallet lookups,
//! credential checks, inserting a transfer) are handled in steps: routing
//! says which lookup to make, and a completion function takes the lookup's
//! outcome and builds the answer. The store is never held across a lookup.

use vstd::prelude::*;

use crate::amount::{amount_less, decimal_less, Amount};
use crate::messages::{
    error_frame, is_error_frame, is_response_frame, response_frame, AddressJson, TransactionJson,
    WebSocketMessage, WebSocketMessageInner, WebSocketMessageResponse,
};
use crate::session::{
    subscription_level, authenticated, guest_address, is_guest_view, signed_out, subscribed, topic_list, unsubscribed,
    SessionView, WebSocketServer,
};
use crate::text::{owned, text_eq};
use crate::topics::{
    all_topics, topic_name, topic_named, valid_subscription_types, WebSocketSubscriptionType,
};

verus! {

/// A client frame after JSON decoding: the correlation id, the `type`, and
/// every field some command reads.
#[derive(Debug)]
pub struct RawFrame {
    pub id: Option<usize>,
    pub kind: String,
    pub address: Option<String>,
    pub fetch_names: Option<bool>,
    pub private_key: Option<String>,
    pub event: Option<String>,
    pub to: Option<String>,
    pub amount: Option<Amount>,
    pub metadata: Option<String>,
}

/// A command a client may send.
#[derive(Debug)]
pub enum ClientCommand {
    Address { address: String, fetch_names: bool },
    Login { private_key: String },
    Logout,
    Me,
    Subscribe { event: String },
    Unsubscribe { event: String },
    GetSubscriptionLevel,
    GetValidSubscriptionLevels,
    MakeTransaction { private_key: String, to: String, amount: Amount, metadata: Option<String> },
}

/// Why a frame is not a command.
#[derive(Clone, Copy, Debug, PartialEq, Eq, Structural)]
pub enum FrameFault {
    /// The text is not a JSON object of the expected shape.
    Malformed,
    /// The `type` names no command.
    UnknownType,
    /// The `type` names a frame only the server sends.
    ServerOnlyType,
    /// A field the command needs is absent.
    MissingParameter,
    /// A field holds a value the command cannot take.
    InvalidParameter,
}

/// The frame types only the server may send.
pub open spec fn is_server_only(kind: Seq<char>) -> bool {
    ||| kind == "hello"@
    ||| kind == "keepalive"@
    ||| kind == "response"@
    ||| kind == "error"@
    ||| kind == "event"@
}

/// The command a frame spells, or why it spells none.
pub open spec fn frame_command(f: RawFrame) -> Result<ClientCommand, FrameFault> {
    let k = f.kind@;
    if k == "address"@ {
        match f.address {
            Some(a) => Ok(
                ClientCommand::Address {
                    address: a,
                    fetch_names: match f.fetch_names {
                        Some(b) => b,
                        None => false,
                    },
                },
            ),
            None => Err(FrameFault::MissingParameter),
        }
    } else if k == "login"@ {
        match f.private_key {
            Some(p) => Ok(ClientCommand::Login { private_key: p }),
            None => Err(FrameFault::MissingParameter),
        }
    } else if k == "logout"@ {
        Ok(ClientCommand::Logout)
    } else if k == "me"@ {
        Ok(ClientCommand::Me)
    } else if k == "subscribe"@ {
        match f.event {
            Some(e) => Ok(ClientCommand::Subscribe { event: e }),
            None => Err(FrameFault::MissingParameter),
        }
    } else if k == "unsubscribe"@ {
        match f.event {
            Some(e) => Ok(ClientCommand::Unsubscribe { event: e }),
            None => Err(FrameFault::MissingParameter),
        }
    } else if k == "get_subscription_level"@ {
        Ok(ClientCommand::GetSubscriptionLevel)
    } else if k == "get_valid_subscription_levels"@ {
        Ok(ClientCommand::GetValidSubscriptionLevels)
    } else if k == "make_transaction"@ {
        match (f.private_key, f.to, f.amount) {
            (Some(p), Some(t), Some(a)) => if a.wf() {
                Ok(
                    ClientCommand::MakeTransaction {
                        private_key: p,
                        to: t,
                        amount: a,
                        metadata: f.metadata,
                    },
                )
            } else {
                Err(FrameFault::InvalidParameter)
            },
            _ => Err(FrameFault::MissingParameter),
        }
    } else if is_server_only(k) {
        Err(FrameFault::ServerOnlyType)
    } else {
        Err(FrameFault::UnknownType)
    }
}

/// The error code that reports a fault.
pub open spec fn fault_code(f: FrameFault) -> Seq<char> {
    match f {
        FrameFault::Malformed => "syntax_error"@,
        FrameFault::UnknownType => "invalid_message_type"@,
        FrameFault::ServerOnlyType => "invalid_message_type"@,
        FrameFault::MissingParameter => "missing_parameter"@,
        FrameFault::InvalidParameter => "invalid_parameter"@,
    }
}

/// Decodes a frame into the command it spells.
pub fn decode_frame(frame: RawFrame) -> (r: Result<ClientCommand, FrameFault>)
    ensures
        r == frame_command(frame),
{
    let k = frame.kind.as_str();
    if text_eq(k, "address") {
        match frame.address {
            Some(a) => Ok(
                ClientCommand::Address {
                    address: a,
                    fetch_names: match frame.fetch_names {
                        Some(b) => b,
                        None => false,
                    },
                },
            ),
            None => Err(FrameFault::MissingParameter),
        }
    } else if text_eq(k, "login") {
        match frame.private_key {
            Some(p) => Ok(ClientCommand::Login { private_key: p }),
            None => Err(FrameFault::MissingParameter),
        }
    } else if text_eq(k, "logout") {
        Ok(ClientCommand::Logout)
    } else if text_eq(k, "me") {
        Ok(ClientCommand::Me)
    } else if text_eq(k, "subscribe") {
        match frame.event {
            Some(e) => Ok(ClientCommand::Subscribe { event: e }),
            None => Err(FrameFault::MissingParameter),
        }
    } else if text_eq(k, "unsubscribe") {
        match frame.event {
            Some(e) => Ok(ClientCommand::Unsubscribe { event: e }),
            None => Err(FrameFault::MissingParameter),
        }
    } else if text_eq(k, "get_subscription_level") {
        Ok(ClientCommand::GetSubscriptionLevel)
    } else if text_eq(k, "get_valid_subscription_levels") {
        Ok(ClientCommand::GetValidSubscriptionLevels)
    } else if text_eq(k, "make_transaction") {
        match (frame.private_key, frame.to, frame.amount) {
            (Some(p), Some(t), Some(a)) => {
                if -crate::amount::MAX_MANTISSA <= a.mantissa && a.mantissa
                    <= crate::amount::MAX_MANTISSA && a.scale <= crate::amount::MAX_SCALE {
                    Ok(
                        ClientCommand::MakeTransaction {
                            private_key: p,
                            to: t,
                            amount: a,
                            metadata: frame.metadata,
                        },
                    )
                } else {
                    Err(FrameFault::InvalidParameter)
                }
            },
            _ => Err(FrameFault::MissingParameter),
        }
    } else if text_eq(k, "hello") || text_eq(k, "keepalive") || text_eq(k, "response") || text_eq(
        k,
        "error",
    ) || text_eq(k, "event") {
        Err(FrameFault::ServerOnlyType)
    } else {
        Err(FrameFault::UnknownType)
    }
}

/// The text that explains a fault.
pub open spec fn fault_message(f: FrameFault) -> Seq<char> {
    match f {
        FrameFault::Malformed => "Could not parse the message"@,
        FrameFault::UnknownType => "Invalid message type"@,
        FrameFault::ServerOnlyType => "Invalid message type"@,
        FrameFault::MissingParameter => "Missing parameter"@,
        FrameFault::InvalidParameter => "Invalid parameter"@,
    }
}

/// The error frame that reports a fault in request `id`.
pub fn fault_frame(id: Option<usize>, fault: FrameFault) -> (r: WebSocketMessage)
    ensures
        is_error_frame(r, id, fault_code(fault), fault_message(fault)),
{
    match fault {
        FrameFault::Malformed => error_frame(id, "syntax_error", owned("Could not parse the message")),
        FrameFault::UnknownType => error_frame(
            id,
            "invalid_message_type",
            owned("Invalid message type"),
        ),
        FrameFault::ServerOnlyType => error_frame(
            id,
            "invalid_message_type",
            owned("Invalid message type"),
        ),
        FrameFault::MissingParameter => error_frame(
            id,
            "missing_parameter",
            owned("Missing parameter"),
        ),
        FrameFault::InvalidParameter => error_frame(
            id,
            "invalid_parameter",
            owned("Invalid parameter"),
        ),
    }
}

/// The text of each string of a vector.
pub open spec fn texts(v: Vec<String>) -> Seq<Seq<char>> {
    v@.map_values(|s: String| s@)
}

/// The wire names of a sequence of topics.
pub open spec fn topic_names(ts: Seq<WebSocketSubscriptionType>) -> Seq<Seq<char>> {
    ts.map_values(|t: WebSocketSubscriptionType| topic_name(t))
}

/// The wire names of the topics of `ts`, in order.
pub fn topic_strings(ts: &Vec<WebSocketSubscriptionType>) -> (r: Vec<String>)
    ensures
        texts(r) == topic_names(ts@),
{
    let mut r: Vec<String> = Vec::new();
    let mut i: usize = 0;
    while i < ts.len()
        invariant
            0 <= i <= ts@.len(),
            texts(r) == topic_names(ts@.take(i as int)),
        decreases ts@.len() - i,
    {
        let name = ts[i].into_string();
        let ghost prev = r@;
        r.push(name);
        proof {
            assert(ts@.take(i + 1) =~= ts@.take(i as int).push(ts@[i as int]));
            assert(r@ == prev.push(name));
            assert(texts(r) =~= prev.map_values(|s: String| s@).push(name@));
            assert(topic_names(ts@.take(i + 1)) =~= topic_names(ts@.take(i as int)).push(
                topic_name(ts@[i as int]),
            ));
        }
        i = i + 1;
    }
    proof {
        assert(ts@.take(ts@.len() as int) =~= ts@);
    }
    r
}

/// What the persistence layer says of a credential: whether it opens the
/// wallet it derives, and that wallet.
#[derive(Clone, Debug)]
pub struct VerifyResponse {
    pub authed: bool,
    pub address: AddressJson,
}

/// A failure of the persistence layer.
#[derive(Clone, Copy, Debug, PartialEq, Eq, Structural)]
pub enum StoreFault {
    Database,
}

/// What answering a command takes next.
#[derive(Debug)]
pub enum Routed {
    /// The answer is ready.
    Reply(WebSocketMessage),
    /// Look the wallet `address` up, then call `complete_address`.
    LookupAddress { id: Option<usize>, address: String, fetch_names: bool },
    /// Check the credential, then call `complete_login`.
    VerifyLogin { id: Option<usize>, private_key: String },
    /// Look the session's own wallet up, then call `complete_me`.
    LookupSelf { id: Option<usize>, address: String },
    /// Check the sender's credential, then call `transaction_after_auth`.
    VerifySender {
        id: Option<usize>,
        private_key: String,
        to: String,
        amount: Amount,
        metadata: Option<String>,
    },
}

/// How a `me` request is answered for the session `uuid`: a guest (or an
/// unknown session) is answered at once, an authenticated session by
/// looking up its address.
pub open spec fn self_query(m: Map<u128, SessionView>, uuid: u128) -> Option<Seq<char>> {
    if m.contains_key(uuid) && !is_guest_view(m[uuid]) {
        Some(m[uuid].address)
    } else {
        None
    }
}

/// The sessions after routing `cmd` for the session `uuid`.
pub open spec fn routed_sessions(m: Map<u128, SessionView>, uuid: u128, cmd: ClientCommand) -> Map<
    u128,
    SessionView,
> {
    match cmd {
        ClientCommand::Logout => signed_out(m, uuid),
        ClientCommand::Subscribe { event } => match topic_named(event@) {
            Some(t) => subscribed(m, uuid, t),
            None => m,
        },
        ClientCommand::Unsubscribe { event } => match topic_named(event@) {
            Some(t) => unsubscribed(m, uuid, t),
            None => m,
        },
        _ => m,
    }
}

/// The topic names of the session `uuid` in `m`; empty for an unknown one.
pub open spec fn level_names(m: Map<u128, SessionView>, uuid: u128) -> Seq<Seq<char>> {
    topic_names(subscription_level(m, uuid))
}

/// `m` is a response to `responding_to` request `id` that lists exactly
/// the topic names `names`.
pub open spec fn is_level_frame(
    m: WebSocketMessage,
    id: Option<usize>,
    responding_to: Seq<char>,
    names: Seq<Seq<char>>,
) -> bool {
    &&& m.ok == Some(true)
    &&& m.id == id
    &&& m.body matches WebSocketMessageInner::Response { responding_to: r, data } && r@
        == responding_to && match data {
        WebSocketMessageResponse::Subscribe { subscription_level } => responding_to == "subscribe"@
            && texts(subscription_level) == names,
        WebSocketMessageResponse::Unsubscribe { subscription_level } => responding_to
            == "unsubscribe"@ && texts(subscription_level) == names,
        WebSocketMessageResponse::GetSubscriptionLevel { subscription_level } => responding_to
            == "get_subscription_level"@ && texts(subscription_level) == names,
        WebSocketMessageResponse::GetValidSubscriptionLevels { valid_subscription_levels } =>
            responding_to == "get_valid_subscription_levels"@ && texts(valid_subscription_levels)
            == names,
        _ => false,
    }
}

/// `r` is how routing `cmd`, request `id` of the session `uuid`, is
/// answered, the sessions being `before` the command and `after` it.
pub open spec fn routing_answer(
    before: Map<u128, SessionView>,
    after: Map<u128, SessionView>,
    uuid: u128,
    id: Option<usize>,
    cmd: ClientCommand,
    r: Routed,
) -> bool {
    &&& (cmd matches ClientCommand::Address { address, fetch_names } ==> r
            == (Routed::LookupAddress { id, address, fetch_names }))
    &&& (cmd matches ClientCommand::Login { private_key } ==> r == (Routed::VerifyLogin {
            id,
            private_key,
        }))
    &&& (cmd is Logout ==> (r matches Routed::Reply(m) && is_response_frame(
            m,
            id,
            "logout"@,
            (WebSocketMessageResponse::Logout { is_guest: true }),
        )))
    &&& (cmd is Me ==> (match self_query(before, uuid) {
            Some(a) => (r matches Routed::LookupSelf { id: i, address } && i == id && address@
                == a),
            None => (r matches Routed::Reply(m) && is_response_frame(
                m,
                id,
                "me"@,
                (WebSocketMessageResponse::Me { is_guest: true, address: None }),
            )),
        }))
    &&& (cmd is Subscribe ==> r is Reply && (if topic_named(cmd->Subscribe_event@) is Some {
            is_level_frame(
                r->Reply_0,
                id,
                "subscribe"@,
                level_names(after, uuid),
            )
        } else {
            is_error_frame(r->Reply_0, id, "invalid_parameter"@, "Invalid parameter event"@)
        }))
    &&& (cmd is Unsubscribe ==> r is Reply && (if topic_named(cmd->Unsubscribe_event@) is Some {
            is_level_frame(
                r->Reply_0,
                id,
                "unsubscribe"@,
                level_names(after, uuid),
            )
        } else {
            is_error_frame(r->Reply_0, id, "invalid_parameter"@, "Invalid parameter event"@)
        }))
    &&& (cmd is GetSubscriptionLevel ==> (r matches Routed::Reply(m) && is_level_frame(
            m,
            id,
            "get_subscription_level"@,
            level_names(before, uuid),
        )))
    &&& (cmd is GetValidSubscriptionLevels ==> (r matches Routed::Reply(m) && is_level_frame(
            m,
            id,
            "get_valid_subscription_levels"@,
            topic_names(all_topics()),
        )))
    &&& (cmd matches ClientCommand::MakeTransaction { private_key, to, amount, metadata } ==> (
        if amount.mantissa < 0 {
            (r matches Routed::Reply(m) && is_error_frame(
                m,
                id,
                "invalid_parameter"@,
                "Invalid parameter amount"@,
            ))
        } else {
            r == (Routed::VerifySender { id, private_key, to, amount, metadata })
        }))
}

impl WebSocketServer {
    /// Routes the command `cmd`, request `id`, of the session `uuid`.
    pub fn route(&mut self, uuid: u128, id: Option<usize>, cmd: ClientCommand) -> (r: Routed)
        ensures
            final(self).issued() == old(self).issued(),
            final(self).sessions() == routed_sessions(old(self).sessions(), uuid, cmd),
            final(self).tokens() == old(self).tokens(),
            routing_answer(old(self).sessions(), final(self).sessions(), uuid, id, cmd, r),
    {
        match cmd {
            ClientCommand::Address { address, fetch_names } => {
                Routed::LookupAddress { id, address, fetch_names }
            },
            ClientCommand::Login { private_key } => Routed::VerifyLogin { id, private_key },
            ClientCommand::Logout => {
                self.sign_out_session(uuid);
                Routed::Reply(
                    response_frame(id, "logout", WebSocketMessageResponse::Logout { is_guest: true }),
                )
            },
            ClientCommand::Me => {
                let snap = self.snapshot(uuid);
                let guest = match &snap {
                    Some(s) => text_eq(s.address.as_str(), "guest"),
                    None => true,
                };
                if guest {
                    Routed::Reply(
                        response_frame(
                            id,
                            "me",
                            WebSocketMessageResponse::Me { is_guest: true, address: None },
                        ),
                    )
                } else {
                    match snap {
                        Some(s) => Routed::LookupSelf { id, address: s.address },
                        None => Routed::Reply(
                            response_frame(
                                id,
                                "me",
                                WebSocketMessageResponse::Me { is_guest: true, address: None },
                            ),
                        ),
                    }
                }
            },
            ClientCommand::Subscribe { event } => {
                match WebSocketSubscriptionType::from_name(event.as_str()) {
                    Some(t) => {
                        self.subscribe_to_event(uuid, t);
                        let list = self.get_subscription_list(uuid);
                        let names = topic_strings(&list);
                        Routed::Reply(
                            response_frame(
                                id,
                                "subscribe",
                                WebSocketMessageResponse::Subscribe { subscription_level: names },
                            ),
                        )
                    },
                    None => Routed::Reply(
                        error_frame(id, "invalid_parameter", owned("Invalid parameter event")),
                    ),
                }
            },
            ClientCommand::Unsubscribe { event } => {
                match WebSocketSubscriptionType::from_name(event.as_str()) {
                    Some(t) => {
                        self.unsubscribe_from_event(uuid, t);
                        let list = self.get_subscription_list(uuid);
                        let names = topic_strings(&list);
                        Routed::Reply(
                            response_frame(
                                id,
                                "unsubscribe",
                                WebSocketMessageResponse::Unsubscribe { subscription_level: names },
                            ),
                        )
                    },
                    None => Routed::Reply(
                        error_frame(id, "invalid_parameter", owned("Invalid parameter event")),
                    ),
                }
            },
            ClientCommand::GetSubscriptionLevel => {
                let list = self.get_subscription_list(uuid);
                let names = topic_strings(&list);
                Routed::Reply(
                    response_frame(
                        id,
                        "get_subscription_level",
                        WebSocketMessageResponse::GetSubscriptionLevel {
                            subscription_level: names,
                        },
                    ),
                )
            },
            ClientCommand::GetValidSubscriptionLevels => {
                Routed::Reply(get_valid_subscription_levels(id))
            },
            ClientCommand::MakeTransaction { private_key, to, amount, metadata } => {
                if amount.mantissa < 0 {
                    Routed::Reply(
                        error_frame(id, "invalid_parameter", owned("Invalid parameter amount")),
                    )
                } else {
                    Routed::VerifySender { id, private_key, to, amount, metadata }
                }
            },
        }
    }
}

/// The answer to `get_valid_subscription_levels`: every topic's name.
pub fn get_valid_subscription_levels(id: Option<usize>) -> (r: WebSocketMessage)
    ensures
        is_level_frame(r, id, "get_valid_subscription_levels"@, topic_names(all_topics())),
{
    let list = valid_subscription_types();
    let names = topic_strings(&list);
    response_frame(
        id,
        "get_valid_subscription_levels",
        WebSocketMessageResponse::GetValidSubscriptionLevels { valid_subscription_levels: names },
    )
}

/// The text that reports the unknown wallet `address`.
pub open spec fn not_found_text(address: Seq<char>) -> Seq<char> {
    "Address "@ + address + " not found"@
}

/// The text "Address <address> not found".
fn not_found_message(address: &str) -> (r: String)
    ensures
        r@ == not_found_text(address@),
{
    owned("Address ").concat(address).concat(" not found")
}

impl WebSocketServer {
    /// Completes a `login` request `id` of the session `uuid` with what the
    /// persistence layer said of `private_key`. An accepted credential binds
    /// the session to its wallet; a refused one, or a failed check, leaves
    /// the session as it was.
    pub fn complete_login(
        &mut self,
        uuid: u128,
        id: Option<usize>,
        private_key: String,
        outcome: Result<VerifyResponse, StoreFault>,
    ) -> (r: WebSocketMessage)
        ensures
            final(self).issued() == old(self).issued(),
            final(self).tokens() == old(self).tokens(),
            final(self).sessions() == (if outcome is Ok && outcome->Ok_0.authed {
                authenticated(
                    old(self).sessions(),
                    uuid,
                    outcome->Ok_0.address.address@,
                    private_key@,
                )
            } else {
                old(self).sessions()
            }),
            outcome is Ok && outcome->Ok_0.authed ==> is_response_frame(
                r,
                id,
                "login"@,
                (WebSocketMessageResponse::Login {
                    is_guest: false,
                    address: Some(outcome->Ok_0.address),
                }),
            ),
            outcome is Ok && !outcome->Ok_0.authed ==> is_error_frame(
                r,
                id,
                "auth_failed"@,
                "Authentication failed"@,
            ),
            outcome is Err ==> is_error_frame(r, id, "database_error"@, "An error occured in the database"@),
    {
        match outcome {
            Ok(v) => {
                if v.authed {
                    self.authenticate_session(uuid, v.address.address.clone(), private_key);
                    response_frame(
                        id,
                        "login",
                        WebSocketMessageResponse::Login { is_guest: false, address: Some(v.address) },
                    )
                } else {
                    error_frame(id, "auth_failed", owned("Authentication failed"))
                }
            },
            Err(_) => error_frame(
                id,
                "database_error",
                owned("An error occured in the database"),
            ),
        }
    }
}

/// Completes a `me` request `id` of a session authenticated as `address`
/// with the lookup of that wallet.
pub fn complete_me(id: Option<usize>, address: &str, lookup: Result<Option<AddressJson>, StoreFault>) -> (r:
    WebSocketMessage)
    ensures
        lookup matches Ok(Some(w)) ==> is_response_frame(
            r,
            id,
            "me"@,
            (WebSocketMessageResponse::Me { is_guest: false, address: Some(w) }),
        ),
        lookup matches Ok(None) ==> is_error_frame(
            r,
            id,
            "address_not_found"@,
            not_found_text(address@),
        ),
        lookup is Err ==> is_error_frame(r, id, "internal_server_error"@, "Something went wrong while processing your message"@),
{
    match lookup {
        Ok(Some(w)) => response_frame(
            id,
            "me",
            WebSocketMessageResponse::Me { is_guest: false, address: Some(w) },
        ),
        Ok(None) => error_frame(id, "address_not_found", not_found_message(address)),
        Err(_) => error_frame(
            id,
            "internal_server_error",
            owned("Something went wrong while processing your message"),
        ),
    }
}

/// Completes an `address` request `id` for `address` with the lookup of
/// that wallet.
pub fn complete_address(
    id: Option<usize>,
    address: &str,
    lookup: Result<Option<AddressJson>, StoreFault>,
) -> (r: WebSocketMessage)
    ensures
        lookup matches Ok(Some(w)) ==> is_response_frame(
            r,
            id,
            "address"@,
            (WebSocketMessageResponse::Address { address: w }),
        ),
        lookup matches Ok(None) ==> is_error_frame(
            r,
            id,
            "address_not_found"@,
            not_found_text(address@),
        ),
        lookup is Err ==> is_error_frame(r, id, "internal_server_error"@, "Something went wrong while processing your message"@),
{
    match lookup {
        Ok(Some(w)) => response_frame(id, "address", WebSocketMessageResponse::Address { address: w }),
        Ok(None) => error_frame(id, "address_not_found", not_found_message(address)),
        Err(_) => error_frame(
            id,
            "internal_server_error",
            owned("Something went wrong while processing your message"),
        ),
    }
}

/// A transfer the persistence layer is asked to record.
#[derive(Debug)]
pub struct TransferRequest {
    pub from: String,
    pub to: String,
    pub amount: Amount,
    pub metadata: Option<String>,
}

/// The step of a `make_transaction` request `id` after the sender's
/// credential was checked: the sender's wallet if the credential opens it,
/// else the answer.
pub fn transaction_after_auth(id: Option<usize>, outcome: Result<VerifyResponse, StoreFault>) -> (r:
    Result<AddressJson, WebSocketMessage>)
    ensures
        outcome is Ok && outcome->Ok_0.authed ==> r is Ok && r->Ok_0 == outcome->Ok_0.address,
        outcome is Ok && !outcome->Ok_0.authed ==> r is Err && is_error_frame(
            r->Err_0,
            id,
            "invalid_parameter"@,
            "Invalid parameter privatekey"@,
        ),
        outcome is Err ==> r is Err && is_error_frame(r->Err_0, id, "database_error"@, "An error occured in the database"@),
{
    match outcome {
        Ok(v) => {
            if v.authed {
                Ok(v.address)
            } else {
                Err(error_frame(id, "invalid_parameter", owned("Invalid parameter privatekey")))
            }
        },
        Err(_) => Err(
            error_frame(id, "database_error", owned("An error occured in the database")),
        ),
    }
}

/// The step of a `make_transaction` request `id` after the recipient `to`
/// was looked up: the transfer to record if the recipient exists and the
/// sender can cover `amount`, else the answer.
pub fn transaction_after_recipient(
    id: Option<usize>,
    sender: AddressJson,
    to: &str,
    amount: Amount,
    metadata: Option<String>,
    recipient: Result<Option<AddressJson>, StoreFault>,
) -> (r: Result<TransferRequest, WebSocketMessage>)
    requires
        sender.balance.wf(),
        amount.wf(),
    ensures
        recipient is Err ==> r is Err && is_error_frame(r->Err_0, id, "database_error"@, "An error occured in the database"@),
        recipient matches Ok(None) ==> r is Err && is_error_frame(
            r->Err_0,
            id,
            "address_not_found"@,
            not_found_text(to@),
        ),
        recipient matches Ok(Some(w)) ==> if amount_less(sender.balance, amount) {
            r is Err && is_error_frame(r->Err_0, id, "insufficient_funds"@, "Insufficient funds"@)
        } else {
            r is Ok && r->Ok_0 == (TransferRequest {
                from: sender.address,
                to: w.address,
                amount,
                metadata,
            })
        },
{
    match recipient {
        Ok(Some(w)) => {
            if decimal_less(&sender.balance, &amount) {
                Err(error_frame(id, "insufficient_funds", owned("Insufficient funds")))
            } else {
                Ok(TransferRequest { from: sender.address, to: w.address, amount, metadata })
            }
        },
        Ok(None) => Err(error_frame(id, "address_not_found", not_found_message(to))),
        Err(_) => Err(
            error_frame(id, "database_error", owned("An error occured in the database")),
        ),
    }
}

/// The answer to a `make_transaction` request `id` once the transfer was
/// recorded, or failed to be.
pub fn transaction_after_insert(id: Option<usize>, inserted: Result<TransactionJson, StoreFault>) -> (r:
    WebSocketMessage)
    ensures
        inserted matches Ok(t) ==> is_response_frame(
            r,
            id,
            "make_transaction"@,
            (WebSocketMessageResponse::MakeTransaction { transaction: t }),
        ),
        inserted is Err ==> is_error_frame(r, id, "database_error"@, "An error occured in the database"@),
{
    match inserted {
        Ok(t) => response_frame(
            id,
            "make_transaction",
            WebSocketMessageResponse::MakeTransaction { transaction: t },
        ),
        Err(_) => error_frame(id, "database_error", owned("An error occured in the database")),
    }
}

} // verus!

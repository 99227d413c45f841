//! The connection protocol: opening a session from a token, checking and
//! dispatching inbound frames, the greeting and keepalive frames, and the
//! per-connection lifecycle that the heartbeat and the close path share.

use vstd::prelude::*;

use chrono::DateTime;

use crate::ids::{parse_token_id, token_id_text, uuid_parsed, uuid_text};
use crate::messages::{
    error_frame, is_error_frame, BlockJson, Constants, CurrencyInfo, DetailedMotd, PackageInfo,
    WebSocketMessage, WebSocketMessageInner,
};
use crate::router::{
    decode_frame, fault_code, fault_frame, fault_message, frame_command, routed_sessions, routing_answer,
    FrameFault, RawFrame, Routed, StoreFault, VerifyResponse,
};
use crate::session::{
    fresh_session, guest_address, redeemable, Identity, SessionView, TokenView, WebSocketServer,
    WebSocketTokenData, TOKEN_EXPIRATION_SECS,
};
use crate::text::owned;

verus! {

/// How often a live connection is pinged, in milliseconds.
pub const HEARTBEAT_INTERVAL_MS: u64 = 5_000;

/// How long a connection may stay silent before it is closed, in
/// milliseconds.
pub const CLIENT_TIMEOUT_MS: u64 = 10_000;

/// The most characters an inbound text frame may hold.
pub const MAX_FRAME_CHARS: usize = 512;

/// Whether an inbound text frame is too long to be looked at.
pub fn frame_too_long(text: &str) -> (r: bool)
    ensures
        r == (text@.len() > MAX_FRAME_CHARS),
{
    text.unicode_len() > MAX_FRAME_CHARS
}

/// The answer to a frame that is too long.
pub fn message_too_long_frame() -> (r: WebSocketMessage)
    ensures
        is_error_frame(r, None, "message_too_long"@, "Message larger than 512 characters"@),
{
    error_frame(None, "message_too_long", owned("Message larger than 512 characters"))
}

/// The frame that refuses a connection whose token is unknown, spent or
/// expired.
pub fn invalid_token_frame() -> (r: WebSocketMessage)
    ensures
        is_error_frame(r, None, "invalid_websocket_token"@, "Invalid websocket token"@),
{
    error_frame(None, "invalid_websocket_token", owned("Invalid websocket token"))
}

/// `r` answers the inbound frame `frame` of the session `uuid`, the
/// sessions being `before` it and `after` it.
pub open spec fn frame_answer(
    before: Map<u128, SessionView>,
    after: Map<u128, SessionView>,
    uuid: u128,
    frame: Option<RawFrame>,
    r: Routed,
) -> bool {
    &&& frame is None ==> after == before && r is Reply && is_error_frame(
        r->Reply_0,
        None,
        "syntax_error"@,
        "Could not parse the message"@,
    )
    &&& frame is Some ==> match frame_command(frame->Some_0) {
        Err(fault) => after == before && r is Reply && is_error_frame(
            r->Reply_0,
            frame->Some_0.id,
            fault_code(fault),
            fault_message(fault),
        ),
        Ok(cmd) => after == routed_sessions(before, uuid, cmd) && routing_answer(
            before,
            after,
            uuid,
            frame->Some_0.id,
            cmd,
            r,
        ),
    }
}

impl WebSocketServer {
    /// Handles one inbound text frame of the session `uuid`: a text over
    /// `MAX_FRAME_CHARS` characters is answered with the too-long frame and
    /// not looked at further; otherwise `frame`, what JSON decoding made of
    /// the text, is handled.
    pub fn handle_text(&mut self, uuid: u128, text: &str, frame: Option<RawFrame>) -> (r: Routed)
        ensures
            final(self).issued() == old(self).issued(),
            final(self).tokens() == old(self).tokens(),
            text@.len() > MAX_FRAME_CHARS ==> final(self).sessions() == old(self).sessions()
                && r is Reply && is_error_frame(
                r->Reply_0,
                None,
                "message_too_long"@,
                "Message larger than 512 characters"@,
            ),
            text@.len() <= MAX_FRAME_CHARS ==> frame_answer(
                old(self).sessions(),
                final(self).sessions(),
                uuid,
                frame,
                r,
            ),
    {
        if frame_too_long(text) {
            Routed::Reply(message_too_long_frame())
        } else {
            self.process_frame(uuid, frame)
        }
    }

    /// Ends the connection of the session `uuid`, whichever of the close
    /// path and the heartbeat gets here first: a live or closing connection
    /// has its session removed, and any connection ends closed. Returns
    /// whether the session was removed by this call.
    pub fn end_connection(&mut self, connection: &mut Connection, uuid: u128) -> (r: bool)
        ensures
            final(self).issued() == old(self).issued(),
            final(self).tokens() == old(self).tokens(),
            r == (old(connection).state == ConnectionState::Established || old(connection).state
                == ConnectionState::Closing),
            r ==> final(self).sessions() == old(self).sessions().remove(uuid),
            !r ==> final(self).sessions() == old(self).sessions(),
            final(connection).state == ConnectionState::Closed,
            final(connection).last_alive_ms == old(connection).last_alive_ms,
    {
        let live = connection.state == ConnectionState::Established || connection.state
            == ConnectionState::Closing;
        if live {
            self.cleanup_session(uuid);
        }
        connection.finish_close();
        live
    }
}

impl WebSocketServer {
    /// Handles one inbound frame of the session `uuid` that was not too
    /// long: `frame` is what JSON decoding made of it, `None` where the text
    /// was not a frame at all.
    pub fn process_frame(&mut self, uuid: u128, frame: Option<RawFrame>) -> (r: Routed)
        ensures
            final(self).issued() == old(self).issued(),
            final(self).tokens() == old(self).tokens(),
            frame_answer(old(self).sessions(), final(self).sessions(), uuid, frame, r),
    {
        match frame {
            None => Routed::Reply(fault_frame(None, FrameFault::Malformed)),
            Some(f) => {
                let id = f.id;
                match decode_frame(f) {
                    Err(fault) => Routed::Reply(fault_frame(id, fault)),
                    Ok(cmd) => self.route(uuid, id, cmd),
                }
            },
        }
    }

    /// Opens a connection that presented `token_text` at time `now`: the
    /// token is redeemed and its identity becomes the new session, whose id
    /// is the token's. A text that is no token, or a token that cannot be
    /// redeemed, is refused with the invalid-token frame and no session.
    pub fn open_session(&mut self, token_text: &str, now: u64) -> (r: Result<u128, WebSocketMessage>)
        ensures
            final(self).issued() == old(self).issued(),
            uuid_parsed(token_text@) is None ==> final(self).tokens() == old(self).tokens()
                && final(self).sessions() == old(self).sessions() && r is Err && is_error_frame(
                r->Err_0,
                None,
                "invalid_websocket_token"@,
                "Invalid websocket token"@,
            ),
            uuid_parsed(token_text@) matches Some(u) ==> final(self).tokens() == old(
                self,
            ).tokens().remove(u) && if redeemable(old(self).tokens(), u, now as int) {
                r is Ok && r->Ok_0 == u && final(self).sessions() == old(
                    self,
                ).sessions().insert(u, fresh_session(old(self).tokens()[u].identity))
            } else {
                final(self).sessions() == old(self).sessions() && r is Err && is_error_frame(
                    r->Err_0,
                    None,
                    "invalid_websocket_token"@,
                    "Invalid websocket token"@,
                )
            },
    {
        match parse_token_id(token_text) {
            None => Err(invalid_token_frame()),
            Some(uuid) => match self.use_token(uuid, now) {
                Ok(data) => {
                    self.insert_session(uuid, data);
                    Ok(uuid)
                },
                Err(_) => Err(invalid_token_frame()),
            },
        }
    }

    /// Issues, at time `now`, a token for a client that presented no
    /// credential.
    pub fn issue_guest_token(&mut self, now: u64) -> (r: Result<u128, StartError>)
        ensures
            final(self).sessions() == old(self).sessions(),
            r is Ok ==> !old(self).issued().contains(r->Ok_0) && !old(self).tokens().contains_key(
                r->Ok_0,
            ) && !old(self).sessions().contains_key(r->Ok_0) && final(self).tokens() == old(
                self,
            ).tokens().insert(
                r->Ok_0,
                (TokenView {
                    identity: (Identity { address: guest_address(), private_key: None }),
                    issued_at: now as int,
                }),
            ) && final(self).issued() == old(self).issued().insert(r->Ok_0),
            r is Err ==> r->Err_0 == StartError::NoFreshId && final(self).tokens() == old(
                self,
            ).tokens() && final(self).issued() == old(self).issued(),
            old(self).issued().is_empty() && old(self).tokens().is_empty() && old(
                self,
            ).sessions().is_empty() ==> r is Ok,
    {
        match self.obtain_token(WebSocketTokenData::guest(), now) {
            Ok(token) => Ok(token),
            Err(_) => Err(StartError::NoFreshId),
        }
    }

    /// Issues, at time `now`, a token for a client that presented
    /// `private_key`, given what the persistence layer said of it. Only an
    /// accepted credential gets a token, bound to its wallet.
    pub fn issue_token_for_credential(
        &mut self,
        private_key: String,
        outcome: Result<VerifyResponse, StoreFault>,
        now: u64,
    ) -> (r: Result<u128, StartError>)
        ensures
            final(self).sessions() == old(self).sessions(),
            outcome is Ok && outcome->Ok_0.authed && r is Ok ==> !old(self).issued().contains(
                r->Ok_0,
            ) && !old(self).tokens().contains_key(r->Ok_0) && !old(self).sessions().contains_key(
                r->Ok_0,
            ) && final(self).tokens() == old(self).tokens().insert(
                r->Ok_0,
                (TokenView {
                    identity: (Identity {
                        address: outcome->Ok_0.address.address@,
                        private_key: Some(private_key@),
                    }),
                    issued_at: now as int,
                }),
            ) && final(self).issued() == old(self).issued().insert(r->Ok_0),
            outcome is Ok && outcome->Ok_0.authed && r is Err ==> r->Err_0 == StartError::NoFreshId
                && final(self).tokens() == old(self).tokens() && final(self).issued() == old(
                self,
            ).issued(),
            outcome is Ok && outcome->Ok_0.authed && old(self).issued().is_empty() && old(
                self,
            ).tokens().is_empty() && old(self).sessions().is_empty() ==> r is Ok,
            !(outcome is Ok && outcome->Ok_0.authed) ==> r is Err && r->Err_0
                == StartError::AuthFailed && final(self).tokens() == old(self).tokens()
                && final(self).issued() == old(self).issued(),
    {
        match outcome {
            Ok(v) => {
                if v.authed {
                    let data = WebSocketTokenData::new(v.address.address, Some(private_key));
                    match self.obtain_token(data, now) {
                        Ok(token) => Ok(token),
                        Err(_) => Err(StartError::NoFreshId),
                    }
                } else {
                    Err(StartError::AuthFailed)
                }
            },
            Err(_) => Err(StartError::AuthFailed),
        }
    }
}

/// Why no token was issued.
#[derive(Clone, Copy, Debug, PartialEq, Eq, Structural)]
pub enum StartError {
    /// The credential was refused, or could not be checked.
    AuthFailed,
    /// Every id drawn for the token was already taken.
    NoFreshId,
}

/// The HTTP answer that hands a client its token.
#[derive(Debug)]
pub struct WsStartResponse {
    pub ok: bool,
    pub url: String,
    pub expires: u64,
}

/// The answer for the token `token`: the gateway URL that embeds it, and
/// how many seconds it stays valid.
pub fn start_response(gateway_base: &str, token: u128) -> (r: WsStartResponse)
    ensures
        r.ok,
        r.url@ == gateway_base@ + uuid_text(token),
        uuid_parsed(uuid_text(token)) == Some(token),
        r.expires == TOKEN_EXPIRATION_SECS,
{
    let text = token_id_text(token);
    let url = owned(gateway_base).concat(text.as_str());
    WsStartResponse { ok: true, url, expires: TOKEN_EXPIRATION_SECS }
}

/// The ISO-8601 text, to the millisecond and `Z`-suffixed, of the instant
/// `millis` milliseconds after the Unix epoch.
pub uninterp spec fn iso_text(millis: i64) -> Seq<char>;

/// Relies on `DateTime::from_timestamp_millis`, which gives `None` only out
/// of its range of years (about 262,000 either side of year zero, so every
/// instant within 8 * 10^15 ms of the epoch is in it), and on chrono's
/// formatting of the pattern below.
#[verifier::external_body]
pub fn convert_to_iso_string(millis: i64) -> (r: Option<String>)
    ensures
        r matches Some(s) ==> s@ == iso_text(millis),
        -8_000_000_000_000_000 <= millis <= 8_000_000_000_000_000 ==> r is Some,
{
    DateTime::from_timestamp_millis(millis).map(|t| t.format("%Y-%m-%dT%H:%M:%S%.3fZ").to_string())
}

/// `m` is this server's metadata as of `server_time`.
pub open spec fn is_server_motd(m: DetailedMotd, server_time: String) -> bool {
    &&& m.server_time == server_time
    &&& m.motd@ == "Message of the day"@
    &&& m.set is None
    &&& m.motd_set is None
    &&& m.public_url@ == "http://kromer.reconnected.cc"@
    &&& m.public_ws_url@ == "http://kromer.reconnected.cc/api/krist/ws"@
    &&& !m.mining_enabled
    &&& m.transactions_enabled
    &&& m.debug_mode
    &&& m.work == 500
    &&& m.last_block is None
    &&& m.package.name@ == "Kromer"@
    &&& m.package.version@ == "0.2.0"@
    &&& m.package.author@ == "ReconnectedCC Team"@
    &&& m.package.license@ == "GPL-3.0"@
    &&& m.package.repository@ == "https://github.com/ReconnectedCC/kromer/"@
    &&& m.constants.wallet_version == 3
    &&& m.constants.nonce_max_size == 500
    &&& m.constants.name_cost == 500
    &&& m.constants.min_work == 50
    &&& m.constants.max_work == 500
    &&& m.constants.work_factor == 500
    &&& m.constants.seconds_per_block == 5000
    &&& m.currency.address_prefix@ == "k"@
    &&& m.currency.name_suffix@ == "kro"@
    &&& m.currency.currency_name@ == "Kromer"@
    &&& m.currency.currency_symbol@ == "KRO"@
    &&& m.notice@ == "Some awesome notice will go here"@
}

/// The server metadata, as of `server_time`.
pub fn detailed_motd(server_time: String) -> (r: DetailedMotd)
    ensures
        is_server_motd(r, server_time),
{
    DetailedMotd {
        server_time,
        motd: owned("Message of the day"),
        set: None,
        motd_set: None,
        public_url: owned("http://kromer.reconnected.cc"),
        public_ws_url: owned("http://kromer.reconnected.cc/api/krist/ws"),
        mining_enabled: false,
        transactions_enabled: true,
        debug_mode: true,
        work: 500,
        last_block: None::<BlockJson>,
        package: PackageInfo {
            name: owned("Kromer"),
            version: owned("0.2.0"),
            author: owned("ReconnectedCC Team"),
            license: owned("GPL-3.0"),
            repository: owned("https://github.com/ReconnectedCC/kromer/"),
        },
        constants: Constants {
            wallet_version: 3,
            nonce_max_size: 500,
            name_cost: 500,
            min_work: 50,
            max_work: 500,
            work_factor: 500,
            seconds_per_block: 5000,
        },
        currency: CurrencyInfo {
            address_prefix: owned("k"),
            name_suffix: owned("kro"),
            currency_name: owned("Kromer"),
            currency_symbol: owned("KRO"),
        },
        notice: owned("Some awesome notice will go here"),
    }
}

/// The greeting sent once when a session is established.
pub fn hello_message(server_time: String) -> (r: WebSocketMessage)
    ensures
        r.ok == Some(true),
        r.id is None,
        r.body matches WebSocketMessageInner::Hello { motd } && is_server_motd(motd, server_time),
{
    WebSocketMessage {
        ok: Some(true),
        id: None,
        body: WebSocketMessageInner::Hello { motd: detailed_motd(server_time) },
    }
}

/// The greeting, as of the instant `millis` milliseconds after the epoch;
/// `None` only for an instant chrono cannot represent.
pub fn hello_at(millis: i64) -> (r: Option<WebSocketMessage>)
    ensures
        -8_000_000_000_000_000 <= millis <= 8_000_000_000_000_000 ==> r is Some,
        r matches Some(m) ==> (m.ok == Some(true) && m.id is None && (
        m.body matches WebSocketMessageInner::Hello { motd } && motd.server_time@ == iso_text(
            millis,
        ) && is_server_motd(motd, motd.server_time))),
{
    match convert_to_iso_string(millis) {
        Some(time) => Some(hello_message(time)),
        None => None,
    }
}

/// The keepalive frame, as of the instant `millis` milliseconds after the
/// epoch; `None` only for an instant chrono cannot represent.
pub fn keepalive_at(millis: i64) -> (r: Option<WebSocketMessage>)
    ensures
        -8_000_000_000_000_000 <= millis <= 8_000_000_000_000_000 ==> r is Some,
        r matches Some(m) ==> (m.ok is None && m.id is None && (
        m.body matches WebSocketMessageInner::Keepalive { server_time } && server_time@ == iso_text(
            millis,
        ))),
{
    match convert_to_iso_string(millis) {
        Some(time) => Some(keepalive_message(time)),
        None => None,
    }
}

/// The frame sent on every heartbeat tick.
pub fn keepalive_message(server_time: String) -> (r: WebSocketMessage)
    ensures
        r.ok is None,
        r.id is None,
        r.body == (WebSocketMessageInner::Keepalive { server_time }),
{
    WebSocketMessage { ok: None, id: None, body: WebSocketMessageInner::Keepalive { server_time } }
}

/// Where a connection is in its life.
#[derive(Clone, Copy, Debug, PartialEq, Eq, Structural)]
pub enum ConnectionState {
    Connecting,
    Established,
    Closing,
    Closed,
}

/// What the heartbeat does on a tick.
#[derive(Clone, Copy, Debug, PartialEq, Eq, Structural)]
pub enum HeartbeatAction {
    /// Ping the client and send a keepalive.
    Ping,
    /// The client has been silent too long: close the connection and tear
    /// the session down.
    Close,
    /// The connection is closing already: stop ticking.
    Stop,
}

/// A connection that last proved alive at `last_alive` has timed out at
/// `now`.
pub open spec fn timed_out(last_alive: int, now: int) -> bool {
    now - last_alive > CLIENT_TIMEOUT_MS
}

/// The lifecycle of one connection, shared by its frame loop and its
/// heartbeat.
#[derive(Debug)]
pub struct Connection {
    pub state: ConnectionState,
    pub last_alive_ms: u64,
}

impl Connection {
    /// A connection whose token has not been redeemed yet.
    pub fn new() -> (r: Connection)
        ensures
            r.state == ConnectionState::Connecting,
            r.last_alive_ms == 0,
    {
        Connection { state: ConnectionState::Connecting, last_alive_ms: 0 }
    }

    /// The token was redeemed at `now`: the connection is live.
    pub fn establish(&mut self, now: u64)
        ensures
            old(self).state == ConnectionState::Connecting ==> final(self).state
                == ConnectionState::Established && final(self).last_alive_ms == now,
            old(self).state != ConnectionState::Connecting ==> *final(self) == *old(self),
    {
        if self.state == ConnectionState::Connecting {
            self.state = ConnectionState::Established;
            self.last_alive_ms = now;
        }
    }

    /// The client answered a ping at `now`.
    pub fn record_pong(&mut self, now: u64)
        ensures
            old(self).state == ConnectionState::Established ==> final(self).state
                == ConnectionState::Established && final(self).last_alive_ms == now,
            old(self).state != ConnectionState::Established ==> *final(self) == *old(self),
    {
        if self.state == ConnectionState::Established {
            self.last_alive_ms = now;
        }
    }

    /// The heartbeat ticked at `now`.
    pub fn heartbeat(&mut self, now: u64) -> (r: HeartbeatAction)
        ensures
            old(self).state != ConnectionState::Established ==> r == HeartbeatAction::Stop
                && *final(self) == *old(self),
            old(self).state == ConnectionState::Established && timed_out(
                old(self).last_alive_ms as int,
                now as int,
            ) ==> r == HeartbeatAction::Close && final(self).state == ConnectionState::Closing
                && final(self).last_alive_ms == old(self).last_alive_ms,
            old(self).state == ConnectionState::Established && !timed_out(
                old(self).last_alive_ms as int,
                now as int,
            ) ==> r == HeartbeatAction::Ping && *final(self) == *old(self),
    {
        if self.state != ConnectionState::Established {
            HeartbeatAction::Stop
        } else if now > self.last_alive_ms && now - self.last_alive_ms > CLIENT_TIMEOUT_MS {
            self.state = ConnectionState::Closing;
            HeartbeatAction::Close
        } else {
            HeartbeatAction::Ping
        }
    }

    /// The client closed the connection, or a send to it failed. Returns
    /// whether the caller is the one to tear the session down: only the
    /// first close of a live connection is.
    pub fn begin_close(&mut self) -> (r: bool)
        ensures
            r == (old(self).state == ConnectionState::Established),
            old(self).state == ConnectionState::Established ==> final(self).state
                == ConnectionState::Closing,
            old(self).state == ConnectionState::Connecting ==> final(self).state
                == ConnectionState::Closed,
            old(self).state == ConnectionState::Closing || old(self).state
                == ConnectionState::Closed ==> final(self).state == old(self).state,
            final(self).last_alive_ms == old(self).last_alive_ms,
    {
        match self.state {
            ConnectionState::Established => {
                self.state = ConnectionState::Closing;
                true
            },
            ConnectionState::Connecting => {
                self.state = ConnectionState::Closed;
                false
            },
            _ => false,
        }
    }

    /// Teardown is done: the connection is closed for good.
    pub fn finish_close(&mut self)
        ensures
            final(self).state == ConnectionState::Closed,
            final(self).last_alive_ms == old(self).last_alive_ms,
    {
        self.state = ConnectionState::Closed;
    }
}

} // verus!

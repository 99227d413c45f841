use kromer::gateway::{
    frame_too_long, hello_message, invalid_token_frame, keepalive_message,
    message_too_long_frame, start_response, Connection, ConnectionState, HeartbeatAction,
    StartError,
};
use kromer::models::SessionQuery;
use kromer::messages::{WebSocketMessageInner, WebSocketMessageResponse};
use kromer::router::{RawFrame, Routed, StoreFault, VerifyResponse};
use kromer::session::{WebSocketServer, WebSocketServerError, WebSocketTokenData};
use kromer::topics::WebSocketSubscriptionType;

use kromer::amount::Amount;
use kromer::messages::AddressJson;

fn token_id_text(id: u128) -> String {
    uuid::Uuid::from_u128(id).hyphenated().to_string()
}

fn frame(id: Option<usize>, kind: &str) -> RawFrame {
    RawFrame {
        id,
        kind: kind.to_string(),
        address: None,
        fetch_names: None,
        private_key: None,
        event: None,
        to: None,
        amount: None,
        metadata: None,
    }
}

fn wallet(address: &str, balance: i128) -> AddressJson {
    AddressJson {
        address: address.to_string(),
        balance: Amount::from_parts(balance, 0).unwrap(),
        total_in: Amount::zero(),
        total_out: Amount::zero(),
        first_seen: "2024-01-01T00:00:00.000Z".to_string(),
    }
}

fn reply(r: Routed) -> kromer::messages::WebSocketMessage {
    match r {
        Routed::Reply(m) => m,
        other => panic!("expected a reply, got {:?}", other),
    }
}

fn error_message(m: &kromer::messages::WebSocketMessage) -> String {
    match &m.body {
        WebSocketMessageInner::Error { message, .. } => message.clone(),
        other => panic!("expected an error frame, got {:?}", other),
    }
}

fn error_code(m: &kromer::messages::WebSocketMessage) -> String {
    match &m.body {
        WebSocketMessageInner::Error { error, .. } => error.clone(),
        other => panic!("expected an error frame, got {:?}", other),
    }
}

fn levels(m: &kromer::messages::WebSocketMessage) -> Vec<String> {
    match &m.body {
        WebSocketMessageInner::Response { data, .. } => match data {
            WebSocketMessageResponse::Subscribe { subscription_level } => subscription_level.clone(),
            WebSocketMessageResponse::Unsubscribe { subscription_level } => {
                subscription_level.clone()
            }
            WebSocketMessageResponse::GetSubscriptionLevel { subscription_level } => {
                subscription_level.clone()
            }
            WebSocketMessageResponse::GetValidSubscriptionLevels {
                valid_subscription_levels,
            } => valid_subscription_levels.clone(),
            other => panic!("expected a level list, got {:?}", other),
        },
        other => panic!("expected a response, got {:?}", other),
    }
}

fn open_guest(server: &mut WebSocketServer) -> u128 {
    let token = server.issue_guest_token(1_000).unwrap();
    server.open_session(&token_id_text(token), 1_500).unwrap()
}

#[test]
fn token_redeems_exactly_once() {
    let mut server = WebSocketServer::new();
    let token = server.obtain_token(WebSocketTokenData::guest(), 0).unwrap();
    let data = server.use_token(token, 10).unwrap();
    assert_eq!(data.address, "guest");
    assert_eq!(data.private_key, None);
    assert!(matches!(server.use_token(token, 11), Err(WebSocketServerError::TokenNotFound)));
    assert!(matches!(server.use_token(token, 12), Err(WebSocketServerError::TokenNotFound)));
}

#[test]
fn token_expires_after_thirty_seconds() {
    let mut server = WebSocketServer::new();
    let token = server.obtain_token(WebSocketTokenData::guest(), 1_000).unwrap();
    assert!(matches!(server.use_token(token, 31_000), Err(WebSocketServerError::TokenNotFound)));
    let fresh = server.obtain_token(WebSocketTokenData::guest(), 1_000).unwrap();
    assert!(server.use_token(fresh, 30_999).is_ok());
}

#[test]
fn expire_token_drops_only_stale_tokens() {
    let mut server = WebSocketServer::new();
    let token = server.obtain_token(WebSocketTokenData::guest(), 1_000).unwrap();
    server.expire_token(token, 5_000);
    assert!(server.use_token(token, 6_000).is_ok());
    let stale = server.obtain_token(WebSocketTokenData::guest(), 1_000).unwrap();
    server.expire_token(stale, 31_000);
    assert!(server.use_token(stale, 2_000).is_err());
}

#[test]
fn unknown_token_is_refused_without_a_session() {
    let mut server = WebSocketServer::new();
    let refused = server.open_session("not-a-token", 0).unwrap_err();
    assert_eq!(error_code(&refused), "invalid_websocket_token");
    let unknown = token_id_text(42);
    let refused = server.open_session(&unknown, 0).unwrap_err();
    assert_eq!(error_code(&refused), "invalid_websocket_token");
    assert!(server.session_ids().is_empty());
    assert_eq!(error_code(&invalid_token_frame()), "invalid_websocket_token");
}

#[test]
fn internal_queries_find_sessions_by_text() {
    let mut server = WebSocketServer::new();
    let uuid = open_guest(&mut server);
    let query = SessionQuery { session: token_id_text(uuid) };
    let found = server.get_session(&query).unwrap();
    assert_eq!(found.address, "guest");
    assert_eq!(found.subscriptions.len(), 2);
    assert!(server.get_session(&SessionQuery { session: "guest".to_string() }).is_none());
    let absent = SessionQuery { session: token_id_text(uuid ^ 1) };
    assert!(server.get_session(&absent).is_none());
    let list = server.get_sessions();
    assert_eq!(list.len(), 1);
    assert_eq!(list[0].uuid, uuid);
    assert_eq!(list[0].address, "guest");
}

#[test]
fn new_session_has_default_topics() {
    let mut server = WebSocketServer::new();
    let uuid = open_guest(&mut server);
    let list = server.get_subscription_list(uuid);
    assert_eq!(
        list,
        vec![WebSocketSubscriptionType::Blocks, WebSocketSubscriptionType::OwnTransactions]
    );
    let snap = server.snapshot(uuid).unwrap();
    assert_eq!(snap.address, "guest");
    assert_eq!(snap.private_key, None);
}

#[test]
fn removing_a_session_twice_is_harmless() {
    let mut server = WebSocketServer::new();
    let uuid = open_guest(&mut server);
    let other = open_guest(&mut server);
    server.cleanup_session(uuid);
    server.cleanup_session(uuid);
    assert!(server.snapshot(uuid).is_none());
    assert_eq!(server.session_ids(), vec![other]);
}

#[test]
fn subscribe_then_query_includes_topic() {
    let mut server = WebSocketServer::new();
    let uuid = open_guest(&mut server);
    let mut f = frame(Some(3), "subscribe");
    f.event = Some("transactions".to_string());
    let m = reply(server.process_frame(uuid, Some(f)));
    assert_eq!(m.ok, Some(true));
    assert_eq!(m.id, Some(3));
    assert_eq!(levels(&m), vec!["blocks", "transactions", "ownTransactions"]);
    let q = reply(server.process_frame(uuid, Some(frame(Some(4), "get_subscription_level"))));
    assert!(levels(&q).contains(&"transactions".to_string()));

    let mut f = frame(Some(5), "unsubscribe");
    f.event = Some("transactions".to_string());
    let m = reply(server.process_frame(uuid, Some(f)));
    assert_eq!(levels(&m), vec!["blocks", "ownTransactions"]);
}

#[test]
fn subscribing_to_an_invalid_topic_is_refused() {
    let mut server = WebSocketServer::new();
    let uuid = open_guest(&mut server);
    let mut f = frame(Some(9), "subscribe");
    f.event = Some("everything".to_string());
    let m = reply(server.process_frame(uuid, Some(f)));
    assert_eq!(m.ok, Some(false));
    assert_eq!(m.id, Some(9));
    assert_eq!(error_code(&m), "invalid_parameter");
    assert_eq!(
        server.get_subscription_list(uuid),
        vec![WebSocketSubscriptionType::Blocks, WebSocketSubscriptionType::OwnTransactions]
    );
}

#[test]
fn login_then_me_then_logout() {
    let mut server = WebSocketServer::new();
    let uuid = open_guest(&mut server);
    let me = reply(server.process_frame(uuid, Some(frame(Some(1), "me"))));
    assert!(matches!(
        me.body,
        WebSocketMessageInner::Response {
            data: WebSocketMessageResponse::Me { is_guest: true, address: None },
            ..
        }
    ));

    let mut f = frame(Some(2), "login");
    f.private_key = Some("secret".to_string());
    let key = match server.process_frame(uuid, Some(f)) {
        Routed::VerifyLogin { id, private_key } => {
            assert_eq!(id, Some(2));
            private_key
        }
        other => panic!("expected a credential check, got {:?}", other),
    };
    let outcome = Ok(VerifyResponse { authed: true, address: wallet("kabcdefghi", 10) });
    let answer = server.complete_login(uuid, Some(2), key, outcome);
    assert_eq!(answer.ok, Some(true));

    match server.process_frame(uuid, Some(frame(Some(3), "me"))) {
        Routed::LookupSelf { id, address } => {
            assert_eq!(id, Some(3));
            assert_eq!(address, "kabcdefghi");
        }
        other => panic!("expected a wallet lookup, got {:?}", other),
    }

    let out = reply(server.process_frame(uuid, Some(frame(Some(4), "logout"))));
    assert_eq!(out.ok, Some(true));
    let me = reply(server.process_frame(uuid, Some(frame(Some(5), "me"))));
    assert!(matches!(
        me.body,
        WebSocketMessageInner::Response {
            data: WebSocketMessageResponse::Me { is_guest: true, .. },
            ..
        }
    ));
}

#[test]
fn failed_login_keeps_the_session_as_it_was() {
    let mut server = WebSocketServer::new();
    let uuid = open_guest(&mut server);
    let ok = Ok(VerifyResponse { authed: true, address: wallet("kaaaaaaaaa", 0) });
    server.complete_login(uuid, Some(1), "first".to_string(), ok);
    let refused = Ok(VerifyResponse { authed: false, address: wallet("kbbbbbbbbb", 0) });
    let m = server.complete_login(uuid, Some(2), "second".to_string(), refused);
    assert_eq!(error_code(&m), "auth_failed");
    let failed = server.complete_login(uuid, Some(3), "third".to_string(), Err(StoreFault::Database));
    assert_eq!(error_code(&failed), "database_error");
    let snap = server.snapshot(uuid).unwrap();
    assert_eq!(snap.address, "kaaaaaaaaa");
    assert_eq!(snap.private_key, Some("first".to_string()));
}

#[test]
fn oversized_frame_is_refused_and_session_stays() {
    let mut server = WebSocketServer::new();
    let uuid = open_guest(&mut server);
    let long = "a".repeat(513);
    assert!(frame_too_long(&long));
    assert!(!frame_too_long(&"a".repeat(512)));
    assert!(frame_too_long(&"é".repeat(513)));
    assert!(!frame_too_long(&"é".repeat(512)));
    let m = message_too_long_frame();
    assert_eq!(m.ok, Some(false));
    assert_eq!(error_code(&m), "message_too_long");
    let next = reply(server.process_frame(uuid, Some(frame(Some(7), "get_subscription_level"))));
    assert_eq!(next.ok, Some(true));
    assert_eq!(next.id, Some(7));
}

#[test]
fn malformed_and_unknown_frames_get_protocol_errors() {
    let mut server = WebSocketServer::new();
    let uuid = open_guest(&mut server);
    let m = reply(server.process_frame(uuid, None));
    assert_eq!(error_code(&m), "syntax_error");
    let m = reply(server.process_frame(uuid, Some(frame(Some(1), "fly"))));
    assert_eq!(error_code(&m), "invalid_message_type");
    assert_eq!(m.id, Some(1));
    let m = reply(server.process_frame(uuid, Some(frame(Some(2), "keepalive"))));
    assert_eq!(error_code(&m), "invalid_message_type");
    let m = reply(server.process_frame(uuid, Some(frame(Some(3), "login"))));
    assert_eq!(error_code(&m), "missing_parameter");
    let mut f = frame(Some(4), "make_transaction");
    f.private_key = Some("k".to_string());
    f.to = Some("kabcdefghi".to_string());
    f.amount = Some(Amount { mantissa: i128::MAX, scale: 0 });
    let m = reply(server.process_frame(uuid, Some(f)));
    assert_eq!(error_code(&m), "invalid_parameter");
    assert!(server.snapshot(uuid).is_some());
}

#[test]
fn end_to_end_guest_session() {
    let mut server = WebSocketServer::new();
    let token = server.issue_guest_token(1_000).unwrap();
    let start = start_response("wss://kromer.reconnected.cc/api/krist/ws/gateway/", token);
    assert!(start.ok);
    assert_eq!(start.expires, 30);
    let text = token_id_text(token);
    assert_eq!(start.url, format!("wss://kromer.reconnected.cc/api/krist/ws/gateway/{}", text));

    let uuid = server.open_session(&text, 2_000).unwrap();
    assert_eq!(uuid, token);
    let hello = hello_message("2024-01-01T00:00:00.000Z".to_string());
    assert_eq!(hello.ok, Some(true));
    match &hello.body {
        WebSocketMessageInner::Hello { motd } => {
            assert_eq!(motd.server_time, "2024-01-01T00:00:00.000Z");
            assert_eq!(motd.constants.wallet_version, 3);
        }
        other => panic!("expected a greeting, got {:?}", other),
    }

    let m = reply(server.process_frame(uuid, Some(frame(Some(1), "get_valid_subscription_levels"))));
    assert_eq!(m.ok, Some(true));
    assert_eq!(m.id, Some(1));
    match &m.body {
        WebSocketMessageInner::Response { responding_to, .. } => {
            assert_eq!(responding_to, "get_valid_subscription_levels")
        }
        other => panic!("expected a response, got {:?}", other),
    }
    let names = levels(&m);
    for name in ["blocks", "transactions", "names", "motd"] {
        assert!(names.contains(&name.to_string()));
    }
    assert_eq!(
        names,
        vec!["blocks", "ownBlocks", "transactions", "ownTransactions", "names", "ownNames", "motd"]
    );
    assert!(server.open_session(&text, 2_500).is_err());
}

#[test]
fn credential_tokens_need_an_accepted_key() {
    let mut server = WebSocketServer::new();
    let ok = Ok(VerifyResponse { authed: true, address: wallet("kcccccccccc", 5) });
    let token = server.issue_token_for_credential("pw".to_string(), ok, 0).unwrap();
    let data = server.use_token(token, 1).unwrap();
    assert_eq!(data.address, "kcccccccccc");
    assert_eq!(data.private_key, Some("pw".to_string()));
    let refused = Ok(VerifyResponse { authed: false, address: wallet("kcccccccccc", 5) });
    assert_eq!(
        server.issue_token_for_credential("pw".to_string(), refused, 0),
        Err(StartError::AuthFailed)
    );
    assert_eq!(
        server.issue_token_for_credential("pw".to_string(), Err(StoreFault::Database), 0),
        Err(StartError::AuthFailed)
    );
}

#[test]
fn heartbeat_closes_silent_connections_once() {
    let mut c = Connection::new();
    assert_eq!(c.heartbeat(0), HeartbeatAction::Stop);
    c.establish(1_000);
    assert_eq!(c.state, ConnectionState::Established);
    assert_eq!(c.heartbeat(6_000), HeartbeatAction::Ping);
    c.record_pong(9_000);
    assert_eq!(c.heartbeat(19_000), HeartbeatAction::Ping);
    assert_eq!(c.heartbeat(19_001), HeartbeatAction::Close);
    assert_eq!(c.state, ConnectionState::Closing);
    assert!(!c.begin_close());
    assert_eq!(c.heartbeat(25_000), HeartbeatAction::Stop);
    c.finish_close();
    assert_eq!(c.state, ConnectionState::Closed);
}

#[test]
fn client_close_tears_down_once() {
    let mut c = Connection::new();
    c.establish(0);
    assert!(c.begin_close());
    assert!(!c.begin_close());
    let mut never = Connection::new();
    assert!(!never.begin_close());
    assert_eq!(never.state, ConnectionState::Closed);
}

#[test]
fn keepalive_carries_server_time() {
    let m = keepalive_message("2024-05-06T07:08:09.010Z".to_string());
    assert_eq!(m.ok, None);
    assert_eq!(m.id, None);
    assert!(matches!(
        m.body,
        WebSocketMessageInner::Keepalive { ref server_time } if server_time == "2024-05-06T07:08:09.010Z"
    ));
    assert_eq!(
        kromer::gateway::convert_to_iso_string(1_700_000_000_123),
        Some("2023-11-14T22:13:20.123Z".to_string())
    );
}

#[test]
fn error_frames_carry_their_messages() {
    let mut server = WebSocketServer::new();
    let uuid = open_guest(&mut server);
    let mut f = frame(Some(1), "subscribe");
    f.event = Some("foo".to_string());
    let m = reply(server.process_frame(uuid, Some(f)));
    assert_eq!(error_message(&m), "Invalid parameter event");
    assert_eq!(error_message(&message_too_long_frame()), "Message larger than 512 characters");
    assert_eq!(error_message(&invalid_token_frame()), "Invalid websocket token");
    let m = reply(server.process_frame(uuid, None));
    assert_eq!(error_message(&m), "Could not parse the message");
    let refused = Ok(VerifyResponse { authed: false, address: wallet("kbbbbbbbbb", 0) });
    let m = server.complete_login(uuid, Some(2), "k".to_string(), refused);
    assert_eq!(error_message(&m), "Authentication failed");
}

#[test]
fn greeting_carries_the_server_metadata() {
    let hello = hello_message("2024-01-01T00:00:00.000Z".to_string());
    match &hello.body {
        WebSocketMessageInner::Hello { motd } => {
            assert_eq!(motd.currency.address_prefix, "k");
            assert_eq!(motd.currency.name_suffix, "kro");
            assert_eq!(motd.currency.currency_symbol, "KRO");
            assert_eq!(motd.package.name, "Kromer");
            assert_eq!(motd.public_url, "http://kromer.reconnected.cc");
            assert_eq!(motd.constants.seconds_per_block, 5000);
            assert_eq!(motd.notice, "Some awesome notice will go here");
        }
        other => panic!("expected a greeting, got {:?}", other),
    }
}

#[test]
fn issued_tokens_are_fresh_and_distinct() {
    let mut server = WebSocketServer::new();
    let mut seen = Vec::new();
    for _ in 0..50 {
        let t = server.issue_guest_token(0).unwrap();
        assert!(!seen.contains(&t));
        seen.push(t);
    }
    let opened = server.open_session(&token_id_text(seen[0]), 1).unwrap();
    let next = server.issue_guest_token(2).unwrap();
    assert_ne!(next, opened);
}

#[test]
fn issue_with_id_refuses_ids_seen_before() {
    let mut server = WebSocketServer::new();
    assert!(server.issue_with_id(7, WebSocketTokenData::guest(), 0));
    assert!(!server.issue_with_id(7, WebSocketTokenData::guest(), 0));
    let opened = server.open_session(&token_id_text(7), 1).unwrap();
    assert_eq!(opened, 7);
    assert!(!server.issue_with_id(7, WebSocketTokenData::guest(), 2));
    server.cleanup_session(7);
    assert!(!server.issue_with_id(7, WebSocketTokenData::guest(), 3));
    server.insert_session(8, WebSocketTokenData::guest());
    assert!(!server.issue_with_id(8, WebSocketTokenData::guest(), 3));
    assert!(server.issue_with_id(9, WebSocketTokenData::guest(), 3));
    assert!(server.use_token(9, 4).is_ok());
}

#[test]
fn handle_text_refuses_long_frames_before_routing() {
    let mut server = WebSocketServer::new();
    let uuid = open_guest(&mut server);
    let long = "x".repeat(513);
    let mut f = frame(Some(1), "subscribe");
    f.event = Some("names".to_string());
    let m = reply(server.handle_text(uuid, &long, Some(f)));
    assert_eq!(error_code(&m), "message_too_long");
    assert_eq!(error_message(&m), "Message larger than 512 characters");
    assert_eq!(server.get_subscription_list(uuid).len(), 2);
    let ok = reply(server.handle_text(uuid, "{}", Some(frame(Some(2), "get_subscription_level"))));
    assert_eq!(ok.ok, Some(true));
    assert_eq!(ok.id, Some(2));
}

#[test]
fn end_connection_removes_the_session_once() {
    let mut server = WebSocketServer::new();
    let uuid = open_guest(&mut server);
    let mut c = Connection::new();
    c.establish(0);
    assert!(server.end_connection(&mut c, uuid));
    assert_eq!(c.state, ConnectionState::Closed);
    assert!(server.snapshot(uuid).is_none());
    assert!(!server.end_connection(&mut c, uuid));

    let other = open_guest(&mut server);
    let mut timed_out = Connection::new();
    timed_out.establish(0);
    assert_eq!(timed_out.heartbeat(20_000), HeartbeatAction::Close);
    assert!(server.end_connection(&mut timed_out, other));
    assert!(server.session_ids().is_empty());
}

#[test]
fn timed_frames_carry_iso_time() {
    let hello = kromer::gateway::hello_at(1_700_000_000_123).unwrap();
    match &hello.body {
        WebSocketMessageInner::Hello { motd } => {
            assert_eq!(motd.server_time, "2023-11-14T22:13:20.123Z")
        }
        other => panic!("expected a greeting, got {:?}", other),
    }
    let k = kromer::gateway::keepalive_at(0).unwrap();
    assert!(matches!(
        k.body,
        WebSocketMessageInner::Keepalive { ref server_time } if server_time == "1970-01-01T00:00:00.000Z"
    ));
    assert!(kromer::gateway::hello_at(i64::MAX).is_none());
}

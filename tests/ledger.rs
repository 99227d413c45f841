use kromer::amount::Amount;
use kromer::broadcast::event_frame;
use kromer::messages::{
    AddressJson, BlockJson, NameJson, TransactionJson, TransactionType, WebSocketEvent,
    WebSocketMessageInner, WebSocketMessageResponse,
};
use kromer::router::{
    complete_address, complete_me, decode_frame, transaction_after_auth,
    transaction_after_insert, transaction_after_recipient, ClientCommand, FrameFault, RawFrame,
    Routed, StoreFault, VerifyResponse,
};
use kromer::session::{WebSocketServer, WebSocketTokenData};
use kromer::topics::{valid_subscription_types, WebSocketSubscriptionType};

fn amount(m: i128, s: u32) -> Amount {
    Amount::from_parts(m, s).unwrap()
}

fn wallet(address: &str, balance: Amount) -> AddressJson {
    AddressJson {
        address: address.to_string(),
        balance,
        total_in: Amount::zero(),
        total_out: Amount::zero(),
        first_seen: "2024-01-01T00:00:00.000Z".to_string(),
    }
}

fn transaction(from: &str, to: &str) -> TransactionJson {
    TransactionJson {
        id: Some("transaction:1".to_string()),
        from: from.to_string(),
        to: to.to_string(),
        value: amount(150, 2),
        time: "2024-01-01T00:00:00.000Z".to_string(),
        name: None,
        metadata: None,
        sent_metaname: None,
        sent_name: None,
        transaction_type: TransactionType::Transfer,
    }
}

fn code(m: &kromer::messages::WebSocketMessage) -> String {
    match &m.body {
        WebSocketMessageInner::Error { error, .. } => error.clone(),
        other => panic!("expected an error frame, got {:?}", other),
    }
}

fn blank(kind: &str) -> RawFrame {
    RawFrame {
        id: None,
        kind: kind.to_string(),
        address: None,
        fetch_names: None,
        private_key: None,
        event: None,
        to: None,
        amount: None,
        metadata: None,
    }
}

#[test]
fn amounts_compare_by_value() {
    assert!(amount(5, 1).is_less_than(&amount(6, 1)));
    assert!(!amount(50, 1).is_less_than(&amount(5, 0)));
    assert!(!amount(5, 0).is_less_than(&amount(50, 1)));
    assert!(amount(-1, 3).is_less_than(&Amount::zero()));
    assert!(amount(999, 3).is_less_than(&amount(1, 0)));
    assert!(amount(-5, 2).is_negative());
    assert!(!Amount::zero().is_negative());
    assert!(Amount::from_parts(1, 29).is_none());
    assert!(Amount::from_parts(0xFFFF_FFFF_FFFF_FFFF_FFFF_FFFF + 1, 0).is_none());
    assert!(Amount::from_parts(-0xFFFF_FFFF_FFFF_FFFF_FFFF_FFFF, 28).is_some());
}

#[test]
fn transaction_reaches_owner_and_watchers_only() {
    let mut server = WebSocketServer::new();
    let own = server.obtain_token(
        WebSocketTokenData::new("ksender000".to_string(), Some("pw".to_string())),
        0,
    )
    .unwrap();
    let own_data = server.use_token(own, 1).unwrap();
    server.insert_session(own, own_data);
    server.unsubscribe_from_event(own, WebSocketSubscriptionType::Blocks);

    let watcher = 2u128;
    server.insert_session(watcher, WebSocketTokenData::guest());
    server.subscribe_to_event(watcher, WebSocketSubscriptionType::Transactions);
    server.unsubscribe_from_event(watcher, WebSocketSubscriptionType::OwnTransactions);

    let idle = 3u128;
    server.insert_session(idle, WebSocketTokenData::guest());
    server.unsubscribe_from_event(idle, WebSocketSubscriptionType::OwnTransactions);

    let guest_owner = 4u128;
    server.insert_session(guest_owner, WebSocketTokenData::guest());

    let event = WebSocketEvent::Transaction { transaction: transaction("ksender000", "krecv00000") };
    let mut targets = server.broadcast_targets(&event);
    targets.sort();
    assert_eq!(targets, vec![2, own]);

    let guest_event = WebSocketEvent::Transaction { transaction: transaction("guest", "kx") };
    assert_eq!(server.broadcast_targets(&guest_event), vec![2]);
    assert_eq!(server.session_ids().len(), 4);
}

#[test]
fn name_and_block_events_follow_their_topics() {
    let mut server = WebSocketServer::new();
    server.insert_session(1, WebSocketTokenData::new("kowner0000".to_string(), None));
    server.subscribe_to_event(1, WebSocketSubscriptionType::OwnNames);
    server.unsubscribe_from_event(1, WebSocketSubscriptionType::Blocks);
    server.insert_session(2, WebSocketTokenData::guest());
    let name = WebSocketEvent::Name {
        name: NameJson {
            name: "shop".to_string(),
            owner: "kowner0000".to_string(),
            registered: "2024-01-01T00:00:00.000Z".to_string(),
            updated: None,
            a: None,
        },
    };
    assert_eq!(server.broadcast_targets(&name), vec![1]);
    let block = WebSocketEvent::Block {
        block: BlockJson {
            height: 7,
            address: "kminer0000".to_string(),
            hash: "00ff".to_string(),
            value: amount(25, 0),
            time: "2024-01-01T00:00:00.000Z".to_string(),
        },
    };
    assert_eq!(server.broadcast_targets(&block), vec![2]);
}

#[test]
fn session_receives_reads_address_and_topics() {
    let mut server = WebSocketServer::new();
    server.insert_session(9, WebSocketTokenData::new("krecv00000".to_string(), None));
    let event = WebSocketEvent::Transaction { transaction: transaction("kother0000", "krecv00000") };
    assert_eq!(server.broadcast_targets(&event), vec![9]);
    let frame = event_frame(event);
    assert_eq!(frame.ok, Some(true));
    assert_eq!(frame.id, None);
    assert!(matches!(frame.body, WebSocketMessageInner::Event { .. }));
}

#[test]
fn make_transaction_refuses_negative_amounts() {
    let mut server = WebSocketServer::new();
    server.insert_session(1, WebSocketTokenData::guest());
    let cmd = ClientCommand::MakeTransaction {
        private_key: "pw".to_string(),
        to: "krecv00000".to_string(),
        amount: amount(-1, 0),
        metadata: None,
    };
    match server.route(1, Some(8), cmd) {
        Routed::Reply(m) => {
            assert_eq!(code(&m), "invalid_parameter");
            assert_eq!(m.id, Some(8));
        }
        other => panic!("expected a refusal, got {:?}", other),
    }
    let cmd = ClientCommand::MakeTransaction {
        private_key: "pw".to_string(),
        to: "krecv00000".to_string(),
        amount: amount(3, 0),
        metadata: Some("note".to_string()),
    };
    assert!(matches!(server.route(1, Some(9), cmd), Routed::VerifySender { .. }));
}

#[test]
fn make_transaction_steps_report_each_failure() {
    let bad_key = transaction_after_auth(
        Some(1),
        Ok(VerifyResponse { authed: false, address: wallet("ksender000", amount(10, 0)) }),
    );
    assert_eq!(code(&bad_key.unwrap_err()), "invalid_parameter");
    let db = transaction_after_auth(Some(1), Err(StoreFault::Database));
    assert_eq!(code(&db.unwrap_err()), "database_error");
    let sender = transaction_after_auth(
        Some(1),
        Ok(VerifyResponse { authed: true, address: wallet("ksender000", amount(10, 0)) }),
    )
    .unwrap();
    assert_eq!(sender.address, "ksender000");

    let missing = transaction_after_recipient(
        Some(1),
        sender.clone(),
        "knobody000",
        amount(1, 0),
        None,
        Ok(None),
    );
    let m = missing.unwrap_err();
    assert_eq!(code(&m), "address_not_found");
    assert!(matches!(
        m.body,
        WebSocketMessageInner::Error { ref message, .. } if message == "Address knobody000 not found"
    ));
    let poor = transaction_after_recipient(
        Some(1),
        sender.clone(),
        "krecv00000",
        amount(1001, 2),
        None,
        Ok(Some(wallet("krecv00000", amount(0, 0)))),
    );
    assert_eq!(code(&poor.unwrap_err()), "insufficient_funds");
    let failed = transaction_after_recipient(
        Some(1),
        sender.clone(),
        "krecv00000",
        amount(1, 0),
        None,
        Err(StoreFault::Database),
    );
    assert_eq!(code(&failed.unwrap_err()), "database_error");
    let request = transaction_after_recipient(
        Some(1),
        sender,
        "krecv00000",
        amount(1000, 2),
        Some("hi".to_string()),
        Ok(Some(wallet("krecv00000", amount(0, 0)))),
    )
    .unwrap();
    assert_eq!(request.from, "ksender000");
    assert_eq!(request.to, "krecv00000");
    assert_eq!(request.amount, amount(1000, 2));
    assert_eq!(request.metadata, Some("hi".to_string()));

    let done = transaction_after_insert(Some(1), Ok(transaction("ksender000", "krecv00000")));
    assert_eq!(done.ok, Some(true));
    assert!(matches!(
        done.body,
        WebSocketMessageInner::Response {
            data: WebSocketMessageResponse::MakeTransaction { .. },
            ..
        }
    ));
    let lost = transaction_after_insert(Some(1), Err(StoreFault::Database));
    assert_eq!(code(&lost), "database_error");
}

#[test]
fn lookups_answer_found_missing_and_failed() {
    let found = complete_address(Some(2), "ka", Ok(Some(wallet("ka", amount(1, 0)))));
    assert_eq!(found.ok, Some(true));
    assert_eq!(found.id, Some(2));
    assert_eq!(code(&complete_address(Some(2), "ka", Ok(None))), "address_not_found");
    assert_eq!(
        code(&complete_address(Some(2), "ka", Err(StoreFault::Database))),
        "internal_server_error"
    );
    let me = complete_me(None, "ka", Ok(Some(wallet("ka", amount(1, 0)))));
    assert!(matches!(
        me.body,
        WebSocketMessageInner::Response {
            data: WebSocketMessageResponse::Me { is_guest: false, address: Some(_) },
            ..
        }
    ));
    assert_eq!(code(&complete_me(None, "ka", Ok(None))), "address_not_found");
    assert_eq!(code(&complete_me(None, "ka", Err(StoreFault::Database))), "internal_server_error");
}

#[test]
fn frames_decode_into_commands() {
    let mut f = blank("address");
    f.address = Some("kabc".to_string());
    assert!(matches!(
        decode_frame(f),
        Ok(ClientCommand::Address { ref address, fetch_names: false }) if address == "kabc"
    ));
    assert!(matches!(decode_frame(blank("logout")), Ok(ClientCommand::Logout)));
    assert!(matches!(decode_frame(blank("me")), Ok(ClientCommand::Me)));
    assert!(matches!(decode_frame(blank("subscribe")), Err(FrameFault::MissingParameter)));
    assert!(matches!(decode_frame(blank("hello")), Err(FrameFault::ServerOnlyType)));
    assert!(matches!(decode_frame(blank("event")), Err(FrameFault::ServerOnlyType)));
    assert!(matches!(decode_frame(blank("")), Err(FrameFault::UnknownType)));
    assert!(matches!(decode_frame(blank("make_transaction")), Err(FrameFault::MissingParameter)));
}

#[test]
fn topic_names_round_trip() {
    for t in valid_subscription_types() {
        assert_eq!(WebSocketSubscriptionType::from_name(t.as_str()), Some(t));
        assert!(WebSocketSubscriptionType::is_valid(&t.into_string()));
    }
    assert_eq!(WebSocketSubscriptionType::from_name("ownTransactions"), Some(WebSocketSubscriptionType::OwnTransactions));
    assert_eq!(WebSocketSubscriptionType::from_name("owntransactions"), None);
    assert!(!WebSocketSubscriptionType::is_valid(""));
    assert_eq!(TransactionType::NameARecord.as_str(), "name_a_record");
    assert_eq!(TransactionType::Transfer.as_str(), "transfer");
}

#[test]
fn transaction_kinds_are_identified() {
    let s = |x: &str| Some(x.to_string());
    assert_eq!(TransactionType::identify(&None, &s("kx"), &None), TransactionType::Mined);
    assert_eq!(TransactionType::identify(&s("ka"), &s("kb"), &None), TransactionType::Transfer);
    assert_eq!(TransactionType::identify(&s("ka"), &s("name"), &s("shop")), TransactionType::NamePurchase);
    assert_eq!(TransactionType::identify(&s("ka"), &s("metadata"), &s("shop")), TransactionType::NameARecord);
    assert_eq!(TransactionType::identify(&s("ka"), &s("kb"), &s("shop")), TransactionType::NameTransfer);
    assert_eq!(TransactionType::identify(&s("ka"), &None, &s("shop")), TransactionType::NameTransfer);
}

#[test]
fn lookup_failures_carry_their_messages() {
    let msg = |m: &kromer::messages::WebSocketMessage| match &m.body {
        WebSocketMessageInner::Error { message, .. } => message.clone(),
        other => panic!("expected an error frame, got {:?}", other),
    };
    assert_eq!(msg(&complete_me(None, "kz", Ok(None))), "Address kz not found");
    assert_eq!(
        msg(&complete_address(None, "kz", Err(StoreFault::Database))),
        "Something went wrong while processing your message"
    );
    let bad = transaction_after_auth(
        None,
        Ok(VerifyResponse { authed: false, address: wallet("ks", amount(1, 0)) }),
    );
    assert_eq!(msg(&bad.unwrap_err()), "Invalid parameter privatekey");
    let poor = transaction_after_recipient(
        None,
        wallet("ks", amount(1, 0)),
        "kr",
        amount(2, 0),
        None,
        Ok(Some(wallet("kr", amount(0, 0)))),
    );
    assert_eq!(msg(&poor.unwrap_err()), "Insufficient funds");
    let lost = transaction_after_insert(None, Err(StoreFault::Database));
    assert_eq!(msg(&lost), "An error occured in the database");
}

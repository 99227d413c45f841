//! Properties of the gateway that relate several operations. Each is stated
//! over the same models that the operations' contracts use.

use vstd::prelude::*;

use crate::broadcast::event_receives;
use crate::messages::{TransactionJson, WebSocketEvent};
use crate::router::{level_names, routed_sessions, self_query, topic_names, ClientCommand};
use crate::session::{
    authenticated, default_topics, fresh_session, guest_address, is_guest_view, redeemable,
    signed_out, subscribed, subscription_level, token_live, topic_list, unsubscribed, Identity,
    SessionView, TokenView,
};
use crate::topics::{all_topics, topic_name, topic_named, WebSocketSubscriptionType};

verus! {

/// A token that was just issued and is presented inside its window is
/// redeemed; once it has been presented, no later attempt redeems it,
/// whenever it is made.
pub proof fn law_token_redeemed_once(
    m: Map<u128, TokenView>,
    t: u128,
    identity: Identity,
    issued_at: int,
    now: int,
    later: int,
)
    requires
        token_live(issued_at, now),
    ensures
        redeemable(m.insert(t, (TokenView { identity, issued_at })), t, now),
        !redeemable(m.insert(t, (TokenView { identity, issued_at })).remove(t), t, later),
{
}

/// A token presented after its window has passed is not redeemed, though
/// it was never redeemed before.
pub proof fn law_token_expires(
    m: Map<u128, TokenView>,
    t: u128,
    identity: Identity,
    issued_at: int,
    now: int,
)
    requires
        !token_live(issued_at, now),
    ensures
        !redeemable(m.insert(t, (TokenView { identity, issued_at })), t, now),
{
}

/// After a session logs in as a wallet, asking who it is looks that
/// wallet up; after it logs out, it is a guest, whatever it was before.
pub proof fn law_login_logout_identity(
    m: Map<u128, SessionView>,
    uuid: u128,
    address: Seq<char>,
    key: Seq<char>,
)
    requires
        m.contains_key(uuid),
        address != guest_address(),
    ensures
        authenticated(m, uuid, address, key)[uuid].address == address,
        !is_guest_view(authenticated(m, uuid, address, key)[uuid]),
        self_query(authenticated(m, uuid, address, key), uuid) == Some(address),
        self_query(signed_out(m, uuid), uuid) is None,
        self_query(signed_out(authenticated(m, uuid, address, key), uuid), uuid) is None,
{
}

/// The guest flow end to end: a token issued for a guest under an id that
/// was neither pending nor live is redeemed inside its window; redeeming it
/// leaves it spent and opens a guest session under the same id with the
/// default topics; and the list of valid levels that session can ask for
/// names blocks, transactions, names and the message of the day.
pub proof fn law_guest_session_end_to_end(
    tokens: Map<u128, TokenView>,
    sessions: Map<u128, SessionView>,
    t: u128,
    issued_at: int,
    now: int,
)
    requires
        !tokens.contains_key(t),
        !sessions.contains_key(t),
        token_live(issued_at, now),
    ensures
        ({
            let guest = Identity { address: guest_address(), private_key: None };
            let issued = tokens.insert(t, (TokenView { identity: guest, issued_at }));
            let opened = sessions.insert(t, fresh_session(issued[t].identity));
            &&& redeemable(issued, t, now)
            &&& !redeemable(issued.remove(t), t, now)
            &&& issued.remove(t) == tokens
            &&& opened.contains_key(t)
            &&& is_guest_view(opened[t])
            &&& opened[t].subscriptions == default_topics()
            &&& self_query(opened, t) is None
        }),
        topic_names(all_topics()).contains("blocks"@),
        topic_names(all_topics()).contains("transactions"@),
        topic_names(all_topics()).contains("names"@),
        topic_names(all_topics()).contains("motd"@),
{
    let guest = Identity { address: guest_address(), private_key: None };
    let issued = tokens.insert(t, (TokenView { identity: guest, issued_at }));
    assert(issued.remove(t) =~= tokens);
    let names = topic_names(all_topics());
    assert(names[0] == "blocks"@);
    assert(names[2] == "transactions"@);
    assert(names[4] == "names"@);
    assert(names[6] == "motd"@);
}

/// A topic a session subscribed to is in its subscription level right
/// after; a topic it unsubscribed from is not.
pub proof fn law_subscribe_then_query(m: Map<u128, SessionView>, uuid: u128, t: WebSocketSubscriptionType)
    requires
        m.contains_key(uuid),
    ensures
        subscription_level(subscribed(m, uuid, t), uuid).contains(t),
        level_names(subscribed(m, uuid, t), uuid).contains(topic_name(t)),
        !subscription_level(unsubscribed(m, uuid, t), uuid).contains(t),
        !level_names(unsubscribed(m, uuid, t), uuid).contains(topic_name(t)),
{
    let pred_in = |x: WebSocketSubscriptionType| subscribed(m, uuid, t)[uuid].subscriptions.contains(x);
    let pred_out = |x: WebSocketSubscriptionType| unsubscribed(m, uuid, t)[uuid].subscriptions.contains(x);
    let k: int = match t {
        WebSocketSubscriptionType::Blocks => 0,
        WebSocketSubscriptionType::OwnBlocks => 1,
        WebSocketSubscriptionType::Transactions => 2,
        WebSocketSubscriptionType::OwnTransactions => 3,
        WebSocketSubscriptionType::Names => 4,
        WebSocketSubscriptionType::OwnNames => 5,
        WebSocketSubscriptionType::Motd => 6,
    };
    assert(all_topics()[k] == t);
    all_topics().filter_lemma(pred_in);
    all_topics().filter_lemma(pred_out);
    let listed_in = topic_list(subscribed(m, uuid, t)[uuid]);
    let listed_out = topic_list(unsubscribed(m, uuid, t)[uuid]);
    assert(listed_in =~= all_topics().filter(pred_in));
    assert(listed_out =~= all_topics().filter(pred_out));
    assert(listed_in.contains(t));
    let j = choose|j: int| 0 <= j < listed_in.len() && listed_in[j] == t;
    assert(topic_names(listed_in)[j] == topic_name(t));
    if listed_out.contains(t) {
        let i = choose|i: int| 0 <= i < listed_out.len() && listed_out[i] == t;
        assert(pred_out(listed_out[i]));
    }
    if topic_names(listed_out).contains(topic_name(t)) {
        let i = choose|i: int|
            0 <= i < topic_names(listed_out).len() && topic_names(listed_out)[i] == topic_name(t);
        crate::topics::lemma_topic_names_distinct(listed_out[i], t);
        assert(pred_out(listed_out[i]));
    }
}

/// Subscribing to, or unsubscribing from, a name that is no topic leaves
/// every session as it was.
pub proof fn law_invalid_topic_changes_nothing(m: Map<u128, SessionView>, uuid: u128, event: String)
    requires
        topic_named(event@) is None,
    ensures
        routed_sessions(m, uuid, (ClientCommand::Subscribe { event })) == m,
        routed_sessions(m, uuid, (ClientCommand::Unsubscribe { event })) == m,
{
}

/// A transaction event reaches an authenticated session that sent it and
/// watches its own transactions, and any session that watches all
/// transactions; a session that watches neither does not get it.
pub proof fn law_transaction_delivery(s: SessionView, transaction: TransactionJson)
    ensures
        (!is_guest_view(s) && s.address == transaction.from@ && s.subscriptions.contains(
            WebSocketSubscriptionType::OwnTransactions,
        )) ==> event_receives(s, (WebSocketEvent::Transaction { transaction })),
        s.subscriptions.contains(WebSocketSubscriptionType::Transactions) ==> event_receives(
            s,
            (WebSocketEvent::Transaction { transaction }),
        ),
        (!s.subscriptions.contains(WebSocketSubscriptionType::OwnTransactions)
            && !s.subscriptions.contains(WebSocketSubscriptionType::Transactions))
            ==> !event_receives(s, (WebSocketEvent::Transaction { transaction })),
{
}

/// Removing a session twice, as the close path and the heartbeat may both
/// do, is the same as removing it once: the session is gone and nothing
/// else changed.
pub proof fn law_remove_twice(m: Map<u128, SessionView>, uuid: u128)
    ensures
        m.remove(uuid).remove(uuid) == m.remove(uuid),
        !m.remove(uuid).remove(uuid).contains_key(uuid),
{
    assert(m.remove(uuid).remove(uuid) =~= m.remove(uuid));
}

} // verus!

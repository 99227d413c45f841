//! The subscription registry: the closed set of event topics a session may
//! subscribe to, and their wire names.

use vstd::prelude::*;

use crate::text::{owned, text_eq};

verus! {

/// A category of server-pushed event that a session can subscribe to.
#[derive(Clone, Copy, Debug, PartialEq, Eq, Hash, Structural)]
pub enum WebSocketSubscriptionType {
    Blocks,
    OwnBlocks,
    Transactions,
    OwnTransactions,
    Names,
    OwnNames,
    Motd,
}

/// The wire name of a topic.
pub open spec fn topic_name(t: WebSocketSubscriptionType) -> Seq<char> {
    match t {
        WebSocketSubscriptionType::Blocks => "blocks"@,
        WebSocketSubscriptionType::OwnBlocks => "ownBlocks"@,
        WebSocketSubscriptionType::Transactions => "transactions"@,
        WebSocketSubscriptionType::OwnTransactions => "ownTransactions"@,
        WebSocketSubscriptionType::Names => "names"@,
        WebSocketSubscriptionType::OwnNames => "ownNames"@,
        WebSocketSubscriptionType::Motd => "motd"@,
    }
}

/// Every topic, in the order in which the server lists them.
pub open spec fn all_topics() -> Seq<WebSocketSubscriptionType> {
    seq![
        WebSocketSubscriptionType::Blocks,
        WebSocketSubscriptionType::OwnBlocks,
        WebSocketSubscriptionType::Transactions,
        WebSocketSubscriptionType::OwnTransactions,
        WebSocketSubscriptionType::Names,
        WebSocketSubscriptionType::OwnNames,
        WebSocketSubscriptionType::Motd,
    ]
}

/// The topic whose wire name is `s`, if any.
pub open spec fn topic_named(s: Seq<char>) -> Option<WebSocketSubscriptionType> {
    if exists|t: WebSocketSubscriptionType| topic_name(t) == s {
        Some(choose|t: WebSocketSubscriptionType| topic_name(t) == s)
    } else {
        None
    }
}

/// No two topics share a wire name.
pub proof fn lemma_topic_names_distinct(a: WebSocketSubscriptionType, b: WebSocketSubscriptionType)
    ensures
        topic_name(a) == topic_name(b) <==> a == b,
{
    reveal_strlit("blocks");
    reveal_strlit("ownBlocks");
    reveal_strlit("transactions");
    reveal_strlit("ownTransactions");
    reveal_strlit("names");
    reveal_strlit("ownNames");
    reveal_strlit("motd");
    if a != b {
        assert(topic_name(a).len() != topic_name(b).len() || topic_name(a)[0] != topic_name(b)[0]
            || topic_name(a)[3] != topic_name(b)[3]);
    }
}

/// A topic is recovered from its own wire name.
pub proof fn lemma_topic_named_inverse(t: WebSocketSubscriptionType)
    ensures
        topic_named(topic_name(t)) == Some(t),
{
    let c = choose|u: WebSocketSubscriptionType| topic_name(u) == topic_name(t);
    lemma_topic_names_distinct(c, t);
}

impl WebSocketSubscriptionType {
    /// The topic named `name`, or `None` for a name that is not a topic.
    pub fn from_name(name: &str) -> (r: Option<WebSocketSubscriptionType>)
        ensures
            r == topic_named(name@),
    {
        let candidates = [
            WebSocketSubscriptionType::Blocks,
            WebSocketSubscriptionType::OwnBlocks,
            WebSocketSubscriptionType::Transactions,
            WebSocketSubscriptionType::OwnTransactions,
            WebSocketSubscriptionType::Names,
            WebSocketSubscriptionType::OwnNames,
            WebSocketSubscriptionType::Motd,
        ];
        let mut i: usize = 0;
        while i < 7
            invariant
                0 <= i <= 7,
                candidates@ == all_topics(),
                forall|j: int| 0 <= j < i ==> topic_name(#[trigger] all_topics()[j]) != name@,
            decreases 7 - i,
        {
            let t = candidates[i];
            if text_eq(t.as_str(), name) {
                proof {
                    lemma_topic_named_inverse(t);
                }
                return Some(t);
            }
            i = i + 1;
        }
        proof {
            assert forall|t: WebSocketSubscriptionType| topic_name(t) != name@ by {
                match t {
                    WebSocketSubscriptionType::Blocks => assert(all_topics()[0] == t),
                    WebSocketSubscriptionType::OwnBlocks => assert(all_topics()[1] == t),
                    WebSocketSubscriptionType::Transactions => assert(all_topics()[2] == t),
                    WebSocketSubscriptionType::OwnTransactions => assert(all_topics()[3] == t),
                    WebSocketSubscriptionType::Names => assert(all_topics()[4] == t),
                    WebSocketSubscriptionType::OwnNames => assert(all_topics()[5] == t),
                    WebSocketSubscriptionType::Motd => assert(all_topics()[6] == t),
                }
            }
        }
        None
    }

    /// Whether `name` is the wire name of some topic.
    pub fn is_valid(name: &str) -> (r: bool)
        ensures
            r == (topic_named(name@) is Some),
    {
        WebSocketSubscriptionType::from_name(name).is_some()
    }

    /// The wire name of this topic.
    pub fn as_str(&self) -> (r: &'static str)
        ensures
            r@ == topic_name(*self),
    {
        match self {
            WebSocketSubscriptionType::Blocks => "blocks",
            WebSocketSubscriptionType::OwnBlocks => "ownBlocks",
            WebSocketSubscriptionType::Transactions => "transactions",
            WebSocketSubscriptionType::OwnTransactions => "ownTransactions",
            WebSocketSubscriptionType::Names => "names",
            WebSocketSubscriptionType::OwnNames => "ownNames",
            WebSocketSubscriptionType::Motd => "motd",
        }
    }

    /// The wire name of this topic, owned.
    pub fn into_string(self) -> (r: String)
        ensures
            r@ == topic_name(self),
    {
        owned(self.as_str())
    }
}

/// Every topic, in the order in which the server lists them.
pub fn valid_subscription_types() -> (r: Vec<WebSocketSubscriptionType>)
    ensures
        r@ == all_topics(),
{
    vec![
        WebSocketSubscriptionType::Blocks,
        WebSocketSubscriptionType::OwnBlocks,
        WebSocketSubscriptionType::Transactions,
        WebSocketSubscriptionType::OwnTransactions,
        WebSocketSubscriptionType::Names,
        WebSocketSubscriptionType::OwnNames,
        WebSocketSubscriptionType::Motd,
    ]
}

} // verus!

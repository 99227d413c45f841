//! The event broadcaster: which live sessions a ledger event is delivered
//! to. The event is serialised once by the transport and sent to each
//! target on its own, so one broken connection holds up no other.

use vstd::prelude::*;

use crate::collections::{topic_entries, topic_set_contains};
use crate::messages::{WebSocketEvent, WebSocketMessage, WebSocketMessageInner};
use crate::session::{is_guest_view, SessionView, WebSocketServer, WebSocketSessionData};
use crate::text::text_eq;
use crate::topics::WebSocketSubscriptionType;

verus! {

/// A session that owns an event receives it on the `own` topic; any
/// session receives it on the general topic.
pub open spec fn receives_on(s: SessionView, owns: bool, own: WebSocketSubscriptionType, general: WebSocketSubscriptionType) -> bool {
    (!is_guest_view(s) && owns && s.subscriptions.contains(own)) || s.subscriptions.contains(general)
}

/// Whether the session `s` is to be sent the event `e`.
pub open spec fn event_receives(s: SessionView, e: WebSocketEvent) -> bool {
    match e {
        WebSocketEvent::Transaction { transaction } => receives_on(
            s,
            s.address == transaction.to@ || s.address == transaction.from@,
            WebSocketSubscriptionType::OwnTransactions,
            WebSocketSubscriptionType::Transactions,
        ),
        WebSocketEvent::Name { name } => receives_on(
            s,
            s.address == name.owner@,
            WebSocketSubscriptionType::OwnNames,
            WebSocketSubscriptionType::Names,
        ),
        WebSocketEvent::Block { block } => receives_on(
            s,
            s.address == block.address@,
            WebSocketSubscriptionType::OwnBlocks,
            WebSocketSubscriptionType::Blocks,
        ),
    }
}

/// Whether the session holding `data` is to be sent `event`.
pub fn session_receives(data: &WebSocketSessionData, event: &WebSocketEvent) -> (r: bool)
    ensures
        r == event_receives(data@, *event),
{
    let guest = data.is_guest();
    let address = data.address.as_str();
    let (owns, own, general) = match event {
        WebSocketEvent::Transaction { transaction } => (
            text_eq(address, transaction.to.as_str()) || text_eq(address, transaction.from.as_str()),
            WebSocketSubscriptionType::OwnTransactions,
            WebSocketSubscriptionType::Transactions,
        ),
        WebSocketEvent::Name { name } => (
            text_eq(address, name.owner.as_str()),
            WebSocketSubscriptionType::OwnNames,
            WebSocketSubscriptionType::Names,
        ),
        WebSocketEvent::Block { block } => (
            text_eq(address, block.address.as_str()),
            WebSocketSubscriptionType::OwnBlocks,
            WebSocketSubscriptionType::Blocks,
        ),
    };
    (!guest && owns && topic_set_contains(&data.subscriptions, own)) || topic_set_contains(
        &data.subscriptions,
        general,
    )
}

/// The frame that carries `event` to its targets.
pub fn event_frame(event: WebSocketEvent) -> (r: WebSocketMessage)
    ensures
        r.ok == Some(true),
        r.id is None,
        r.body == (WebSocketMessageInner::Event { event }),
{
    WebSocketMessage { ok: Some(true), id: None, body: WebSocketMessageInner::Event { event } }
}

/// The ids of the sessions of `m` that are to be sent `e`.
pub open spec fn targets(m: Map<u128, SessionView>, e: WebSocketEvent) -> Set<u128> {
    Set::new(|id: u128| m.contains_key(id) && event_receives(m[id], e))
}

impl WebSocketServer {
    /// The live sessions that `event` is delivered to, each once.
    pub fn broadcast_targets(&mut self, event: &WebSocketEvent) -> (r: Vec<u128>)
        ensures
            final(self).issued() == old(self).issued(),
            final(self).sessions() == old(self).sessions(),
            final(self).tokens() == old(self).tokens(),
            r@.no_duplicates(),
            r@.to_set() == targets(old(self).sessions(), *event),
    {
        let ghost m = self.sessions();
        let ghost t = targets(m, *event);
        let ids = self.session_ids();
        let mut r: Vec<u128> = Vec::new();
        let mut i: usize = 0;
        while i < ids.len()
            invariant
                0 <= i <= ids@.len(),
                ids@.no_duplicates(),
                ids@.to_set() == m.dom(),
                self.sessions() == m,
                m == old(self).sessions(),
                t == targets(m, *event),
                self.tokens() == old(self).tokens(),
                self.issued() == old(self).issued(),
                r@.no_duplicates(),
                forall|x: u128|
                    #[trigger] r@.contains(x) <==> (ids@.take(i as int).contains(x) && t.contains(x)),
            decreases ids@.len() - i,
        {
            let id = ids[i];
            let ghost cur = ids@.take(i as int);
            proof {
                assert(ids@.to_set().contains(id));
                assert(!cur.contains(id)) by {
                    if cur.contains(id) {
                        let j = choose|j: int| 0 <= j < cur.len() && #[trigger] cur[j] == id;
                        assert(ids@[j] == ids@[i as int]);
                    }
                }
            }
            let wanted = self.session_wants(id, event);
            let ghost prev = r@;
            if wanted {
                r.push(id);
            }
            proof {
                let next = ids@.take(i + 1);
                assert(next =~= cur.push(id));
                assert(wanted == t.contains(id));
                assert forall|x: u128|
                    #[trigger] r@.contains(x) <==> (next.contains(x) && t.contains(x)) by {
                    assert(prev.contains(x) <==> (cur.contains(x) && t.contains(x)));
                    if wanted {
                        assert(r@ == prev.push(id));
                        if r@.contains(x) && x != id {
                            let j = choose|j: int| 0 <= j < r@.len() && #[trigger] r@[j] == x;
                            assert(prev[j] == x);
                        }
                        if prev.contains(x) {
                            let j = choose|j: int| 0 <= j < prev.len() && #[trigger] prev[j] == x;
                            assert(r@[j] == x);
                        }
                        assert(r@[prev.len() as int] == id);
                    }
                    if next.contains(x) && x != id {
                        let j = choose|j: int| 0 <= j < next.len() && #[trigger] next[j] == x;
                        assert(cur[j] == x);
                    }
                    if cur.contains(x) {
                        let j = choose|j: int| 0 <= j < cur.len() && #[trigger] cur[j] == x;
                        assert(next[j] == x);
                    }
                    assert(next[i as int] == id);
                }
                if wanted {
                    assert(r@ == prev.push(id));
                    assert(!prev.contains(id));
                    assert forall|a: int, b: int| 0 <= a < b < r@.len() implies r@[a] != r@[b] by {
                        if b == prev.len() {
                            assert(prev[a] == r@[a]);
                        } else {
                            assert(prev[a] == r@[a] && prev[b] == r@[b]);
                        }
                    }
                }
            }
            i = i + 1;
        }
        proof {
            assert(ids@.take(ids@.len() as int) =~= ids@);
            assert forall|x: u128| r@.to_set().contains(x) <==> t.contains(x) by {
                assert(r@.contains(x) <==> (ids@.contains(x) && t.contains(x)));
                assert(ids@.to_set().contains(x) <==> ids@.contains(x));
            }
            assert(r@.to_set() =~= t);
        }
        r
    }
}

} // verus!

//! Several messages to one peer share one connection.
//!
//! Each message waits for its turn with the peer, which it has from the moment it is told whether
//! the peer is connected until it may be overtaken or has ended. Of what happens to the messages in
//! whatever order that allows, only the first makes a connection.
use crate::error::ErrorView;
use crate::outgoing;
use crate::outgoing::{OutgoingActionView, OutgoingEventView, OutgoingPhase, OutgoingView};
use vstd::prelude::*;

verus! {

/// Several messages on their way to one peer.
#[verifier::ext_equal]
pub struct Messages {
    /// The messages.
    pub sends: Seq<OutgoingView>,
    /// The message that has its turn.
    pub turn: Option<int>,
    /// The connections by the URLs of their peers, each with the message that made it.
    pub connections: Map<Seq<char>, int>,
    /// How many connections were asked for.
    pub connects: nat,
    /// How many times the handler was asked for the preflight.
    pub requests: nat,
    /// How many preflights were handed out for sending.
    pub preflights: nat,
}

/// Whether something can happen to one of the messages: it gets its turn when no other has it, and
/// is told whether the peer is connected.
pub open spec fn can_happen(m: Messages, who: int, event: OutgoingEventView) -> bool {
    &&& 0 <= who < m.sends.len()
    &&& outgoing::outgoing_expects(m.sends[who], event)
    &&& match event {
        OutgoingEventView::Locked(connected) => m.turn is None && connected
            == m.connections.contains_key(m.sends[who].remote_url),
        _ => true,
    }
}

/// What something that happens to one of the messages makes of them all, and what is to be done.
/// The turn ends when the message may be overtaken or has ended. A message whose connection was
/// registered has put it into the map.
pub open spec fn happens(m: Messages, who: int, event: OutgoingEventView) -> (
    Messages,
    OutgoingActionView,
) {
    let (next, action) = outgoing::outgoing_step(m.sends[who], event);
    let turn = if event is Locked {
        Some(who)
    } else {
        m.turn
    };
    let over = match action {
        OutgoingActionView::SendData(_, early) => early,
        OutgoingActionView::Finish(_) => true,
        _ => false,
    };
    (
        Messages {
            sends: m.sends.update(who, next),
            turn: if over && turn == Some(who) {
                None
            } else {
                turn
            },
            connections: if event is Registered {
                m.connections.insert(m.sends[who].remote_url, who)
            } else {
                m.connections
            },
            connects: m.connects + if action is Connect {
                1nat
            } else {
                0
            },
            requests: m.requests + if action is RequestPreflight {
                1nat
            } else {
                0
            },
            preflights: m.preflights + if action is SendPreflight {
                1nat
            } else {
                0
            },
        },
        action,
    )
}

/// Whether an event is none of failure.
pub open spec fn goes_well(event: OutgoingEventView) -> bool {
    match event {
        OutgoingEventView::Locked(_) | OutgoingEventView::Registered => true,
        OutgoingEventView::Connected(_, local) => local is Some,
        OutgoingEventView::ConnectFailed(_) => false,
        OutgoingEventView::PreflightMade(r) => r is Ok,
        OutgoingEventView::PreflightSent(r) => r is Ok,
        OutgoingEventView::DataSent(r) => r is Ok,
    }
}

/// Messages to a peer that is not connected, none of which had its turn yet.
pub open spec fn all_waiting(m: Messages, peer: Seq<char>) -> bool {
    &&& forall|k: int|
        0 <= k < m.sends.len() ==> {
            let s = #[trigger] m.sends[k];
            s.remote_url == peer && s.phase is Waiting && s.data is Some
        }
    &&& m.turn is None
    &&& !m.connections.contains_key(peer)
    &&& m.connects == 0 && m.requests == 0 && m.preflights == 0
}

/// Whether a message makes a connection.
pub open spec fn connecting(s: OutgoingView) -> bool {
    s.phase is Connecting || s.phase is PreflightRequested || s.phase is PreflightSending
        || s.phase is Registering
}

/// Whether a message was handed out for sending.
pub open spec fn handed_out(s: OutgoingView) -> bool {
    s.phase is DataSending || s.phase is Done
}

/// What holds of the messages at all times, as long as all goes well.
pub open spec fn in_turn(m: Messages, peer: Seq<char>) -> bool {
    let connected = m.connections.contains_key(peer);
    &&& forall|k: int|
        0 <= k < m.sends.len() ==> {
            let s = #[trigger] m.sends[k];
            &&& s.remote_url == peer
            &&& !handed_out(s) ==> s.data is Some
            &&& connecting(s) ==> m.turn == Some(k) && !connected
            &&& handed_out(s) ==> connected
        }
    &&& match m.turn {
        None => if connected {
            m.connects == 1 && m.requests == 1 && m.preflights == 1
        } else {
            m.connects == 0 && m.requests == 0 && m.preflights == 0
        },
        Some(k) => {
            &&& 0 <= k < m.sends.len()
            &&& connecting(m.sends[k]) || m.sends[k].phase is DataSending
            &&& m.connects == 1
            &&& m.requests == if m.sends[k].phase is Connecting {
                0nat
            } else {
                1
            }
            &&& m.preflights == if m.sends[k].phase is Connecting
                || m.sends[k].phase is PreflightRequested {
                0nat
            } else {
                1
            }
        },
    }
}

/// Messages that wait are in order.
pub proof fn waiting_messages_are_in_turn(m: Messages, peer: Seq<char>)
    requires
        all_waiting(m, peer),
    ensures
        in_turn(m, peer),
{
}

/// Whatever happens to whichever message, as long as it goes well, the messages stay in order. A
/// message whose turn it is connects only if none did before; otherwise it is sent at once. Every
/// message that is handed out for sending goes over the connection whose preflight was sent, and
/// every message that ends was sent.
pub proof fn turns_are_kept(m: Messages, peer: Seq<char>, who: int, event: OutgoingEventView)
    requires
        in_turn(m, peer),
        can_happen(m, who, event),
        goes_well(event),
    ensures
        ({
            let (next, action) = happens(m, who, event);
            &&& in_turn(next, peer)
            &&& event is Locked ==> if m.connects == 0 {
                action is Connect
            } else {
                action == OutgoingActionView::SendData(m.sends[who].data->0, true)
            }
            &&& action is Connect ==> event is Locked && m.connects == 0
            &&& action is RequestPreflight ==> m.requests == 0
            &&& action is SendPreflight ==> m.preflights == 0
            &&& action is SendData ==> {
                &&& m.connects == 1 && m.requests == 1 && m.preflights == 1
                &&& next.connections.contains_key(peer)
            }
            &&& action is Finish ==> action->Finish_0 is Ok
        }),
{
    let (next, action) = happens(m, who, event);
    let s = m.sends[who];
    assert forall|k: int| 0 <= k < next.sends.len() implies ({
        let s = #[trigger] next.sends[k];
        &&& s.remote_url == peer
        &&& !handed_out(s) ==> s.data is Some
        &&& connecting(s) ==> next.turn == Some(k) && !next.connections.contains_key(peer)
        &&& handed_out(s) ==> next.connections.contains_key(peer)
    }) by {
        let before = m.sends[k];
        assert(before.remote_url == peer);
    }
}

/// One thing that happens to one of several messages.
pub struct Happening {
    /// The message.
    pub who: int,
    /// What happens to it.
    pub event: OutgoingEventView,
}

/// The messages after several things happened to them.
pub open spec fn after_all(m: Messages, all: Seq<Happening>) -> Messages
    decreases all.len(),
{
    if all.len() == 0 {
        m
    } else {
        happens(after_all(m, all.drop_last()), all.last().who, all.last().event).0
    }
}

/// What was to be done after one of the things that happened.
pub open spec fn action_after(m: Messages, all: Seq<Happening>, i: int) -> OutgoingActionView {
    happens(after_all(m, all.take(i)), all[i].who, all[i].event).1
}

/// Whether each of several things could happen when it did, and went well.
pub open spec fn all_well(m: Messages, all: Seq<Happening>) -> bool {
    forall|i: int|
        0 <= i < all.len() ==> {
            &&& can_happen(after_all(m, #[trigger] all.take(i)), all[i].who, all[i].event)
            &&& goes_well(all[i].event)
        }
}

/// The messages stay in order.
proof fn stay_in_turn(m: Messages, peer: Seq<char>, all: Seq<Happening>, i: int)
    requires
        all_waiting(m, peer),
        all_well(m, all),
        0 <= i <= all.len(),
    ensures
        in_turn(after_all(m, all.take(i)), peer),
    decreases i,
{
    if i == 0 {
        assert(all.take(0).len() == 0);
        waiting_messages_are_in_turn(m, peer);
    } else {
        stay_in_turn(m, peer, all, i - 1);
        let upto = all.take(i);
        assert(upto.drop_last() =~= all.take(i - 1));
        assert(upto.last() == all[i - 1]);
        let before = after_all(m, all.take(i - 1));
        assert(can_happen(before, all[i - 1].who, all[i - 1].event));
        turns_are_kept(before, peer, all[i - 1].who, all[i - 1].event);
    }
}

/// Several messages to one peer that is not connected, sent at the same time, make one connection:
/// it is asked for once, and so is the preflight, in whatever order things happen to the messages.
/// When a message is handed out for sending, that connection is registered, and its preflight was
/// handed out once. Every message that ends was sent.
pub proof fn one_connection_for_all_messages(
    m: Messages,
    peer: Seq<char>,
    all: Seq<Happening>,
    i: int,
)
    requires
        all_waiting(m, peer),
        all_well(m, all),
        0 <= i < all.len(),
    ensures
        ({
            let after = after_all(m, all);
            let before = after_all(m, all.take(i));
            let action = action_after(m, all, i);
            &&& after.connects <= 1 && after.requests <= 1 && after.preflights <= 1
            &&& (exists|k: int|
                0 <= k < after.sends.len() && handed_out(#[trigger] after.sends[k])) ==> {
                &&& after.connections.contains_key(peer)
                &&& after.connects == 1 && after.requests == 1 && after.preflights == 1
            }
            &&& action is SendData ==> {
                &&& before.connects == 1 && before.requests == 1 && before.preflights == 1
                &&& before.connections.contains_key(peer) || all[i].event is Registered
            }
            &&& action is Finish ==> action->Finish_0 is Ok
        }),
{
    stay_in_turn(m, peer, all, all.len() as int);
    assert(all.take(all.len() as int) =~= all);
    stay_in_turn(m, peer, all, i);
    let before = after_all(m, all.take(i));
    assert(can_happen(before, all[i].who, all[i].event));
    turns_are_kept(before, peer, all[i].who, all[i].event);
}

/// The first message that gets its turn makes the connection, and each of the others is sent at
/// once when it gets its turn.
pub proof fn only_the_first_message_connects(
    m: Messages,
    peer: Seq<char>,
    all: Seq<Happening>,
    i: int,
    j: int,
)
    requires
        all_waiting(m, peer),
        all_well(m, all),
        0 <= i < j < all.len(),
        all[i].event is Locked,
        all[j].event is Locked,
    ensures
        action_after(m, all, j) matches OutgoingActionView::SendData(data, true) && Some(data)
            == after_all(m, all.take(j)).sends[all[j].who].data,
        (forall|h: int| 0 <= h < i ==> !((#[trigger] all[h]).event is Locked)) ==> action_after(
            m,
            all,
            i,
        ) is Connect,
{
    stay_in_turn(m, peer, all, i);
    stay_in_turn(m, peer, all, j);
    let early = after_all(m, all.take(i));
    let late = after_all(m, all.take(j));
    assert(can_happen(early, all[i].who, all[i].event));
    assert(can_happen(late, all[j].who, all[j].event));
    turns_are_kept(early, peer, all[i].who, all[i].event);
    turns_are_kept(late, peer, all[j].who, all[j].event);
    connects_only_grow(m, all, i, j);
    if forall|h: int| 0 <= h < i ==> !((#[trigger] all[h]).event is Locked) {
        nothing_before_the_first_turn(m, peer, all, i);
    }
}

/// How many connections were asked for never falls.
proof fn connects_only_grow(m: Messages, all: Seq<Happening>, i: int, j: int)
    requires
        0 <= i < j <= all.len(),
    ensures
        after_all(m, all.take(j)).connects >= after_all(m, all.take(i + 1)).connects,
        after_all(m, all.take(i + 1)) == happens(
            after_all(m, all.take(i)),
            all[i].who,
            all[i].event,
        ).0,
    decreases j - i,
{
    let upto = all.take(i + 1);
    assert(upto.drop_last() =~= all.take(i));
    assert(upto.last() == all[i]);
    if i + 1 < j {
        connects_only_grow(m, all, i + 1, j);
    }
}

/// The first thing that happens to messages that wait is that one of them gets its turn.
proof fn nothing_before_the_first_turn(
    m: Messages,
    peer: Seq<char>,
    all: Seq<Happening>,
    i: int,
)
    requires
        all_waiting(m, peer),
        all_well(m, all),
        0 <= i < all.len(),
        forall|h: int| 0 <= h < i ==> !((#[trigger] all[h]).event is Locked),
    ensures
        i == 0,
        all.take(0).len() == 0,
{
    if i > 0 {
        assert(all.take(0).len() == 0);
        assert(can_happen(after_all(m, all.take(0)), all[0].who, all[0].event));
        assert(m.sends[all[0].who].phase is Waiting);
        assert(!(all[0].event is Locked));
    }
}

/// As long as a message has not ended, something can happen that goes well: no message waits for a
/// turn that never comes.
pub proof fn messages_can_go_on(m: Messages, peer: Seq<char>, k: int)
    requires
        in_turn(m, peer),
        0 <= k < m.sends.len(),
        !(m.sends[k].phase is Done),
    ensures
        exists|who: int, event: OutgoingEventView| #[trigger]
            can_happen(m, who, event) && goes_well(event),
{
    let who = match m.turn {
        Some(holder) => holder,
        None => k,
    };
    let s = m.sends[who];
    assert(s.remote_url == peer);
    let event = match s.phase {
        OutgoingPhase::Waiting => OutgoingEventView::Locked(m.connections.contains_key(peer)),
        OutgoingPhase::Connecting => OutgoingEventView::Connected(None, Some(Seq::empty())),
        OutgoingPhase::PreflightRequested(..) => OutgoingEventView::PreflightMade(
            Ok::<Seq<u8>, ErrorView>(Seq::empty()),
        ),
        OutgoingPhase::PreflightSending => OutgoingEventView::PreflightSent(
            Ok::<(), ErrorView>(()),
        ),
        OutgoingPhase::Registering => OutgoingEventView::Registered,
        _ => OutgoingEventView::DataSent(Ok::<(), ErrorView>(())),
    };
    assert(can_happen(m, who, event) && goes_well(event));
}

} // verus!

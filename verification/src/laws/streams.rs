//! How an incoming stream is handled, whatever happens on it.
use crate::connection_context::{ContextView, ParamsView};
use crate::error::ErrorView;
use crate::frame::FRAME_HEADER_LEN;
use crate::frame_send::{FrameSendView, SendEvent};
use crate::incoming::{StreamActionView, StreamEventView, StreamPhase};
use crate::{connection_context, frame_send, incoming};
use vstd::prelude::*;

verus! {

/// The exchange of preflights with a peer is complete.
pub open spec fn exchanged(c: ContextView) -> bool {
    c.remote_url is Some && c.preflight_received && c.preflight_sent
}

/// What holds of a connection between two streams: once the preflight of the peer was accepted,
/// the exchange is complete.
pub open spec fn between_streams(c: ContextView) -> bool {
    c.preflight_received ==> exchanged(c)
}

/// What holds of a connection while a stream is handled.
pub open spec fn during_stream(phase: StreamPhase<Seq<char>>, c: ContextView) -> bool {
    match phase {
        StreamPhase::PreflightHeader | StreamPhase::PreflightPayload(_) => !c.preflight_received,
        StreamPhase::PreflightDelivered(peer) => !c.preflight_received && c.remote_url == Some(
            peer,
        ),
        StreamPhase::PreflightRequested(peer, _) | StreamPhase::PreflightAnswered(peer) => {
            &&& c.preflight_received
            &&& !c.preflight_sent
            &&& c.remote_url == Some(peer)
        },
        StreamPhase::Registering
        | StreamPhase::DataHeader
        | StreamPhase::DataPayload(_)
        | StreamPhase::DataDelivered(_) => exchanged(c),
        StreamPhase::Closed => true,
    }
}

/// A connection that was just opened, by either side, is fit for its first stream.
pub proof fn opened_connection_is_between_streams(params: ParamsView)
    ensures
        between_streams(connection_context::opened(params)),
        !connection_context::opened(params).preflight_received,
{
}

/// A stream starts in a phase that fits the connection.
pub proof fn stream_starts_in_order(c: ContextView)
    requires
        between_streams(c),
    ensures
        during_stream(incoming::stream_start(c), c),
{
}

/// Whatever happens on a stream, the phase goes on to fit the connection. A stream that ends
/// without an error leaves the connection fit for the next one.
pub proof fn stream_keeps_order(
    phase: StreamPhase<Seq<char>>,
    c: ContextView,
    event: StreamEventView,
)
    requires
        incoming::stream_expects(phase, event),
        during_stream(phase, c),
    ensures
        ({
            let (next, after, action) = incoming::stream_step(phase, c, event);
            &&& during_stream(next, after)
            &&& action == StreamActionView::Finish(Ok(())) ==> between_streams(after)
            &&& next is Closed <==> action is Finish
        }),
{
}

/// A connection is registered under the URL of its peer, and only when the exchange of preflights
/// is complete.
pub proof fn registered_after_exchange(
    phase: StreamPhase<Seq<char>>,
    c: ContextView,
    event: StreamEventView,
)
    requires
        incoming::stream_expects(phase, event),
        during_stream(phase, c),
    ensures
        ({
            let (next, after, action) = incoming::stream_step(phase, c, event);
            action matches StreamActionView::Register(peer) ==> exchanged(after) && after.remote_url
                == Some(peer)
        }),
{
}

/// Data is handed to the handler only when the exchange of preflights is complete, as data of the
/// peer, and byte for byte as it was read.
pub proof fn data_only_after_exchange(
    phase: StreamPhase<Seq<char>>,
    c: ContextView,
    event: StreamEventView,
)
    requires
        incoming::stream_expects(phase, event),
        during_stream(phase, c),
    ensures
        ({
            let (next, after, action) = incoming::stream_step(phase, c, event);
            action matches StreamActionView::DeliverData(peer, data) ==> {
                &&& exchanged(c)
                &&& c.remote_url == Some(peer)
                &&& event == StreamEventView::Read(Ok(data))
            }
        }),
{
}

/// Only what goes wrong while the preflights are exchanged is fatal to the connection, and
/// everything that goes wrong then is.
pub proof fn only_preflight_errors_are_fatal(
    phase: StreamPhase<Seq<char>>,
    c: ContextView,
    event: StreamEventView,
)
    requires
        incoming::stream_expects(phase, event),
        during_stream(phase, c),
    ensures
        ({
            let (next, after, action) = incoming::stream_step(phase, c, event);
            action matches StreamActionView::Finish(r) ==> (r is Err <==> incoming::in_preflight(
                phase,
            ))
        }),
{
}

/// No read asks for more than a header or the payload of a frame of the configured size.
pub proof fn reads_are_bounded(
    phase: StreamPhase<Seq<char>>,
    c: ContextView,
    event: StreamEventView,
)
    requires
        incoming::stream_expects(phase, event),
    ensures
        ({
            let (next, after, action) = incoming::stream_step(phase, c, event);
            action matches StreamActionView::Read(n) ==> {
                &&& incoming::wanted(next) == Some(n as nat)
                &&& n == FRAME_HEADER_LEN || n + FRAME_HEADER_LEN <= c.max_frame_bytes
            }
        }),
{
}

/// Handling a stream takes back nothing: preflights stay exchanged, a peer stays known, and nothing
/// else of the connection changes but the URL of the peer, which its preflight names, and what was
/// received.
pub proof fn stream_takes_nothing_back(
    phase: StreamPhase<Seq<char>>,
    c: ContextView,
    event: StreamEventView,
)
    requires
        incoming::stream_expects(phase, event),
    ensures
        ({
            let (next, after, action) = incoming::stream_step(phase, c, event);
            &&& c.preflight_sent ==> after.preflight_sent
            &&& c.preflight_received ==> after.preflight_received
            &&& c.remote_url is Some ==> after.remote_url is Some
            &&& after.remote_url != c.remote_url ==> phase is PreflightPayload
            &&& after == (ContextView {
                remote_url: after.remote_url,
                preflight_sent: after.preflight_sent,
                preflight_received: after.preflight_received,
                recv_message_count: after.recv_message_count,
                recv_bytes: after.recv_bytes,
                ..c
            })
            &&& match (phase, event) {
                (StreamPhase::DataDelivered(len), StreamEventView::DataHandled(_)) => after
                    == c.counting_received(len as u64),
                _ => after.recv_message_count == c.recv_message_count && after.recv_bytes
                    == c.recv_bytes,
            }
        }),
{
}

/// It makes no difference to a stream what the handler thinks of data.
pub proof fn data_verdict_is_ignored(
    len: usize,
    c: ContextView,
    one: Result<(), ErrorView>,
    other: Result<(), ErrorView>,
)
    ensures
        incoming::stream_step(
            StreamPhase::DataDelivered(len),
            c,
            StreamEventView::DataHandled(one),
        ) == incoming::stream_step(
            StreamPhase::DataDelivered(len),
            c,
            StreamEventView::DataHandled(other),
        ),
{
}

/// Frames that are sent meanwhile do not disturb the handling of a stream.
pub proof fn sending_does_not_disturb(
    phase: StreamPhase<Seq<char>>,
    c: ContextView,
    s: FrameSendView,
    event: SendEvent<Seq<char>>,
)
    requires
        frame_send::send_expects(s.phase, event),
    ensures
        ({
            let (next, after, action) = frame_send::send_step(s, c, event);
            &&& during_stream(phase, c) ==> during_stream(phase, after)
            &&& between_streams(c) ==> between_streams(after)
            &&& incoming::stream_start(after) == incoming::stream_start(c)
            &&& after.remote_url == c.remote_url
        }),
{
}

/// The phase and the connection after events on a stream that is handled from its start.
pub open spec fn after_events(c: ContextView, events: Seq<StreamEventView>) -> (
    StreamPhase<Seq<char>>,
    ContextView,
)
    decreases events.len(),
{
    if events.len() == 0 {
        (incoming::stream_start(c), c)
    } else {
        let (phase, before) = after_events(c, events.drop_last());
        let (next, after, _) = incoming::stream_step(phase, before, events.last());
        (next, after)
    }
}

/// What was to be done after each of the events.
pub open spec fn actions(c: ContextView, events: Seq<StreamEventView>) -> Seq<StreamActionView> {
    Seq::new(
        events.len(),
        |i: int|
            {
                let (phase, before) = after_events(c, events.take(i));
                incoming::stream_step(phase, before, events[i]).2
            },
    )
}

/// Whether each of the events could happen when it did.
pub open spec fn possible(c: ContextView, events: Seq<StreamEventView>) -> bool {
    forall|i: int|
        0 <= i < events.len() ==> incoming::stream_expects(
            after_events(c, #[trigger] events.take(i)).0,
            events[i],
        )
}

/// The state before an event, and the step that it makes.
pub proof fn event_steps(c: ContextView, events: Seq<StreamEventView>, i: int)
    requires
        possible(c, events),
        0 <= i < events.len(),
    ensures
        ({
            let (phase, before) = after_events(c, events.take(i));
            let (next, after, action) = incoming::stream_step(phase, before, events[i]);
            &&& incoming::stream_expects(phase, events[i])
            &&& after_events(c, events.take(i + 1)) == (next, after)
            &&& actions(c, events)[i] == action
        }),
{
    let upto = events.take(i + 1);
    assert(upto.drop_last() =~= events.take(i));
    assert(upto.last() == events[i]);
    assert(incoming::stream_expects(after_events(c, events.take(i)).0, events[i]));
}

/// Whatever happens on a stream, the phase fits the connection at all times.
pub proof fn whole_stream_keeps_order(c: ContextView, events: Seq<StreamEventView>, i: int)
    requires
        between_streams(c),
        possible(c, events),
        0 <= i <= events.len(),
    ensures
        ({
            let (phase, now) = after_events(c, events.take(i));
            during_stream(phase, now)
        }),
    decreases i,
{
    if i > 0 {
        whole_stream_keeps_order(c, events, i - 1);
        event_steps(c, events, i - 1);
        let (phase, before) = after_events(c, events.take(i - 1));
        stream_keeps_order(phase, before, events[i - 1]);
    } else {
        assert(events.take(0).len() == 0);
    }
}

/// On the first stream of a connection, the connection is registered before the handler is handed
/// any data, whatever happens.
pub proof fn registered_before_data(c: ContextView, events: Seq<StreamEventView>, j: int)
    requires
        !c.preflight_received,
        possible(c, events),
        0 <= j < events.len(),
        actions(c, events)[j] is DeliverData,
    ensures
        exists|i: int| 0 <= i < j && (#[trigger] actions(c, events)[i]) is Register,
{
    event_steps(c, events, j);
    reading_data_is_registered(c, events, j);
}

/// Once the first stream is read for data, the connection was registered.
proof fn reading_data_is_registered(c: ContextView, events: Seq<StreamEventView>, j: int)
    requires
        !c.preflight_received,
        possible(c, events),
        0 <= j <= events.len(),
    ensures
        match after_events(c, events.take(j)).0 {
            StreamPhase::Registering
            | StreamPhase::DataHeader
            | StreamPhase::DataPayload(_)
            | StreamPhase::DataDelivered(_) => exists|i: int|
                0 <= i < j && (#[trigger] actions(c, events)[i]) is Register,
            _ => true,
        },
    decreases j,
{
    if j > 0 {
        reading_data_is_registered(c, events, j - 1);
        event_steps(c, events, j - 1);
        let phase = after_events(c, events.take(j - 1)).0;
        let next = after_events(c, events.take(j)).0;
        if next is Registering {
            assert(actions(c, events)[j - 1] is Register);
        }
    } else {
        assert(events.take(0).len() == 0);
    }
}

/// Whether two runs of events differ in nothing but what the handler thinks of data.
pub open spec fn same_but_for_verdicts(
    one: Seq<StreamEventView>,
    other: Seq<StreamEventView>,
) -> bool {
    &&& one.len() == other.len()
    &&& forall|i: int|
        0 <= i < one.len() ==> (#[trigger] one[i]) == other[i] || (one[i] is DataHandled
            && other[i] is DataHandled)
}

/// Whatever the handler thinks of each piece of data, the same is done on a stream, and the
/// connection comes out the same.
pub proof fn verdicts_on_data_change_nothing(
    c: ContextView,
    one: Seq<StreamEventView>,
    other: Seq<StreamEventView>,
)
    requires
        same_but_for_verdicts(one, other),
    ensures
        after_events(c, one) == after_events(c, other),
        actions(c, one) == actions(c, other),
        possible(c, one) <==> possible(c, other),
{
    assert forall|i: int| 0 <= i <= one.len() implies #[trigger] after_events(c, one.take(i))
        == after_events(c, other.take(i)) by {
        verdicts_up_to(c, one, other, i);
    }
    assert(one.take(one.len() as int) =~= one);
    assert(other.take(one.len() as int) =~= other);
    assert forall|i: int| 0 <= i < one.len() implies actions(c, one)[i] == actions(c, other)[i] by {
        assert(after_events(c, one.take(i)) == after_events(c, other.take(i)));
        assert(one[i] == other[i] || (one[i] is DataHandled && other[i] is DataHandled));
    }
    assert(actions(c, one) =~= actions(c, other));
    assert forall|i: int| 0 <= i < one.len() implies incoming::stream_expects(
        after_events(c, #[trigger] one.take(i)).0,
        one[i],
    ) == incoming::stream_expects(after_events(c, other.take(i)).0, other[i]) by {
        assert(after_events(c, one.take(i)) == after_events(c, other.take(i)));
        assert(one[i] == other[i] || (one[i] is DataHandled && other[i] is DataHandled));
    }
    if possible(c, one) {
        assert forall|i: int| 0 <= i < other.len() implies incoming::stream_expects(
            after_events(c, #[trigger] other.take(i)).0,
            other[i],
        ) by {
            assert(incoming::stream_expects(after_events(c, one.take(i)).0, one[i]));
        }
    }
    if possible(c, other) {
        assert forall|i: int| 0 <= i < one.len() implies incoming::stream_expects(
            after_events(c, #[trigger] one.take(i)).0,
            one[i],
        ) by {
            assert(incoming::stream_expects(after_events(c, other.take(i)).0, other[i]));
        }
    }
}

/// Up to each event, the connection comes out the same.
proof fn verdicts_up_to(
    c: ContextView,
    one: Seq<StreamEventView>,
    other: Seq<StreamEventView>,
    i: int,
)
    requires
        same_but_for_verdicts(one, other),
        0 <= i <= one.len(),
    ensures
        after_events(c, one.take(i)) == after_events(c, other.take(i)),
    decreases i,
{
    if i > 0 {
        verdicts_up_to(c, one, other, i - 1);
        assert(one.take(i).drop_last() =~= one.take(i - 1));
        assert(other.take(i).drop_last() =~= other.take(i - 1));
        assert(one.take(i).last() == one[i - 1] && other.take(i).last() == other[i - 1]);
        assert(one[i - 1] == other[i - 1] || (one[i - 1] is DataHandled
            && other[i - 1] is DataHandled));
    } else {
        assert(one.take(0).len() == 0 && other.take(0).len() == 0);
    }
}

} // verus!

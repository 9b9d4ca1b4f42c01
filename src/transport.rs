use vstd::prelude::*;

verus! {

/// Depth of the queue of fresh streams when every stream gets a connection of its own.
pub const SERIAL_STREAM_QUEUE_DEPTH: usize = 1;
/// Depth of the queue of fresh streams when streams share one connection.
pub const MULTIPLEXED_STREAM_QUEUE_DEPTH: usize = 16;
/// Depth of each of the two datagram queues of a connection.
pub const DATAGRAM_QUEUE_DEPTH: usize = 128;
/// The pause before dialling again after a failed or lost connection, in milliseconds.
pub const RECONNECT_PAUSE_MS: u64 = 100;

/// The limits handed to the QUIC implementation, as one end's settings give them. `None`
/// leaves the implementation's default; durations are in milliseconds.
#[derive(Debug, Clone, Copy, PartialEq, Eq, Structural)]
pub struct TransportSettings {
    pub initial_congestion_window: Option<u32>,
    pub max_handshake_duration: Option<u64>,
    pub max_idle_timeout: Option<u64>,
    pub max_keep_alive_period: Option<u64>,
    pub max_open_local_bidirectional_streams: Option<u64>,
    pub max_open_remote_bidirectional_streams: Option<u64>,
    pub bidirectional_local_data_window: Option<u64>,
    pub bidirectional_remote_data_window: Option<u64>,
}

/// How many opened streams may wait for a consumer.
pub fn stream_queue_depth(multiplexing: bool) -> (r: usize)
    ensures
        r == if multiplexing {
            MULTIPLEXED_STREAM_QUEUE_DEPTH
        } else {
            SERIAL_STREAM_QUEUE_DEPTH
        },
        r >= 1,
        multiplexing ==> r > 1,
{
    if multiplexing {
        MULTIPLEXED_STREAM_QUEUE_DEPTH
    } else {
        SERIAL_STREAM_QUEUE_DEPTH
    }
}

/// Where the client's connection task stands.
#[derive(Debug, Clone, Copy, PartialEq, Eq, Structural)]
pub enum LinkState {
    /// Dialling the server.
    Connecting,
    /// A connection is up; `pump_started` once its datagram pump runs.
    Open { pump_started: bool },
    /// The connection is gone; pending requests are being failed.
    Draining,
    /// The consumer is gone; the task ends.
    Closed,
}

/// What happened, as the task's driver reports it.
#[derive(Debug, Clone, Copy, PartialEq, Eq, Structural)]
pub enum LinkEvent {
    /// The dial succeeded.
    Dialed,
    /// The dial failed.
    DialFailed,
    /// A bidirectional stream was opened.
    StreamOpened,
    /// The consumer queue took the stream.
    StreamDelivered,
    /// The connection was lost or closed by the peer.
    ConnectionLost,
    /// Pending requests have been failed and the datagram pump dropped.
    Drained,
    /// The consumer queue is closed.
    ConsumerGone,
}

/// What the driver does next.
#[derive(Debug, Clone, Copy, PartialEq, Eq, Structural)]
pub enum LinkAction {
    /// Dial the server now.
    Dial,
    /// Dial the server after this many milliseconds.
    DialAfter(u64),
    /// Open a bidirectional stream, first starting the datagram pump if `start_pump`.
    OpenStream { start_pump: bool },
    /// Hand the opened stream to the consumer queue.
    Deliver,
    /// Drop the datagram pump and fail the pending stream requests.
    FailPending,
    /// Do nothing until the next event.
    Wait,
    /// End the task.
    Stop,
}

/// The rules of the connection task. A dial that fails is tried again after a pause, without
/// end. On a connection, the datagram pump starts once (when datagrams are enabled) and
/// streams are opened and handed over one at a time: all on that connection when streams are
/// multiplexed, else each on a freshly dialled one. A lost connection is drained and dialled
/// again. Only a closed consumer queue ends the task. Events that do not fit the state are
/// waited out.
pub open spec fn link_next(
    datagrams: bool,
    multiplexing: bool,
    state: LinkState,
    event: LinkEvent,
) -> (LinkState, LinkAction) {
    if state == LinkState::Closed || event == LinkEvent::ConsumerGone {
        (LinkState::Closed, LinkAction::Stop)
    } else {
        match (state, event) {
            (LinkState::Connecting, LinkEvent::Dialed) => (
                LinkState::Open { pump_started: datagrams },
                LinkAction::OpenStream { start_pump: datagrams },
            ),
            (LinkState::Connecting, LinkEvent::DialFailed) => (
                LinkState::Connecting,
                LinkAction::DialAfter(RECONNECT_PAUSE_MS),
            ),
            (LinkState::Open { pump_started }, LinkEvent::StreamOpened) => (
                LinkState::Open { pump_started },
                LinkAction::Deliver,
            ),
            (LinkState::Open { pump_started }, LinkEvent::StreamDelivered) => if multiplexing {
                (LinkState::Open { pump_started }, LinkAction::OpenStream { start_pump: false })
            } else {
                (LinkState::Connecting, LinkAction::Dial)
            },
            (LinkState::Open { .. }, LinkEvent::ConnectionLost) => (
                LinkState::Draining,
                LinkAction::FailPending,
            ),
            (LinkState::Draining, LinkEvent::Drained) => (
                LinkState::Connecting,
                LinkAction::DialAfter(RECONNECT_PAUSE_MS),
            ),
            _ => (state, LinkAction::Wait),
        }
    }
}

/// One step of the connection task.
pub fn link_step(datagrams: bool, multiplexing: bool, state: LinkState, event: LinkEvent) -> (r: (
    LinkState,
    LinkAction,
))
    ensures
        r == link_next(datagrams, multiplexing, state, event),
{
    if matches!(state, LinkState::Closed) || matches!(event, LinkEvent::ConsumerGone) {
        return (LinkState::Closed, LinkAction::Stop);
    }
    match (state, event) {
        (LinkState::Connecting, LinkEvent::Dialed) => (
            LinkState::Open { pump_started: datagrams },
            LinkAction::OpenStream { start_pump: datagrams },
        ),
        (LinkState::Connecting, LinkEvent::DialFailed) => (
            LinkState::Connecting,
            LinkAction::DialAfter(RECONNECT_PAUSE_MS),
        ),
        (LinkState::Open { pump_started }, LinkEvent::StreamOpened) => (
            LinkState::Open { pump_started },
            LinkAction::Deliver,
        ),
        (LinkState::Open { pump_started }, LinkEvent::StreamDelivered) => if multiplexing {
            (LinkState::Open { pump_started }, LinkAction::OpenStream { start_pump: false })
        } else {
            (LinkState::Connecting, LinkAction::Dial)
        },
        (LinkState::Open { .. }, LinkEvent::ConnectionLost) => (
            LinkState::Draining,
            LinkAction::FailPending,
        ),
        (LinkState::Draining, LinkEvent::Drained) => (
            LinkState::Connecting,
            LinkAction::DialAfter(RECONNECT_PAUSE_MS),
        ),
        _ => (state, LinkAction::Wait),
    }
}

/// Failures of the network never end the task: it ends only once the consumer is gone, and
/// then for good.
pub proof fn lemma_link_ends_only_without_consumer(
    datagrams: bool,
    multiplexing: bool,
    state: LinkState,
    event: LinkEvent,
)
    ensures
        (link_next(datagrams, multiplexing, state, event).0 == LinkState::Closed) <==> (state
            == LinkState::Closed || event == LinkEvent::ConsumerGone),
        (link_next(datagrams, multiplexing, state, event).1 == LinkAction::Stop) <==> (state
            == LinkState::Closed || event == LinkEvent::ConsumerGone),
{
}

/// An open connection has its datagram pump running exactly when datagrams are enabled.
pub open spec fn link_inv(datagrams: bool, state: LinkState) -> bool {
    state matches LinkState::Open { pump_started } ==> pump_started == datagrams
}

/// The datagram pump is started only on a connection just dialled, and only when datagrams
/// are enabled: at most once per connection. Every step keeps [`link_inv`].
pub proof fn lemma_link_pump_once(
    datagrams: bool,
    multiplexing: bool,
    state: LinkState,
    event: LinkEvent,
)
    requires
        link_inv(datagrams, state),
    ensures
        link_next(datagrams, multiplexing, state, event).1 == (LinkAction::OpenStream {
            start_pump: true,
        }) ==> datagrams && state == LinkState::Connecting && event == LinkEvent::Dialed,
        link_inv(datagrams, link_next(datagrams, multiplexing, state, event).0),
{
}

} // verus!

//! The life of a TCP flow.
//!
//! A flow begins when the virtual stack accepts a connection. A real stream to
//! the remote endpoint of the connection is asked for; once it is there, bytes
//! are copied between the two streams in both directions until one side ends
//! or fails, which ends the flow. A stream that cannot be had ends the flow at
//! once. The flow says at each turn what is to be done; connecting and copying
//! belong to the program around this crate.

use vstd::prelude::*;
use crate::endpoint::Endpoint;
use crate::socket_factory::FactoryError;

verus! {

/// Where a flow stands.
#[derive(Clone, Copy, Debug, PartialEq, Eq, Structural)]
pub enum FlowState {
    /// The virtual stack has accepted the connection.
    Accepted,
    /// The real stream has been asked for.
    Connecting,
    /// Bytes are copied in both directions.
    Piping,
    /// The flow is over and owns nothing.
    Closed,
}

/// What a flow is told.
#[derive(Clone, Copy, Debug, PartialEq, Eq, Structural)]
pub enum FlowEvent {
    /// The flow is taken up.
    Start,
    /// The real stream is connected.
    Connected,
    /// The real stream could not be had.
    ConnectFailed(FactoryError),
    /// The copy is over: one side reached the end of its stream.
    CopyEnded,
    /// The copy is over: reading or writing failed.
    CopyFailed,
}

/// What a flow asks for.
#[derive(Clone, Copy, Debug, PartialEq, Eq, Structural)]
pub enum FlowAction {
    /// Ask for a real stream to this endpoint, bound to the configured
    /// interface.
    Connect(Endpoint),
    /// Copy bytes between the two streams, in both directions at once, until
    /// one direction ends or fails.
    Pipe,
    /// Report the error and release the virtual stream.
    Abandon(FactoryError),
    /// Close both streams; report the failure of the copy if `report` says so.
    CloseBoth { report: bool },
    /// Nothing: the event has no meaning where the flow stands.
    Ignore,
}

/// One TCP flow: its endpoints as the virtual stack gave them at accept time,
/// and where it stands.
#[derive(Clone, Copy, Debug, PartialEq, Eq, Structural)]
pub struct TcpFlow {
    pub local: Endpoint,
    pub remote: Endpoint,
    pub state: FlowState,
}

impl TcpFlow {
    /// The flow of a connection that has just been accepted.
    pub open spec fn accepted(local: Endpoint, remote: Endpoint) -> TcpFlow {
        TcpFlow { local, remote, state: FlowState::Accepted }
    }

    /// The flow after an event, and what it asks for.
    pub open spec fn next(self, event: FlowEvent) -> (TcpFlow, FlowAction) {
        match (self.state, event) {
            (FlowState::Accepted, FlowEvent::Start) => (
                TcpFlow { state: FlowState::Connecting, ..self },
                FlowAction::Connect(self.remote),
            ),
            (FlowState::Connecting, FlowEvent::Connected) => (
                TcpFlow { state: FlowState::Piping, ..self },
                FlowAction::Pipe,
            ),
            (FlowState::Connecting, FlowEvent::ConnectFailed(error)) => (
                TcpFlow { state: FlowState::Closed, ..self },
                FlowAction::Abandon(error),
            ),
            (FlowState::Piping, FlowEvent::CopyEnded) => (
                TcpFlow { state: FlowState::Closed, ..self },
                FlowAction::CloseBoth { report: false },
            ),
            (FlowState::Piping, FlowEvent::CopyFailed) => (
                TcpFlow { state: FlowState::Closed, ..self },
                FlowAction::CloseBoth { report: true },
            ),
            _ => (self, FlowAction::Ignore),
        }
    }

    /// The flow after a history of events.
    pub open spec fn run(self, events: Seq<FlowEvent>) -> TcpFlow
        decreases events.len(),
    {
        if events.len() == 0 {
            self
        } else {
            self.next(events[0]).0.run(events.skip(1))
        }
    }

    /// How many real streams the flow asks for in a history of events.
    pub open spec fn connects(self, events: Seq<FlowEvent>) -> nat
        decreases events.len(),
    {
        if events.len() == 0 {
            0
        } else {
            let asked: nat = if self.next(events[0]).1 is Connect {
                1
            } else {
                0
            };
            asked + self.next(events[0]).0.connects(events.skip(1))
        }
    }

    /// Takes up a connection that the virtual stack has accepted from `local`
    /// to `remote`: the flow is connecting, and asks for a real stream to
    /// `remote`.
    pub fn on_accept(local: Endpoint, remote: Endpoint) -> (r: (TcpFlow, FlowAction))
        ensures
            r == TcpFlow::accepted(local, remote).next(FlowEvent::Start),
            r.0 == (TcpFlow { local, remote, state: FlowState::Connecting }),
            r.1 == FlowAction::Connect(remote),
    {
        let mut flow = TcpFlow { local, remote, state: FlowState::Accepted };
        let action = flow.on_event(FlowEvent::Start);
        (flow, action)
    }

    /// Tells the flow what has happened, and returns what it asks for.
    pub fn on_event(&mut self, event: FlowEvent) -> (action: FlowAction)
        ensures
            (*final(self), action) == old(self).next(event),
    {
        match self.state {
            FlowState::Accepted => match event {
                FlowEvent::Start => {
                    self.state = FlowState::Connecting;
                    FlowAction::Connect(self.remote)
                },
                _ => FlowAction::Ignore,
            },
            FlowState::Connecting => match event {
                FlowEvent::Connected => {
                    self.state = FlowState::Piping;
                    FlowAction::Pipe
                },
                FlowEvent::ConnectFailed(error) => {
                    self.state = FlowState::Closed;
                    FlowAction::Abandon(error)
                },
                _ => FlowAction::Ignore,
            },
            FlowState::Piping => match event {
                FlowEvent::CopyEnded => {
                    self.state = FlowState::Closed;
                    FlowAction::CloseBoth { report: false }
                },
                FlowEvent::CopyFailed => {
                    self.state = FlowState::Closed;
                    FlowAction::CloseBoth { report: true }
                },
                _ => FlowAction::Ignore,
            },
            FlowState::Closed => FlowAction::Ignore,
        }
    }

    /// Whether the flow is over.
    pub fn is_closed(&self) -> (closed: bool)
        ensures
            closed == (self.state == FlowState::Closed),
    {
        match self.state {
            FlowState::Closed => true,
            _ => false,
        }
    }
}

/// How far a state is along the life of a flow.
pub open spec fn rank(state: FlowState) -> int {
    match state {
        FlowState::Accepted => 0,
        FlowState::Connecting => 1,
        FlowState::Piping => 2,
        FlowState::Closed => 3,
    }
}

/// A flow keeps its endpoints and never goes back: an event leaves it where it
/// stands or moves it on, from accepted to connecting, from connecting to
/// piping or closed, from piping to closed.
pub proof fn flow_only_moves_on(flow: TcpFlow, event: FlowEvent)
    ensures
        flow.next(event).0.local == flow.local,
        flow.next(event).0.remote == flow.remote,
        rank(flow.next(event).0.state) >= rank(flow.state),
        flow.next(event).0.state != flow.state ==> {
            ||| rank(flow.next(event).0.state) == rank(flow.state) + 1
            ||| flow.next(event).0.state == FlowState::Closed
        },
        flow.next(event).0.state == FlowState::Piping && flow.state != FlowState::Piping ==> {
            flow.state == FlowState::Connecting && event == FlowEvent::Connected
        },
{
}

/// A closed flow stays closed and asks for nothing.
pub proof fn closed_flow_stays_closed(flow: TcpFlow, events: Seq<FlowEvent>)
    requires
        flow.state == FlowState::Closed,
    ensures
        flow.run(events) == flow,
        flow.connects(events) == 0,
        forall|event: FlowEvent| flow.next(event) == (flow, FlowAction::Ignore),
    decreases events.len(),
{
    if events.len() > 0 {
        closed_flow_stays_closed(flow, events.skip(1));
    }
}

/// While bytes are copied, the first end of a stream and the first failure
/// each close the flow, and with it both streams.
pub proof fn first_end_closes_the_flow(flow: TcpFlow)
    requires
        flow.state == FlowState::Piping,
    ensures
        flow.next(FlowEvent::CopyEnded) == (
            TcpFlow { state: FlowState::Closed, ..flow },
            FlowAction::CloseBoth { report: false },
        ),
        flow.next(FlowEvent::CopyFailed) == (
            TcpFlow { state: FlowState::Closed, ..flow },
            FlowAction::CloseBoth { report: true },
        ),
{
}

/// A flow that is past its start asks for no real stream any more.
pub proof fn started_flow_connects_no_more(flow: TcpFlow, events: Seq<FlowEvent>)
    requires
        flow.state != FlowState::Accepted,
    ensures
        flow.connects(events) == 0,
    decreases events.len(),
{
    if events.len() > 0 {
        flow_only_moves_on(flow, events[0]);
        started_flow_connects_no_more(flow.next(events[0]).0, events.skip(1));
    }
}

/// Whatever happens to a flow, it asks for at most one real stream, and that
/// stream goes to the remote endpoint it was accepted with.
pub proof fn at_most_one_connection(flow: TcpFlow, events: Seq<FlowEvent>)
    ensures
        flow.connects(events) <= 1,
        forall|event: FlowEvent| #[trigger]
            flow.next(event).1 is Connect ==> flow.next(event).1 == FlowAction::Connect(
                flow.remote,
            ),
    decreases events.len(),
{
    if events.len() > 0 {
        let after = flow.next(events[0]).0;
        if flow.next(events[0]).1 is Connect {
            started_flow_connects_no_more(after, events.skip(1));
        } else {
            at_most_one_connection(after, events.skip(1));
        }
    }
}

} // verus!

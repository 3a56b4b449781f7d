//! How an outbound socket is set up.
//!
//! A socket towards a real peer is created, bound to the chosen interface,
//! given its options and connected, one step after the other; the first step
//! that fails ends the setup and decides the error. The steps themselves are
//! system calls and belong to the program around this crate: it performs the
//! step it is told, reports whether the step succeeded, and is told the next.

use vstd::prelude::*;
use crate::endpoint::{Endpoint, IpAddress};

verus! {

/// The two kinds of outbound socket.
#[derive(Clone, Copy, Debug, PartialEq, Eq, Structural)]
pub enum SocketKind {
    /// A TCP stream.
    Stream,
    /// A UDP socket with a fixed peer.
    Datagram,
}

/// One step of a setup.
#[derive(Clone, Copy, Debug, PartialEq, Eq, Structural)]
pub enum FactoryStep {
    /// Create an IPv4 socket of this kind.
    Create(SocketKind),
    /// Bind the socket to the configured interface.
    BindToInterface,
    /// Switch keep-alive on.
    SetKeepAlive,
    /// Switch no-delay on.
    SetNoDelay,
    /// Put the socket into non-blocking mode.
    SetNonBlocking,
    /// Connect the socket to this endpoint. For a datagram socket this fixes
    /// the peer of what is sent and received later.
    Connect(Endpoint),
}

/// Why a setup failed.
#[derive(Clone, Copy, Debug, PartialEq, Eq, Structural)]
pub enum FactoryError {
    /// The remote endpoint is not an IPv4 endpoint.
    UnsupportedFamily,
    /// The interface does not exist, or binding to it is not supported.
    BindError,
    /// The peer refused the connection or did not answer in time.
    ConnectError,
    /// The socket could not be created, or would not take an option.
    SetupError,
}

/// Where a setup stands.
#[derive(Clone, Copy, Debug, PartialEq, Eq, Structural)]
pub enum SetupStatus {
    /// A step is under way.
    Running,
    /// Every step succeeded: the socket is ready.
    Ready,
    /// A step failed: there is no socket.
    Failed(FactoryError),
}

/// What the program is to do next.
#[derive(Clone, Copy, Debug, PartialEq, Eq, Structural)]
pub enum SetupAction {
    /// Perform this step and report how it went.
    Perform(FactoryStep),
    /// Use the socket.
    Ready,
    /// Give the socket up and report this error.
    Fail(FactoryError),
}

/// The steps by which a socket of `kind` towards `remote` is set up, in order.
pub open spec fn plan(kind: SocketKind, remote: Endpoint) -> Seq<FactoryStep> {
    match kind {
        SocketKind::Stream => seq![
            FactoryStep::Create(SocketKind::Stream),
            FactoryStep::BindToInterface,
            FactoryStep::SetKeepAlive,
            FactoryStep::SetNoDelay,
            FactoryStep::SetNonBlocking,
            FactoryStep::Connect(remote),
        ],
        SocketKind::Datagram => seq![
            FactoryStep::Create(SocketKind::Datagram),
            FactoryStep::BindToInterface,
            FactoryStep::SetNonBlocking,
            FactoryStep::Connect(remote),
        ],
    }
}

/// The error that a failure of `step` stands for.
pub open spec fn failure_of(step: FactoryStep) -> FactoryError {
    match step {
        FactoryStep::BindToInterface => FactoryError::BindError,
        FactoryStep::Connect(_) => FactoryError::ConnectError,
        _ => FactoryError::SetupError,
    }
}

/// The step at `index` of the plan, if the plan is that long.
pub fn plan_step(kind: SocketKind, remote: Endpoint, index: usize) -> (step: Option<FactoryStep>)
    ensures
        step == (if index < plan(kind, remote).len() {
            Some(plan(kind, remote)[index as int])
        } else {
            None
        }),
{
    match kind {
        SocketKind::Stream => {
            if index == 0 {
                Some(FactoryStep::Create(SocketKind::Stream))
            } else if index == 1 {
                Some(FactoryStep::BindToInterface)
            } else if index == 2 {
                Some(FactoryStep::SetKeepAlive)
            } else if index == 3 {
                Some(FactoryStep::SetNoDelay)
            } else if index == 4 {
                Some(FactoryStep::SetNonBlocking)
            } else if index == 5 {
                Some(FactoryStep::Connect(remote))
            } else {
                None
            }
        },
        SocketKind::Datagram => {
            if index == 0 {
                Some(FactoryStep::Create(SocketKind::Datagram))
            } else if index == 1 {
                Some(FactoryStep::BindToInterface)
            } else if index == 2 {
                Some(FactoryStep::SetNonBlocking)
            } else if index == 3 {
                Some(FactoryStep::Connect(remote))
            } else {
                None
            }
        },
    }
}

/// Tells which error a failure of `step` stands for.
pub fn classify_failure(step: FactoryStep) -> (error: FactoryError)
    ensures
        error == failure_of(step),
{
    match step {
        FactoryStep::BindToInterface => FactoryError::BindError,
        FactoryStep::Connect(_) => FactoryError::ConnectError,
        _ => FactoryError::SetupError,
    }
}

/// The setup of one outbound socket: what is set up, how many steps have
/// succeeded, and where the setup stands.
#[derive(Clone, Copy, Debug, PartialEq, Eq, Structural)]
pub struct SocketSetup {
    pub kind: SocketKind,
    pub remote: Endpoint,
    pub done: usize,
    pub status: SetupStatus,
}

impl SocketSetup {
    /// The setup of a socket of `kind` towards `remote` at its start, and its
    /// first action: an endpoint outside IPv4 fails it at once, before any
    /// socket is made; otherwise the first step of the plan is to be performed.
    pub open spec fn start(kind: SocketKind, remote: Endpoint) -> (SocketSetup, SetupAction) {
        if remote.addr is V4 {
            (
                SocketSetup { kind, remote, done: 0, status: SetupStatus::Running },
                SetupAction::Perform(plan(kind, remote)[0]),
            )
        } else {
            (
                SocketSetup {
                    kind,
                    remote,
                    done: 0,
                    status: SetupStatus::Failed(FactoryError::UnsupportedFamily),
                },
                SetupAction::Fail(FactoryError::UnsupportedFamily),
            )
        }
    }

    /// The setup after the step under way has ended, well (`ok`) or not, and
    /// the action that follows. A failure ends the setup with the error of the
    /// step; a success leads to the next step, or to a ready socket after the
    /// last. A setup that has ended stays as it is and repeats its verdict.
    pub open spec fn next(self, ok: bool) -> (SocketSetup, SetupAction) {
        match self.status {
            SetupStatus::Ready => (self, SetupAction::Ready),
            SetupStatus::Failed(error) => (self, SetupAction::Fail(error)),
            SetupStatus::Running => {
                let steps = plan(self.kind, self.remote);
                if self.done >= steps.len() {
                    (SocketSetup { status: SetupStatus::Ready, ..self }, SetupAction::Ready)
                } else if !ok {
                    let error = failure_of(steps[self.done as int]);
                    (
                        SocketSetup { status: SetupStatus::Failed(error), ..self },
                        SetupAction::Fail(error),
                    )
                } else if self.done + 1 == steps.len() {
                    (
                        SocketSetup {
                            done: (self.done + 1) as usize,
                            status: SetupStatus::Ready,
                            ..self
                        },
                        SetupAction::Ready,
                    )
                } else {
                    (
                        SocketSetup { done: (self.done + 1) as usize, ..self },
                        SetupAction::Perform(steps[self.done + 1]),
                    )
                }
            },
        }
    }

    /// The setup after its steps have ended as `results` say, one after the
    /// other, from its start.
    pub open spec fn run(kind: SocketKind, remote: Endpoint, results: Seq<bool>) -> SocketSetup
        decreases results.len(),
    {
        if results.len() == 0 {
            SocketSetup::start(kind, remote).0
        } else {
            SocketSetup::run(kind, remote, results.drop_last()).next(results.last()).0
        }
    }

    /// Starts the setup of a socket of `kind` towards `remote`.
    pub fn begin(kind: SocketKind, remote: Endpoint) -> (r: (SocketSetup, SetupAction))
        ensures
            r == SocketSetup::start(kind, remote),
    {
        match remote.addr {
            IpAddress::V4(_) => {
                let first = FactoryStep::Create(kind);
                assert(plan(kind, remote)[0] == first);
                (
                    SocketSetup { kind, remote, done: 0, status: SetupStatus::Running },
                    SetupAction::Perform(first),
                )
            },
            IpAddress::V6(_) => (
                SocketSetup {
                    kind,
                    remote,
                    done: 0,
                    status: SetupStatus::Failed(FactoryError::UnsupportedFamily),
                },
                SetupAction::Fail(FactoryError::UnsupportedFamily),
            ),
        }
    }

    /// Takes note that the step under way has ended, well (`ok`) or not, and
    /// says what follows.
    pub fn step_done(&mut self, ok: bool) -> (action: SetupAction)
        ensures
            (*final(self), action) == old(self).next(ok),
    {
        match self.status {
            SetupStatus::Ready => SetupAction::Ready,
            SetupStatus::Failed(error) => SetupAction::Fail(error),
            SetupStatus::Running => {
                match plan_step(self.kind, self.remote, self.done) {
                    None => {
                        self.status = SetupStatus::Ready;
                        SetupAction::Ready
                    },
                    Some(step) => {
                        if !ok {
                            let error = classify_failure(step);
                            self.status = SetupStatus::Failed(error);
                            SetupAction::Fail(error)
                        } else {
                            assert(plan(self.kind, self.remote).len() <= 6);
                            self.done = self.done + 1;
                            match plan_step(self.kind, self.remote, self.done) {
                                None => {
                                    self.status = SetupStatus::Ready;
                                    SetupAction::Ready
                                },
                                Some(following) => SetupAction::Perform(following),
                            }
                        }
                    },
                }
            },
        }
    }
}

/// Starts the setup of an outbound TCP stream to `remote`: an IPv4 socket that
/// is bound to the interface, keeps alive, does not delay, does not block, and
/// is then connected.
pub fn new_tcp_stream(remote: Endpoint) -> (r: (SocketSetup, SetupAction))
    ensures
        r == SocketSetup::start(SocketKind::Stream, remote),
{
    SocketSetup::begin(SocketKind::Stream, remote)
}

/// Starts the setup of an outbound UDP socket with the peer `remote`: an IPv4
/// socket that is bound to the interface, does not block, and is then
/// connected.
pub fn new_udp_packet(remote: Endpoint) -> (r: (SocketSetup, SetupAction))
    ensures
        r == SocketSetup::start(SocketKind::Datagram, remote),
{
    SocketSetup::begin(SocketKind::Datagram, remote)
}

/// While no step has failed, a setup towards an IPv4 endpoint has done as many
/// steps as have been reported, and is ready exactly when the plan is done.
pub proof fn setup_follows_the_plan(kind: SocketKind, remote: Endpoint, results: Seq<bool>)
    requires
        remote.addr is V4,
        results.len() <= plan(kind, remote).len(),
        forall|i: int| 0 <= i < results.len() ==> results[i],
    ensures
        SocketSetup::run(kind, remote, results).kind == kind,
        SocketSetup::run(kind, remote, results).remote == remote,
        SocketSetup::run(kind, remote, results).done == results.len(),
        SocketSetup::run(kind, remote, results).status == (if results.len() == plan(
            kind,
            remote,
        ).len() {
            SetupStatus::Ready
        } else {
            SetupStatus::Running
        }),
    decreases results.len(),
{
    if results.len() > 0 {
        let earlier = results.drop_last();
        assert forall|i: int| 0 <= i < earlier.len() implies earlier[i] by {
            assert(earlier[i] == results[i]);
        }
        setup_follows_the_plan(kind, remote, earlier);
        assert(results.last());
    }
}

/// A setup that has ended stays as it ended, whatever is reported to it.
pub proof fn ended_setup_stays(setup: SocketSetup, ok: bool)
    requires
        setup.status != SetupStatus::Running,
    ensures
        setup.next(ok).0 == setup,
        setup.next(ok).1 == (match setup.status {
            SetupStatus::Failed(error) => SetupAction::Fail(error),
            _ => SetupAction::Ready,
        }),
{
}

/// The first step that fails decides the error of a setup: whatever is
/// reported after it, the setup has failed with the error of that step.
pub proof fn first_failure_decides(
    kind: SocketKind,
    remote: Endpoint,
    results: Seq<bool>,
    failed: int,
)
    requires
        remote.addr is V4,
        0 <= failed < results.len(),
        failed < plan(kind, remote).len(),
        !results[failed],
        forall|i: int| 0 <= i < failed ==> results[i],
    ensures
        SocketSetup::run(kind, remote, results).status == SetupStatus::Failed(
            failure_of(plan(kind, remote)[failed]),
        ),
    decreases results.len(),
{
    let earlier = results.drop_last();
    if results.len() == failed + 1 {
        assert forall|i: int| 0 <= i < earlier.len() implies earlier[i] by {
            assert(earlier[i] == results[i]);
        }
        setup_follows_the_plan(kind, remote, earlier);
    } else {
        assert(earlier[failed] == results[failed]);
        assert forall|i: int| 0 <= i < failed implies earlier[i] by {
            assert(earlier[i] == results[i]);
        }
        first_failure_decides(kind, remote, earlier, failed);
    }
}

/// A setup towards an endpoint outside IPv4 fails as unsupported, before any
/// step and whatever is reported to it.
pub proof fn other_families_are_refused(kind: SocketKind, remote: Endpoint, results: Seq<bool>)
    requires
        !(remote.addr is V4),
    ensures
        SocketSetup::start(kind, remote).1 == SetupAction::Fail(FactoryError::UnsupportedFamily),
        SocketSetup::run(kind, remote, results).status == SetupStatus::Failed(
            FactoryError::UnsupportedFamily,
        ),
    decreases results.len(),
{
    if results.len() > 0 {
        other_families_are_refused(kind, remote, results.drop_last());
    }
}

/// In both kinds of setup the interface is bound before anything is connected,
/// a failure to bind is a bind error, and a failure of the last step, the
/// connect, is a connect error.
pub proof fn bind_and_connect_errors(kind: SocketKind, remote: Endpoint)
    ensures
        plan(kind, remote)[0] == FactoryStep::Create(kind),
        plan(kind, remote)[1] == FactoryStep::BindToInterface,
        failure_of(plan(kind, remote)[1]) == FactoryError::BindError,
        plan(kind, remote).last() == FactoryStep::Connect(remote),
        failure_of(plan(kind, remote).last()) == FactoryError::ConnectError,
        forall|i: int|
            0 <= i < plan(kind, remote).len() - 1 ==> !(#[trigger] plan(kind, remote)[i]
                is Connect),
{
}

} // verus!

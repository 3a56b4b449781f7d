use tun_forward::endpoint::Endpoint;
use tun_forward::socket_factory::FactoryError;
use tun_forward::tcp_flow::{FlowAction, FlowEvent, FlowState, TcpFlow};

fn all_events() -> Vec<FlowEvent> {
    vec![
        FlowEvent::Start,
        FlowEvent::Connected,
        FlowEvent::ConnectFailed(FactoryError::UnsupportedFamily),
        FlowEvent::ConnectFailed(FactoryError::BindError),
        FlowEvent::ConnectFailed(FactoryError::ConnectError),
        FlowEvent::ConnectFailed(FactoryError::SetupError),
        FlowEvent::CopyEnded,
        FlowEvent::CopyFailed,
    ]
}

fn flow_in(state: FlowState) -> TcpFlow {
    TcpFlow {
        local: Endpoint::v4(10, 10, 10, 2, 40001),
        remote: Endpoint::v4(93, 184, 216, 34, 80),
        state,
    }
}

#[test]
fn accepted_connection_asks_for_a_stream_to_its_remote() {
    let local = Endpoint::v4(10, 10, 10, 2, 40001);
    let remote = Endpoint::v4(1, 1, 1, 1, 443);
    let (flow, action) = TcpFlow::on_accept(local, remote);
    assert_eq!(flow, TcpFlow { local, remote, state: FlowState::Connecting });
    assert_eq!(action, FlowAction::Connect(remote));
    assert!(!flow.is_closed());
}

#[test]
fn accepted_flow_starts_by_connecting() {
    let mut flow = flow_in(FlowState::Accepted);
    assert_eq!(flow.on_event(FlowEvent::Start), FlowAction::Connect(flow.remote));
    assert_eq!(flow.state, FlowState::Connecting);
}

#[test]
fn connected_flow_pipes() {
    let mut flow = flow_in(FlowState::Connecting);
    assert_eq!(flow.on_event(FlowEvent::Connected), FlowAction::Pipe);
    assert_eq!(flow.state, FlowState::Piping);
}

#[test]
fn failed_connect_closes_the_flow_with_its_error() {
    for error in [
        FactoryError::UnsupportedFamily,
        FactoryError::BindError,
        FactoryError::ConnectError,
        FactoryError::SetupError,
    ] {
        let mut flow = flow_in(FlowState::Connecting);
        assert_eq!(flow.on_event(FlowEvent::ConnectFailed(error)), FlowAction::Abandon(error));
        assert_eq!(flow.state, FlowState::Closed);
        assert!(flow.is_closed());
    }
}

#[test]
fn end_of_stream_closes_both_sides_without_report() {
    let mut flow = flow_in(FlowState::Piping);
    assert_eq!(flow.on_event(FlowEvent::CopyEnded), FlowAction::CloseBoth { report: false });
    assert!(flow.is_closed());
}

#[test]
fn failed_copy_closes_both_sides_with_report() {
    let mut flow = flow_in(FlowState::Piping);
    assert_eq!(flow.on_event(FlowEvent::CopyFailed), FlowAction::CloseBoth { report: true });
    assert!(flow.is_closed());
}

#[test]
fn closed_flow_ignores_everything() {
    for event in all_events() {
        let mut flow = flow_in(FlowState::Closed);
        assert_eq!(flow.on_event(event), FlowAction::Ignore);
        assert_eq!(flow, flow_in(FlowState::Closed));
    }
}

#[test]
fn events_out_of_place_are_ignored() {
    for event in all_events() {
        if event != FlowEvent::Start {
            let mut flow = flow_in(FlowState::Accepted);
            assert_eq!(flow.on_event(event), FlowAction::Ignore);
            assert_eq!(flow.state, FlowState::Accepted);
        }
        if event == FlowEvent::Start || event == FlowEvent::CopyEnded
            || event == FlowEvent::CopyFailed
        {
            let mut flow = flow_in(FlowState::Connecting);
            assert_eq!(flow.on_event(event), FlowAction::Ignore);
            assert_eq!(flow.state, FlowState::Connecting);
        }
        if event != FlowEvent::CopyEnded && event != FlowEvent::CopyFailed {
            let mut flow = flow_in(FlowState::Piping);
            assert_eq!(flow.on_event(event), FlowAction::Ignore);
            assert_eq!(flow.state, FlowState::Piping);
        }
    }
}

#[test]
fn flow_asks_for_one_stream_at_most_and_keeps_its_endpoints() {
    let events = all_events();
    for first in 0..events.len() {
        for second in 0..events.len() {
            for third in 0..events.len() {
                let mut flow = flow_in(FlowState::Accepted);
                let mut connects = 0;
                for i in [first, second, third, 0, 1, 6] {
                    if let FlowAction::Connect(to) = flow.on_event(events[i]) {
                        assert_eq!(to, flow.remote);
                        connects += 1;
                    }
                    assert_eq!(flow.local, Endpoint::v4(10, 10, 10, 2, 40001));
                    assert_eq!(flow.remote, Endpoint::v4(93, 184, 216, 34, 80));
                }
                assert!(connects <= 1);
            }
        }
    }
}

#[test]
fn flows_with_the_same_endpoints_are_independent() {
    let local = Endpoint::v4(10, 10, 10, 2, 40001);
    let remote = Endpoint::v4(93, 184, 216, 34, 80);
    let (mut first, _) = TcpFlow::on_accept(local, remote);
    let (mut second, action) = TcpFlow::on_accept(local, remote);
    assert_eq!(action, FlowAction::Connect(remote));
    assert_eq!(
        first.on_event(FlowEvent::ConnectFailed(FactoryError::ConnectError)),
        FlowAction::Abandon(FactoryError::ConnectError)
    );
    assert_eq!(second.on_event(FlowEvent::Connected), FlowAction::Pipe);
    assert_eq!(first.state, FlowState::Closed);
    assert_eq!(second.state, FlowState::Piping);
}

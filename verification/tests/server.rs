use mini_redis_practice::config::ServerConfig;
use mini_redis_practice::error::{
    AcceptFailure, BindError, HandlerError, HandlerOutcome, RunError,
};
use mini_redis_practice::model::Phase;
use mini_redis_practice::server::Server;

fn server_with(limit: usize) -> Server {
    Server::new(ServerConfig::new(8080, limit), Ok(())).ok().unwrap()
}

#[test]
fn new_server_waits_for_its_first_permit() {
    let server = server_with(250);
    assert_eq!(server.config(), ServerConfig::new(8080, 250));
    assert_eq!(server.phase(), Phase::WaitingForPermit);
    assert_eq!(server.capacity(), 250);
    assert_eq!(server.available(), 250);
    assert_eq!(server.in_flight(), 0);
    assert_eq!(server.run_result(), None);
}

#[test]
fn bind_failures_are_handed_on() {
    for error in [
        BindError::PortInUse,
        BindError::PermissionDenied,
        BindError::InvalidAddress,
        BindError::Other,
    ] {
        let server = Server::new(ServerConfig::new(8080, 250), Err(error));
        assert_eq!(server.err(), Some(error));
    }
}

#[test]
fn port_beyond_range_is_an_invalid_address() {
    let config = ServerConfig::new(65536, 250);
    assert_eq!(Server::new(config, Ok(())).err(), Some(BindError::InvalidAddress));
    assert_eq!(
        Server::new(config, Err(BindError::PortInUse)).err(),
        Some(BindError::InvalidAddress)
    );
    assert!(Server::new(ServerConfig::new(65535, 250), Ok(())).is_ok());
}

#[test]
fn failing_handler_does_not_leak_its_permit() {
    let mut server = server_with(1);
    assert_eq!(server.poll_permit(), Phase::WaitingForConnection);
    let permit = server.connection_accepted();
    assert_eq!(server.in_flight(), 1);
    assert_eq!(server.available(), 0);
    assert_eq!(server.poll_permit(), Phase::WaitingForPermit);
    server.handler_finished(permit, HandlerOutcome::Failed(HandlerError::Io));
    assert_eq!(server.available(), 1);
    assert_eq!(server.in_flight(), 0);
    assert_eq!(server.poll_permit(), Phase::WaitingForConnection);
    let next = server.connection_accepted();
    assert_eq!(server.in_flight(), 1);
    server.handler_finished(next, HandlerOutcome::Completed);
    assert_eq!(server.available(), 1);
}

#[test]
fn every_outcome_releases_the_permit_once() {
    for outcome in [
        HandlerOutcome::Completed,
        HandlerOutcome::Failed(HandlerError::Io),
        HandlerOutcome::Failed(HandlerError::Protocol),
        HandlerOutcome::Aborted,
    ] {
        let mut server = server_with(1);
        server.poll_permit();
        let permit = server.connection_accepted();
        assert_eq!(server.available(), 0);
        server.handler_finished(permit, outcome);
        assert_eq!(server.available(), 1);
        assert_eq!(server.in_flight(), 0);
        assert_eq!(server.phase(), Phase::WaitingForPermit);
        assert_eq!(server.run_result(), None);
        assert_eq!(server.poll_permit(), Phase::WaitingForConnection);
    }
}

#[test]
fn third_connection_waits_for_a_release() {
    let mut server = server_with(2);
    assert_eq!(server.poll_permit(), Phase::WaitingForConnection);
    let first = server.connection_accepted();
    assert_eq!(server.poll_permit(), Phase::WaitingForConnection);
    let second = server.connection_accepted();
    assert_eq!(server.in_flight(), 2);
    assert_eq!(server.available(), 0);

    assert_eq!(server.poll_permit(), Phase::WaitingForPermit);
    assert_eq!(server.poll_permit(), Phase::WaitingForPermit);
    assert_eq!(server.in_flight(), 2);

    server.handler_finished(first, HandlerOutcome::Completed);
    assert_eq!(server.in_flight(), 1);
    assert_eq!(server.poll_permit(), Phase::WaitingForConnection);
    let third = server.connection_accepted();
    assert_eq!(server.in_flight(), 2);
    assert_eq!(server.available(), 0);

    server.handler_finished(second, HandlerOutcome::Completed);
    server.handler_finished(third, HandlerOutcome::Completed);
    assert_eq!(server.in_flight(), 0);
    assert_eq!(server.available(), 2);
}

#[test]
fn shutdown_while_waiting_for_a_permit() {
    let mut server = server_with(1);
    server.poll_permit();
    let permit = server.connection_accepted();
    assert_eq!(server.poll_permit(), Phase::WaitingForPermit);
    assert_eq!(server.shutdown(), Ok(()));
    assert_eq!(server.phase(), Phase::Stopped);
    assert_eq!(server.run_result(), Some(Ok(())));
    assert_eq!(server.in_flight(), 1);
    server.handler_finished(permit, HandlerOutcome::Completed);
    assert_eq!(server.in_flight(), 0);
    assert_eq!(server.available(), 1);
    assert_eq!(server.phase(), Phase::Stopped);
    assert_eq!(server.run_result(), Some(Ok(())));
}

#[test]
fn shutdown_while_waiting_for_a_connection() {
    let mut server = server_with(2);
    assert_eq!(server.poll_permit(), Phase::WaitingForConnection);
    assert_eq!(server.available(), 1);
    assert_eq!(server.shutdown(), Ok(()));
    assert_eq!(server.phase(), Phase::Stopped);
    assert_eq!(server.run_result(), Some(Ok(())));
    assert_eq!(server.available(), 2);
    assert_eq!(server.in_flight(), 0);
}

#[test]
fn fatal_listener_failure_ends_the_run() {
    let mut server = server_with(2);
    server.poll_permit();
    server.accept_failed(AcceptFailure::ListenerClosed);
    assert_eq!(server.phase(), Phase::Stopped);
    assert_eq!(
        server.run_result(),
        Some(Err(RunError::ListenerFailed(AcceptFailure::ListenerClosed)))
    );
    assert_eq!(server.available(), 2);
}

#[test]
fn shutdown_after_failure_keeps_the_failure() {
    let mut server = server_with(2);
    server.poll_permit();
    server.accept_failed(AcceptFailure::Os);
    assert_eq!(server.shutdown(), Err(RunError::ListenerFailed(AcceptFailure::Os)));
    assert_eq!(server.run_result(), Some(Err(RunError::ListenerFailed(AcceptFailure::Os))));
}

#[test]
fn transient_accept_failure_does_not_end_the_run() {
    let mut server = server_with(1);
    server.poll_permit();
    server.accept_failed(AcceptFailure::ConnectionReset);
    assert_eq!(server.phase(), Phase::WaitingForPermit);
    assert_eq!(server.run_result(), None);
    assert_eq!(server.available(), 1);
    assert_eq!(server.poll_permit(), Phase::WaitingForConnection);
    let permit = server.connection_accepted();
    server.handler_finished(permit, HandlerOutcome::Completed);
    assert_eq!(server.run_result(), None);
}

#[test]
fn protocol_error_does_not_hinder_the_next_connection() {
    let mut server = server_with(1);
    server.poll_permit();
    let bad = server.connection_accepted();
    server.handler_finished(bad, HandlerOutcome::of(Err(HandlerError::Protocol)));
    assert_eq!(server.run_result(), None);
    assert_eq!(server.poll_permit(), Phase::WaitingForConnection);
    let good = server.connection_accepted();
    assert_eq!(server.in_flight(), 1);
    server.handler_finished(good, HandlerOutcome::of(Ok(())));
    assert_eq!(server.in_flight(), 0);
    assert_eq!(server.available(), 1);
    assert_eq!(server.run_result(), None);
}

#[test]
fn closed_pool_ends_the_run() {
    let mut server = server_with(2);
    server.poll_permit();
    let permit = server.connection_accepted();
    server.close_pool();
    assert_eq!(server.run_result(), None);
    assert_eq!(server.poll_permit(), Phase::Stopped);
    assert_eq!(server.run_result(), Some(Err(RunError::PoolClosed)));
    assert_eq!(server.in_flight(), 1);
    server.handler_finished(permit, HandlerOutcome::Aborted);
    assert_eq!(server.in_flight(), 0);
}

#[test]
fn in_flight_stays_within_capacity() {
    let mut server = server_with(3);
    let mut permits = Vec::new();
    for round in 0..30usize {
        match server.phase() {
            Phase::WaitingForPermit => {
                if server.poll_permit() == Phase::WaitingForPermit {
                    let permit = permits.remove(0);
                    server.handler_finished(permit, HandlerOutcome::Completed);
                }
            }
            Phase::WaitingForConnection => {
                if round % 7 == 0 {
                    server.accept_failed(AcceptFailure::Interrupted);
                } else {
                    permits.push(server.connection_accepted());
                }
            }
            Phase::Stopped => unreachable!(),
        }
        assert!(server.in_flight() <= server.capacity());
        assert_eq!(server.in_flight(), permits.len());
    }
}

#[test]
fn outcome_of_a_handler_result() {
    assert_eq!(HandlerOutcome::of(Ok(())), HandlerOutcome::Completed);
    assert_eq!(
        HandlerOutcome::of(Err(HandlerError::Io)),
        HandlerOutcome::Failed(HandlerError::Io)
    );
    assert_eq!(
        HandlerOutcome::of(Err(HandlerError::Protocol)),
        HandlerOutcome::Failed(HandlerError::Protocol)
    );
}

use grpc_server::lifecycle::{Action, Event, Lifecycle, Phase};
use grpc_server::server::{JobRequest, ServiceError};
use grpc_server::service::JobServer;
use grpc_server::store::{ConnectionError, DBManager, StoreError, StoreState};

fn started() -> JobServer {
    let mut server = JobServer::new(DBManager::new());
    assert_eq!(server.start(), Ok(()));
    server
}

#[test]
fn start_connects_then_serves() {
    let mut server = JobServer::new(DBManager::new());
    assert_eq!(server.phase(), Phase::Init);
    assert_eq!(server.store_state(), StoreState::Unconnected);
    assert_eq!(server.start(), Ok(()));
    assert_eq!(server.phase(), Phase::Serving);
    assert_eq!(server.store_state(), StoreState::Connected);
}

#[test]
fn failed_connect_stops_with_exit_one() {
    let mut db = DBManager::new();
    db.set_reachable(false);
    let mut server = JobServer::new(db);
    assert_eq!(server.start(), Err(ConnectionError::Unreachable));
    assert_eq!(server.phase(), Phase::Stopped);
    assert!(!server.accept_request());

    let mut life = Lifecycle::new();
    assert_eq!(life.step(Event::Start), Action::ConnectStore);
    assert_eq!(life.step(Event::ConnectFailed), Action::Exit(1));
    assert_eq!(life.phase(), Phase::Stopped);
}

#[test]
fn idle_server_closes_on_signal() {
    let mut server = started();
    assert_eq!(server.terminate(), Some(0));
    assert_eq!(server.phase(), Phase::Stopped);
    assert_eq!(server.store_state(), StoreState::Closed);
    assert_eq!(server.terminate(), None);
    assert_eq!(server.finish(), None);
    assert_eq!(server.store_state(), StoreState::Closed);
}

#[test]
fn no_request_accepted_after_signal() {
    let mut server = started();
    assert!(server.accept_request());
    assert_eq!(server.terminate(), None);
    assert_eq!(server.phase(), Phase::ShuttingDown);
    assert!(!server.accept_request());
    assert_eq!(server.in_flight(), 1);
}

#[test]
fn in_flight_request_completes_before_close() {
    let mut server = started();
    assert!(server.accept_request());
    assert!(server.accept_request());
    assert_eq!(server.terminate(), None);
    assert_eq!(server.store_state(), StoreState::Connected);

    let reply = server.submit(JobRequest { name: "drain".to_string() }).ok().unwrap();
    assert_eq!(reply.message, "Hello drain!");
    assert_eq!(server.finish(), None);
    assert_eq!(server.store_state(), StoreState::Connected);

    let list = server.list().ok().unwrap();
    assert_eq!(list.job.len(), 1);
    assert_eq!(list.job[0].name, "drain");
    assert_eq!(server.finish(), Some(0));
    assert_eq!(server.in_flight(), 0);
    assert_eq!(server.phase(), Phase::Stopped);
    assert_eq!(server.store_state(), StoreState::Closed);

    let late = server.submit(JobRequest { name: "late".to_string() });
    assert!(matches!(late, Err(ServiceError::Internal(StoreError::AlreadyClosed))));
}

#[test]
fn lifecycle_orders_one_close() {
    let mut life = Lifecycle::new();
    let events = [
        Event::Start,
        Event::ConnectSucceeded,
        Event::RequestArrived,
        Event::TerminateSignal,
        Event::RequestArrived,
        Event::RequestFinished,
        Event::RequestFinished,
        Event::TerminateSignal,
        Event::CloseFinished,
        Event::CloseFinished,
    ];
    let expected = [
        Action::ConnectStore,
        Action::BeginServing,
        Action::Dispatch,
        Action::Wait,
        Action::Reject,
        Action::CloseStore,
        Action::Wait,
        Action::Wait,
        Action::Exit(0),
        Action::Wait,
    ];
    let mut closes = 0;
    for (e, want) in events.iter().zip(expected.iter()) {
        let got = life.step(*e);
        assert_eq!(got, *want);
        if got == Action::CloseStore {
            assert_eq!(life.in_flight(), 0);
            closes += 1;
        }
    }
    assert_eq!(closes, 1);
    assert_eq!(life.phase(), Phase::Stopped);
}

#[test]
fn stray_finish_while_serving_is_ignored() {
    let mut life = Lifecycle::new();
    life.step(Event::Start);
    life.step(Event::ConnectSucceeded);
    assert_eq!(life.step(Event::RequestFinished), Action::Wait);
    assert_eq!(life.in_flight(), 0);
    assert_eq!(life.step(Event::RequestArrived), Action::Dispatch);
    assert_eq!(life.in_flight(), 1);
}

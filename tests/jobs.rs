use grpc_server::server::{JobRequest, MyJobRunner, ServiceError};
use grpc_server::store::{ConnectionError, DBManager, StoreError, StoreState};

fn connected_runner() -> MyJobRunner {
    let mut db = DBManager::new();
    assert_eq!(db.connect(), Ok(()));
    MyJobRunner::new(db)
}

fn request(name: &str) -> JobRequest {
    JobRequest { name: name.to_string() }
}

#[test]
fn submit_build_report_greets_and_lists() {
    let mut runner = connected_runner();
    let reply = runner.send_job(request("build-report")).ok().unwrap();
    assert_eq!(reply.message, "Hello build-report!");
    let list = runner.list_jobs().ok().unwrap();
    assert_eq!(list.job.len(), 1);
    assert_eq!(list.job[0].id, 1);
    assert_eq!(list.job[0].name, "build-report");
}

#[test]
fn submitted_name_is_listed_after_earlier_jobs() {
    let mut runner = connected_runner();
    runner.send_job(request("first")).ok().unwrap();
    runner.send_job(request("nightly backup")).ok().unwrap();
    let list = runner.list_jobs().ok().unwrap();
    assert!(list.job.iter().any(|j| j.name == "nightly backup"));
    assert_eq!(list.job[0].id, 1);
    assert_eq!(list.job[1].id, 2);
    assert_eq!(list.job[1].name, "nightly backup");
}

#[test]
fn empty_name_is_accepted() {
    let mut runner = connected_runner();
    let reply = runner.send_job(request("")).ok().unwrap();
    assert_eq!(reply.message, "Hello !");
    assert_eq!(runner.db_manager().row_count(), 1);
}

#[test]
fn failing_write_is_server_error_and_keeps_rows() {
    let mut runner = connected_runner();
    runner.send_job(request("kept")).ok().unwrap();
    runner.db_manager_mut().set_fail_writes(true);
    let r = runner.send_job(request("lost"));
    assert!(matches!(r, Err(ServiceError::Internal(StoreError::WriteFailed))));
    assert_eq!(runner.db_manager().row_count(), 1);
    runner.db_manager_mut().set_fail_writes(false);
    runner.send_job(request("again")).ok().unwrap();
    let list = runner.list_jobs().ok().unwrap();
    assert_eq!(list.job[1].id, 2);
    assert_eq!(list.job[1].name, "again");
}

#[test]
fn failing_read_is_server_error() {
    let mut runner = connected_runner();
    runner.send_job(request("x")).ok().unwrap();
    runner.db_manager_mut().set_fail_reads(true);
    assert!(matches!(runner.list_jobs(), Err(ServiceError::Internal(StoreError::ReadFailed))));
}

#[test]
fn handler_on_unconnected_store_fails() {
    let mut runner = MyJobRunner::new(DBManager::new());
    let r = runner.send_job(request("early"));
    assert!(matches!(r, Err(ServiceError::Internal(StoreError::NotConnected))));
    assert!(matches!(runner.list_jobs(), Err(ServiceError::Internal(StoreError::NotConnected))));
}

#[test]
fn store_connects_once_and_closes_once() {
    let mut db = DBManager::new();
    assert_eq!(db.current_state(), StoreState::Unconnected);
    assert_eq!(db.close(), Err(StoreError::NotConnected));
    assert_eq!(db.connect(), Ok(()));
    assert_eq!(db.connect(), Err(ConnectionError::AlreadyUsed));
    assert_eq!(db.close(), Ok(()));
    assert_eq!(db.current_state(), StoreState::Closed);
    assert_eq!(db.close(), Err(StoreError::AlreadyClosed));
    assert_eq!(db.connect(), Err(ConnectionError::AlreadyUsed));
    assert_eq!(db.write_one("late"), Err(StoreError::AlreadyClosed));
    assert!(matches!(db.read_all(), Err(StoreError::AlreadyClosed)));
}

#[test]
fn unreachable_store_refuses_connect() {
    let mut db = DBManager::new();
    db.set_reachable(false);
    assert_eq!(db.connect(), Err(ConnectionError::Unreachable));
    assert_eq!(db.current_state(), StoreState::Unconnected);
}

//! The request handler: the two service operations, run against a store
//! handle that the service holds.

use vstd::prelude::*;
use vstd::string::*;
use crate::store::{DBManager, Job, StoreError, StoreState, same_jobs, write_outcome};

verus! {

/// A job submission: the name the client chose.
pub struct JobRequest {
    pub name: String,
}

/// The acknowledgement of a submission.
pub struct JobReply {
    pub message: String,
}

/// The jobs the store holds, in the store's order.
pub struct JobList {
    pub job: Vec<Job>,
}

/// The error a client sees: a server error, caused by the store.
#[derive(Clone, Copy, Debug, PartialEq, Eq, Structural)]
pub enum ServiceError {
    Internal(StoreError),
}

/// The acknowledgement text for a submitted name: `Hello <name>!`.
pub open spec fn greeting(name: Seq<char>) -> Seq<char> {
    "Hello "@ + name + "!"@
}

/// What a submission does: `before` and `after` are the store around the
/// call, `name` the submitted name and `r` the result. One write is
/// attempted; on success the reply greets the name and the store holds one
/// more row with that name, under the next identifier; on failure the call
/// reports the store's error and the rows are as they were.
pub open spec fn submitted(
    before: DBManager,
    name: Seq<char>,
    after: DBManager,
    r: Result<JobReply, ServiceError>,
) -> bool {
    &&& after.state() == before.state()
    &&& after.reachable() == before.reachable()
    &&& after.fails_writes() == before.fails_writes()
    &&& after.fails_reads() == before.fails_reads()
    &&& match write_outcome(before.state(), before.fails_writes(), before.next_id()) {
        Ok(_) => {
            &&& r matches Ok(reply) && reply.message@ == greeting(name)
            &&& after.rows() == before.rows().push(after.rows().last())
            &&& after.rows().last().id == before.next_id()
            &&& after.rows().last().name@ == name
            &&& after.next_id() == before.next_id() + 1
        },
        Err(e) => {
            &&& r == Err::<JobReply, ServiceError>(ServiceError::Internal(e))
            &&& after.rows() == before.rows()
            &&& after.next_id() == before.next_id()
        },
    }
}

/// What a listing returns from `store`: every row, in order, or the
/// store's read error as a server error.
pub open spec fn listed(store: DBManager, r: Result<JobList, ServiceError>) -> bool {
    match store.read_all_outcome() {
        Ok(_) => r matches Ok(list) && same_jobs(list.job@, store.rows()),
        Err(e) => r == Err::<JobList, ServiceError>(ServiceError::Internal(e)),
    }
}

/// A store on which reads and writes succeed.
pub open spec fn working(store: DBManager) -> bool {
    &&& store.state() == StoreState::Connected
    &&& !store.fails_writes()
    &&& !store.fails_reads()
    &&& store.next_id() < u64::MAX
}

/// The service: answers submissions and listings from its store handle.
pub struct MyJobRunner {
    db_manager: DBManager,
}

impl MyJobRunner {
    /// The handle the service works against.
    pub closed spec fn store(&self) -> DBManager {
        self.db_manager
    }

    pub open spec fn wf(&self) -> bool {
        self.store().wf()
    }

    /// A service over the given handle.
    pub fn new(db_manager: DBManager) -> (r: Self)
        requires
            db_manager.wf(),
        ensures
            r.wf(),
            r.store() == db_manager,
    {
        Self { db_manager }
    }

    /// Read access to the handle.
    pub fn db_manager(&self) -> (r: &DBManager)
        ensures
            *r == self.store(),
    {
        &self.db_manager
    }

    /// Write access to the handle, for connecting, closing and the failure
    /// switches.
    pub fn db_manager_mut(&mut self) -> (r: &mut DBManager)
        requires
            old(self).wf(),
        ensures
            *r == old(self).store(),
            final(r).wf() ==> final(self).wf(),
            final(self).store() == *final(r),
    {
        &mut self.db_manager
    }

    /// Submits a job: one write of the request's name to the store, then an
    /// acknowledgement that carries the name.
    ///
    /// When the write fails the call fails with a server error and the store
    /// is unchanged; there is no second attempt.
    pub fn send_job(&mut self, request: JobRequest) -> (r: Result<JobReply, ServiceError>)
        requires
            old(self).wf(),
        ensures
            final(self).wf(),
            submitted(old(self).store(), request.name@, final(self).store(), r),
    {
        match self.db_manager.write_one(request.name.as_str()) {
            Ok(()) => {
                proof {
                    let rows = self.db_manager.rows();
                    let n = old(self).store().rows().len() as int;
                    assert(rows =~= rows.take(n).push(rows.last()));
                }
                let message = String::from_str("Hello ").concat(request.name.as_str()).concat("!");
                Ok(JobReply { message })
            },
            Err(e) => Err(ServiceError::Internal(e)),
        }
    }

    /// Lists the jobs: one read of the whole store, with no caching.
    pub fn list_jobs(&self) -> (r: Result<JobList, ServiceError>)
        requires
            self.wf(),
        ensures
            r is Ok <==> (self.store().state() == StoreState::Connected && !self.store().fails_reads()),
            listed(self.store(), r),
    {
        match self.db_manager.read_all() {
            Ok(job) => Ok(JobList { job }),
            Err(e) => Err(ServiceError::Internal(e)),
        }
    }
}

} // verus!

verus! {

/// On a working store, a submission followed at once by a listing succeeds
/// twice, and the listing holds a job with the submitted name.
pub proof fn lemma_submitted_job_is_listed(
    before: DBManager,
    name: Seq<char>,
    after: DBManager,
    sent: Result<JobReply, ServiceError>,
    list: Result<JobList, ServiceError>,
)
    requires
        working(before),
        submitted(before, name, after, sent),
        listed(after, list),
    ensures
        sent is Ok,
        list matches Ok(l) && exists|i: int| 0 <= i < l.job@.len() && #[trigger] l.job@[i].name@ == name,
{
    let l = list->Ok_0;
    let i = after.rows().len() - 1;
    assert(after.rows()[i] == after.rows().last());
    assert(l.job@[i].id == after.rows()[i].id);
    assert(l.job@[i].name@ == name);
}

/// When the store's writes fail, a submission reports a server error and
/// the store holds as many rows as before.
pub proof fn lemma_failed_write_changes_nothing(
    before: DBManager,
    name: Seq<char>,
    after: DBManager,
    sent: Result<JobReply, ServiceError>,
)
    requires
        before.fails_writes(),
        submitted(before, name, after, sent),
    ensures
        sent matches Err(ServiceError::Internal(_)),
        after.rows().len() == before.rows().len(),
{
}

/// When the store's reads fail, a listing reports a server error.
pub proof fn lemma_failed_read_is_server_error(store: DBManager, list: Result<JobList, ServiceError>)
    requires
        store.fails_reads(),
        listed(store, list),
    ensures
        list matches Err(ServiceError::Internal(_)),
{
}

} // verus!

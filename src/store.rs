//! The store handle: one session to the job store, with an explicit
//! connection state and the rows it holds.

use vstd::prelude::*;
use vstd::string::*;

verus! {

/// One stored job: an identifier assigned by the store and a free-form name.
pub struct Job {
    pub id: u64,
    pub name: String,
}

/// Where a store handle stands in its life.
#[derive(Clone, Copy, Debug, PartialEq, Eq, Structural)]
pub enum StoreState {
    Unconnected,
    Connected,
    Closed,
}

/// Why a connection attempt failed.
#[derive(Clone, Copy, Debug, PartialEq, Eq, Structural)]
pub enum ConnectionError {
    /// The store cannot be reached.
    Unreachable,
    /// The handle was connected before; a handle connects at most once.
    AlreadyUsed,
}

/// Why a read, a write or a close failed.
#[derive(Clone, Copy, Debug, PartialEq, Eq, Structural)]
pub enum StoreError {
    /// The handle has not been connected yet.
    NotConnected,
    /// The handle has been closed; there is no way back.
    AlreadyClosed,
    /// The store refused the write.
    WriteFailed,
    /// The store refused the read.
    ReadFailed,
    /// Every identifier has been handed out.
    IdsExhausted,
}

/// A handle on the job store.
///
/// Reads and writes are valid only while the handle is `Connected`; `Closed`
/// is terminal. The store assigns identifiers in increasing order, so they
/// are unique. The two failure switches let a caller make the store's reads
/// or writes fail, and the reachability switch makes `connect` fail.
pub struct DBManager {
    state: StoreState,
    rows: Vec<Job>,
    next_id: u64,
    reachable: bool,
    fail_writes: bool,
    fail_reads: bool,
}

/// The identifiers of `rows` increase strictly and stay below `bound`.
pub open spec fn ids_ordered_below(rows: Seq<Job>, bound: u64) -> bool {
    &&& forall|i: int| 0 <= i < rows.len() ==> #[trigger] rows[i].id < bound
    &&& forall|i: int, j: int| 0 <= i < j < rows.len() ==> #[trigger] rows[i].id < #[trigger] rows[j].id
}

/// Two job sequences hold the same identifiers and names.
pub open spec fn same_jobs(a: Seq<Job>, b: Seq<Job>) -> bool {
    &&& a.len() == b.len()
    &&& forall|i: int| 0 <= i < a.len() ==> #[trigger] a[i].id == b[i].id && a[i].name@ == b[i].name@
}

impl DBManager {
    pub closed spec fn state(&self) -> StoreState {
        self.state
    }

    pub closed spec fn rows(&self) -> Seq<Job> {
        self.rows@
    }

    pub closed spec fn next_id(&self) -> u64 {
        self.next_id
    }

    pub closed spec fn reachable(&self) -> bool {
        self.reachable
    }

    pub closed spec fn fails_writes(&self) -> bool {
        self.fail_writes
    }

    pub closed spec fn fails_reads(&self) -> bool {
        self.fail_reads
    }

    /// The handle's invariant: identifiers are assigned in increasing order,
    /// from 1 up, and none is 0.
    pub closed spec fn wf(&self) -> bool {
        &&& self.next_id >= 1
        &&& ids_ordered_below(self.rows@, self.next_id)
        &&& forall|i: int| 0 <= i < self.rows@.len() ==> #[trigger] self.rows@[i].id >= 1
    }

    /// What a read returns, without its rows: the error, if any.
    pub open spec fn read_all_outcome(&self) -> Result<(), StoreError> {
        if self.state() != StoreState::Connected {
            Err(not_connected_error(self.state()))
        } else if self.fails_reads() {
            Err(StoreError::ReadFailed)
        } else {
            Ok(())
        }
    }

    /// A new, unconnected handle on an empty, reachable store that fails nothing.
    pub fn new() -> (r: DBManager)
        ensures
            r.wf(),
            r.state() == StoreState::Unconnected,
            r.rows().len() == 0,
            r.next_id() == 1,
            r.reachable(),
            !r.fails_writes(),
            !r.fails_reads(),
    {
        DBManager {
            state: StoreState::Unconnected,
            rows: Vec::new(),
            next_id: 1,
            reachable: true,
            fail_writes: false,
            fail_reads: false,
        }
    }

    /// The state the handle is in.
    pub fn current_state(&self) -> (r: StoreState)
        ensures
            r == self.state(),
    {
        self.state
    }

    /// The number of rows the store holds.
    pub fn row_count(&self) -> (r: usize)
        ensures
            r == self.rows().len(),
    {
        self.rows.len()
    }

    /// Opens the session. Succeeds exactly when the handle is unconnected and
    /// the store is reachable; on failure nothing changes.
    pub fn connect(&mut self) -> (r: Result<(), ConnectionError>)
        requires
            old(self).wf(),
        ensures
            final(self).wf(),
            final(self).rows() == old(self).rows(),
            final(self).next_id() == old(self).next_id(),
            final(self).reachable() == old(self).reachable(),
            final(self).fails_writes() == old(self).fails_writes(),
            final(self).fails_reads() == old(self).fails_reads(),
            old(self).state() != StoreState::Unconnected ==> r == Err::<(), ConnectionError>(
                ConnectionError::AlreadyUsed,
            ),
            old(self).state() == StoreState::Unconnected && !old(self).reachable() ==> r == Err::<
                (),
                ConnectionError,
            >(ConnectionError::Unreachable),
            r is Ok <==> (old(self).state() == StoreState::Unconnected && old(self).reachable()),
            r is Ok ==> final(self).state() == StoreState::Connected,
            r is Err ==> final(self).state() == old(self).state(),
    {
        if self.state != StoreState::Unconnected {
            return Err(ConnectionError::AlreadyUsed);
        }
        if !self.reachable {
            return Err(ConnectionError::Unreachable);
        }
        self.state = StoreState::Connected;
        Ok(())
    }

    /// The error a read or a write meets in a state other than `Connected`.
    fn state_error(&self) -> (r: StoreError)
        requires
            self.state() != StoreState::Connected,
        ensures
            r == not_connected_error(self.state()),
    {
        if self.state == StoreState::Closed {
            StoreError::AlreadyClosed
        } else {
            StoreError::NotConnected
        }
    }

    /// Stores one job with the given name under the next identifier.
    ///
    /// On success the store holds one more row, at the end; on any failure
    /// the handle is unchanged.
    pub fn write_one(&mut self, name: &str) -> (r: Result<(), StoreError>)
        requires
            old(self).wf(),
        ensures
            final(self).wf(),
            final(self).state() == old(self).state(),
            final(self).reachable() == old(self).reachable(),
            final(self).fails_writes() == old(self).fails_writes(),
            final(self).fails_reads() == old(self).fails_reads(),
            r == write_outcome(old(self).state(), old(self).fails_writes(), old(self).next_id()),
            r is Ok ==> {
                &&& final(self).rows().len() == old(self).rows().len() + 1
                &&& final(self).rows().take(old(self).rows().len() as int) == old(self).rows()
                &&& final(self).rows().last().id == old(self).next_id()
                &&& final(self).rows().last().name@ == name@
                &&& final(self).next_id() == old(self).next_id() + 1
            },
            r is Err ==> final(self).rows() == old(self).rows() && final(self).next_id() == old(
                self,
            ).next_id(),
    {
        if self.state != StoreState::Connected {
            return Err(self.state_error());
        }
        if self.fail_writes {
            return Err(StoreError::WriteFailed);
        }
        if self.next_id == u64::MAX {
            return Err(StoreError::IdsExhausted);
        }
        let ghost before = self.rows@;
        let id = self.next_id;
        self.rows.push(Job { id, name: String::from_str(name) });
        self.next_id = id + 1;
        proof {
            assert(self.rows@.take(before.len() as int) =~= before);
            assert forall|i: int, j: int| 0 <= i < j < self.rows@.len() implies #[trigger] self.rows@[i].id
                < #[trigger] self.rows@[j].id by {
                if j < before.len() {
                    assert(before[i].id < before[j].id);
                } else {
                    assert(before[i].id < id);
                }
            }
        }
        Ok(())
    }

    /// Reads every row the store holds, in the store's order.
    pub fn read_all(&self) -> (r: Result<Vec<Job>, StoreError>)
        requires
            self.wf(),
        ensures
            r is Ok <==> (self.state() == StoreState::Connected && !self.fails_reads()),
            self.state() != StoreState::Connected ==> r == Err::<Vec<Job>, StoreError>(
                not_connected_error(self.state()),
            ),
            self.state() == StoreState::Connected && self.fails_reads() ==> r == Err::<
                Vec<Job>,
                StoreError,
            >(StoreError::ReadFailed),
            r matches Ok(jobs) ==> same_jobs(jobs@, self.rows()),
    {
        if self.state != StoreState::Connected {
            return Err(self.state_error());
        }
        if self.fail_reads {
            return Err(StoreError::ReadFailed);
        }
        let mut out: Vec<Job> = Vec::new();
        let mut i: usize = 0;
        while i < self.rows.len()
            invariant
                i <= self.rows@.len(),
                same_jobs(out@, self.rows@.take(i as int)),
            decreases self.rows@.len() - i,
        {
            let job = &self.rows[i];
            out.push(Job { id: job.id, name: job.name.clone() });
            i += 1;
        }
        proof {
            assert(self.rows@.take(i as int) =~= self.rows@);
        }
        Ok(out)
    }

    /// Ends the session. Valid only while connected; a closed handle stays
    /// closed, and a second close fails with `AlreadyClosed`.
    pub fn close(&mut self) -> (r: Result<(), StoreError>)
        requires
            old(self).wf(),
        ensures
            final(self).wf(),
            final(self).rows() == old(self).rows(),
            final(self).next_id() == old(self).next_id(),
            final(self).reachable() == old(self).reachable(),
            final(self).fails_writes() == old(self).fails_writes(),
            final(self).fails_reads() == old(self).fails_reads(),
            old(self).state() == StoreState::Connected ==> r is Ok && final(self).state()
                == StoreState::Closed,
            old(self).state() != StoreState::Connected ==> r == Err::<(), StoreError>(
                not_connected_error(old(self).state()),
            ) && final(self).state() == old(self).state(),
    {
        if self.state != StoreState::Connected {
            return Err(self.state_error());
        }
        self.state = StoreState::Closed;
        Ok(())
    }

    /// Makes the store reachable or not for a later `connect`.
    pub fn set_reachable(&mut self, reachable: bool)
        requires
            old(self).wf(),
        ensures
            final(self).wf(),
            final(self).reachable() == reachable,
            final(self).state() == old(self).state(),
            final(self).rows() == old(self).rows(),
            final(self).next_id() == old(self).next_id(),
            final(self).fails_writes() == old(self).fails_writes(),
            final(self).fails_reads() == old(self).fails_reads(),
    {
        self.reachable = reachable;
    }

    /// Makes every later write fail, or succeed again.
    pub fn set_fail_writes(&mut self, fail: bool)
        requires
            old(self).wf(),
        ensures
            final(self).wf(),
            final(self).fails_writes() == fail,
            final(self).state() == old(self).state(),
            final(self).rows() == old(self).rows(),
            final(self).next_id() == old(self).next_id(),
            final(self).reachable() == old(self).reachable(),
            final(self).fails_reads() == old(self).fails_reads(),
    {
        self.fail_writes = fail;
    }

    /// Makes every later read fail, or succeed again.
    pub fn set_fail_reads(&mut self, fail: bool)
        requires
            old(self).wf(),
        ensures
            final(self).wf(),
            final(self).fails_reads() == fail,
            final(self).state() == old(self).state(),
            final(self).rows() == old(self).rows(),
            final(self).next_id() == old(self).next_id(),
            final(self).reachable() == old(self).reachable(),
            final(self).fails_writes() == old(self).fails_writes(),
    {
        self.fail_reads = fail;
    }
}

/// The error of a read, write or close on a handle that is not connected.
pub open spec fn not_connected_error(s: StoreState) -> StoreError {
    if s == StoreState::Closed {
        StoreError::AlreadyClosed
    } else {
        StoreError::NotConnected
    }
}

/// What a write returns, from the handle's state, its write switch and the
/// next identifier.
pub open spec fn write_outcome(s: StoreState, fail_writes: bool, next_id: u64) -> Result<(), StoreError> {
    if s != StoreState::Connected {
        Err(not_connected_error(s))
    } else if fail_writes {
        Err(StoreError::WriteFailed)
    } else if next_id == u64::MAX {
        Err(StoreError::IdsExhausted)
    } else {
        Ok(())
    }
}

} // verus!

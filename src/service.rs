//! The whole server minus its transport: the lifecycle controller together
//! with the request handler and the store handle it owns. Connecting and
//! closing the store happen here, in the order the lifecycle dictates.

use vstd::prelude::*;
use crate::lifecycle::{Action, Event, Lifecycle, LifecycleState, Phase, initial, next, valid};
use crate::server::{JobList, JobReply, JobRequest, MyJobRunner, ServiceError, listed, submitted};
use crate::store::{ConnectionError, DBManager, StoreState};

verus! {

/// The store's state that goes with a lifecycle state: unconnected before
/// serving, connected while serving and draining, closed once the close was
/// ordered.
pub open spec fn store_state_for(s: LifecycleState) -> StoreState {
    if s.closes == 1 {
        StoreState::Closed
    } else if s.served {
        if s.phase == Phase::Stopped {
            StoreState::Closed
        } else {
            StoreState::Connected
        }
    } else {
        StoreState::Unconnected
    }
}

/// A job server: its lifecycle and the service it runs.
pub struct JobServer {
    lifecycle: Lifecycle,
    runner: MyJobRunner,
}

impl JobServer {
    /// The lifecycle's state.
    pub closed spec fn state(&self) -> LifecycleState {
        self.lifecycle@
    }

    /// The store the service works against.
    pub closed spec fn store(&self) -> DBManager {
        self.runner.store()
    }

    /// The server's invariant: a valid lifecycle, a well-formed store, and a
    /// store state that matches the lifecycle's.
    pub closed spec fn wf(&self) -> bool {
        &&& valid(self.lifecycle@)
        &&& self.runner.wf()
        &&& self.runner.store().state() == store_state_for(self.lifecycle@)
    }

    /// A server that has not started, over an unconnected store.
    pub fn new(db_manager: DBManager) -> (r: JobServer)
        requires
            db_manager.wf(),
            db_manager.state() == StoreState::Unconnected,
        ensures
            r.wf(),
            r.state() == initial(),
            r.store() == db_manager,
    {
        JobServer { lifecycle: Lifecycle::new(), runner: MyJobRunner::new(db_manager) }
    }

    /// The current phase.
    pub fn phase(&self) -> (r: Phase)
        ensures
            r == self.state().phase,
    {
        self.lifecycle.phase()
    }

    /// The number of requests accepted and not finished.
    pub fn in_flight(&self) -> (r: u64)
        ensures
            r == self.state().in_flight,
    {
        self.lifecycle.in_flight()
    }

    /// The state of the store connection.
    pub fn store_state(&self) -> (r: StoreState)
        ensures
            r == self.store().state(),
    {
        self.runner.db_manager().current_state()
    }

    /// Starts the server: connects the store, then serves. A failed connect
    /// stops the server at once and is returned.
    pub fn start(&mut self) -> (r: Result<(), ConnectionError>)
        requires
            old(self).wf(),
            old(self).state().phase == Phase::Init,
        ensures
            final(self).wf(),
            final(self).store().rows() == old(self).store().rows(),
            r is Ok <==> old(self).store().reachable(),
            r is Ok ==> final(self).state().phase == Phase::Serving && final(self).store().state()
                == StoreState::Connected,
            r is Err ==> r == Err::<(), ConnectionError>(ConnectionError::Unreachable)
                && final(self).state().phase == Phase::Stopped,
    {
        let a = self.lifecycle.step(Event::Start);
        assert(a == Action::ConnectStore);
        match self.runner.db_manager_mut().connect() {
            Ok(()) => {
                self.lifecycle.step(Event::ConnectSucceeded);
                Ok(())
            },
            Err(e) => {
                self.lifecycle.step(Event::ConnectFailed);
                Err(e)
            },
        }
    }

    /// Closes the store, whose close the lifecycle has just ordered, and
    /// takes in that the close has returned. Gives the exit code.
    fn close_store(&mut self) -> (r: u8)
        requires
            old(self).runner.wf(),
            valid(old(self).lifecycle@),
            old(self).lifecycle@.phase == Phase::ShuttingDown,
            old(self).lifecycle@.closes == 1,
            old(self).runner.store().state() == StoreState::Connected,
        ensures
            final(self).wf(),
            final(self).lifecycle@ == next(old(self).lifecycle@, Event::CloseFinished).0,
            final(self).store().state() == StoreState::Closed,
            final(self).store().rows() == old(self).store().rows(),
            r == 0,
    {
        let _ = self.runner.db_manager_mut().close();
        let a = self.lifecycle.step(Event::CloseFinished);
        assert(a == Action::Exit(0));
        0
    }

    /// Accepts a request or refuses it: only a serving server accepts.
    pub fn accept_request(&mut self) -> (r: bool)
        requires
            old(self).wf(),
        ensures
            final(self).wf(),
            final(self).store() == old(self).store(),
            (final(self).state(), if r {
                Action::Dispatch
            } else {
                Action::Reject
            }) == next(old(self).state(), Event::RequestArrived),
    {
        let a = self.lifecycle.step(Event::RequestArrived);
        a == Action::Dispatch
    }

    /// Takes in that an accepted request has finished. When it was the last
    /// one of a drain, the store is closed and the exit code is returned.
    pub fn finish(&mut self) -> (r: Option<u8>)
        requires
            old(self).wf(),
        ensures
            final(self).wf(),
            final(self).store().rows() == old(self).store().rows(),
            next(old(self).state(), Event::RequestFinished).1 == Action::CloseStore ==> {
                &&& old(self).store().state() == StoreState::Connected
                &&& final(self).store().state() == StoreState::Closed
                &&& final(self).state() == next(
                    next(old(self).state(), Event::RequestFinished).0,
                    Event::CloseFinished,
                ).0
                &&& r == Some(0u8)
            },
            next(old(self).state(), Event::RequestFinished).1 != Action::CloseStore ==> {
                &&& final(self).store() == old(self).store()
                &&& final(self).state() == next(old(self).state(), Event::RequestFinished).0
                &&& r is None
            },
    {
        let a = self.lifecycle.step(Event::RequestFinished);
        if a == Action::CloseStore {
            Some(self.close_store())
        } else {
            None
        }
    }

    /// Takes in the termination signal: from then on no request is accepted.
    /// When nothing is in flight the store is closed at once and the exit
    /// code is returned; otherwise the last request to finish closes it.
    pub fn terminate(&mut self) -> (r: Option<u8>)
        requires
            old(self).wf(),
        ensures
            final(self).wf(),
            final(self).store().rows() == old(self).store().rows(),
            next(old(self).state(), Event::TerminateSignal).1 == Action::CloseStore ==> {
                &&& old(self).store().state() == StoreState::Connected
                &&& final(self).store().state() == StoreState::Closed
                &&& final(self).state() == next(
                    next(old(self).state(), Event::TerminateSignal).0,
                    Event::CloseFinished,
                ).0
                &&& r == Some(0u8)
            },
            next(old(self).state(), Event::TerminateSignal).1 != Action::CloseStore ==> {
                &&& final(self).store() == old(self).store()
                &&& final(self).state() == next(old(self).state(), Event::TerminateSignal).0
                &&& r is None
            },
    {
        let a = self.lifecycle.step(Event::TerminateSignal);
        if a == Action::CloseStore {
            Some(self.close_store())
        } else {
            None
        }
    }

    /// Runs a submission against the store.
    pub fn submit(&mut self, request: JobRequest) -> (r: Result<JobReply, ServiceError>)
        requires
            old(self).wf(),
        ensures
            final(self).wf(),
            final(self).state() == old(self).state(),
            submitted(old(self).store(), request.name@, final(self).store(), r),
    {
        self.runner.send_job(request)
    }

    /// Runs a listing against the store.
    pub fn list(&self) -> (r: Result<JobList, ServiceError>)
        requires
            self.wf(),
        ensures
            listed(self.store(), r),
    {
        self.runner.list_jobs()
    }
}

} // verus!

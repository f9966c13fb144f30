//! Request and job counters of the server.
//!
//! Every counter steps with wrap-around on overflow, as the server's atomic
//! counters do; the spec functions below name those steps.

use vstd::prelude::*;

verus! {

/// `x + 1` with wrap-around at the top of `usize`.
pub open spec fn usize_inc(x: usize) -> usize {
    if x == usize::MAX { 0 } else { (x + 1) as usize }
}

/// `x - 1` with wrap-around at zero.
pub open spec fn usize_dec(x: usize) -> usize {
    if x == 0 { usize::MAX } else { (x - 1) as usize }
}

/// `x + 1` with wrap-around at the top of `u64`.
pub open spec fn u64_inc(x: u64) -> u64 {
    if x == u64::MAX { 0 } else { (x + 1) as u64 }
}

fn next_usize(x: usize) -> (r: usize)
    ensures
        r == usize_inc(x),
{
    x.wrapping_add(1)
}

fn prev_usize(x: usize) -> (r: usize)
    ensures
        r == usize_dec(x),
{
    x.wrapping_sub(1)
}

fn next_u64(x: u64) -> (r: u64)
    ensures
        r == u64_inc(x),
{
    x.wrapping_add(1)
}

/// The server's counters: jobs waiting in the queue, jobs being worked on,
/// and requests received, rejected and completed.
#[derive(Clone, Copy, Debug, PartialEq, Eq)]
pub struct ServerMetrics {
    pub queued_jobs: usize,
    pub active_jobs: usize,
    pub total_requests: u64,
    pub rejected_requests: u64,
    pub completed_requests: u64,
}

impl ServerMetrics {
    /// The counters after a request has arrived.
    pub open spec fn with_request(self) -> ServerMetrics {
        ServerMetrics { total_requests: u64_inc(self.total_requests), ..self }
    }

    /// The counters after a request was turned away.
    pub open spec fn with_rejection(self) -> ServerMetrics {
        ServerMetrics { rejected_requests: u64_inc(self.rejected_requests), ..self }
    }

    /// The counters after a job entered the queue.
    pub open spec fn with_queued(self) -> ServerMetrics {
        ServerMetrics { queued_jobs: usize_inc(self.queued_jobs), ..self }
    }

    /// The counters after a job left the queue for a worker.
    pub open spec fn with_dispatch(self) -> ServerMetrics {
        ServerMetrics {
            queued_jobs: usize_dec(self.queued_jobs),
            active_jobs: usize_inc(self.active_jobs),
            ..self
        }
    }

    /// The counters after a worker finished; `completed` when it produced a
    /// reconstruction.
    pub open spec fn with_job_end(self, completed: bool) -> ServerMetrics {
        ServerMetrics {
            active_jobs: usize_dec(self.active_jobs),
            completed_requests: if completed {
                u64_inc(self.completed_requests)
            } else {
                self.completed_requests
            },
            ..self
        }
    }

    /// All counters at zero.
    pub fn new() -> (m: Self)
        ensures
            m.queued_jobs == 0,
            m.active_jobs == 0,
            m.total_requests == 0,
            m.rejected_requests == 0,
            m.completed_requests == 0,
    {
        ServerMetrics {
            queued_jobs: 0,
            active_jobs: 0,
            total_requests: 0,
            rejected_requests: 0,
            completed_requests: 0,
        }
    }

    /// A request has arrived.
    pub fn record_request(&mut self)
        ensures
            *final(self) == old(self).with_request(),
    {
        self.total_requests = next_u64(self.total_requests);
    }

    /// A request was turned away.
    pub fn record_rejection(&mut self)
        ensures
            *final(self) == old(self).with_rejection(),
    {
        self.rejected_requests = next_u64(self.rejected_requests);
    }

    /// A job was put into the queue.
    pub fn record_queued(&mut self)
        ensures
            *final(self) == old(self).with_queued(),
    {
        self.queued_jobs = next_usize(self.queued_jobs);
    }

    /// The dispatcher took a job from the queue and handed it to a worker.
    pub fn record_dispatch(&mut self)
        ensures
            *final(self) == old(self).with_dispatch(),
    {
        self.queued_jobs = prev_usize(self.queued_jobs);
        self.active_jobs = next_usize(self.active_jobs);
    }

    /// A worker finished its job; `completed` tells whether it produced a
    /// reconstruction (only those count as completed requests).
    pub fn record_job_end(&mut self, completed: bool)
        ensures
            *final(self) == old(self).with_job_end(completed),
    {
        self.active_jobs = prev_usize(self.active_jobs);
        if completed {
            self.completed_requests = next_u64(self.completed_requests);
        }
    }
}

/// A request that is queued, dispatched and completed leaves the queue and
/// the number of active jobs as they were, and counts once among the
/// received and once among the completed requests.
pub proof fn lemma_completed_request_lifecycle(m: ServerMetrics)
    ensures
        m.with_request().with_queued().with_dispatch().with_job_end(true) == (ServerMetrics {
            total_requests: u64_inc(m.total_requests),
            completed_requests: u64_inc(m.completed_requests),
            ..m
        }),
{
}

/// A request that is queued and dispatched but whose job fails leaves the
/// queue, the active jobs and the completed count as they were.
pub proof fn lemma_failed_job_lifecycle(m: ServerMetrics)
    ensures
        m.with_request().with_queued().with_dispatch().with_job_end(false) == (ServerMetrics {
            total_requests: u64_inc(m.total_requests),
            ..m
        }),
{
}

/// A step up and a step down of a counter cancel each other, wrap-around
/// included.
pub proof fn lemma_inc_dec_inverse(x: usize)
    ensures
        usize_dec(usize_inc(x)) == x,
        usize_inc(usize_dec(x)) == x,
{
}

} // verus!

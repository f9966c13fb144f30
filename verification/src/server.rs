//! The server's decisions around a reconstruction request: which models and
//! algorithms it serves, when a request is turned away and with which HTTP
//! status, how a worker's reply is judged, and how large the worker pool and
//! the job queue are.

use vstd::prelude::*;
use vstd::string::*;

use crate::metrics::ServerMetrics;
use crate::text::str_equals;

verus! {

/// Size, in MB, of the memory one queued job is budgeted.
pub const MEMORY_UNIT_MB: u64 = 512;

/// Why a request ends without a reconstruction, as the HTTP answer gives it.
#[derive(Clone, Copy, Debug, PartialEq, Eq)]
pub enum RequestError {
    /// 400: unsupported model, or the worker could not reconstruct.
    BadRequest,
    /// 503: the job queue is full or closed.
    ServiceUnavailable,
    /// 500: the worker went away without answering.
    InternalServerError,
}

/// The HTTP status code of each refusal.
pub open spec fn status_code_of(e: RequestError) -> u16 {
    match e {
        RequestError::BadRequest => 400,
        RequestError::ServiceUnavailable => 503,
        RequestError::InternalServerError => 500,
    }
}

impl RequestError {
    /// The HTTP status code sent back for this refusal.
    pub fn status_code(&self) -> (code: u16)
        ensures
            code == status_code_of(*self),
    {
        match self {
            RequestError::BadRequest => 400,
            RequestError::ServiceUnavailable => 503,
            RequestError::InternalServerError => 500,
        }
    }
}

/// The model of a 30 by 30 pixel image.
pub open spec fn model_30x30() -> Seq<char> {
    seq!['3', '0', 'x', '3', '0']
}

/// The model of a 60 by 60 pixel image.
pub open spec fn model_60x60() -> Seq<char> {
    seq!['6', '0', 'x', '6', '0']
}

/// The models the server reconstructs.
pub open spec fn supported_model(model_id: Seq<char>) -> bool {
    model_id == model_30x30() || model_id == model_60x60()
}

/// Image size (height, width) of each supported model.
pub open spec fn model_pixels(model_id: Seq<char>) -> Option<(usize, usize)> {
    if model_id == model_30x30() {
        Some((30usize, 30usize))
    } else if model_id == model_60x60() {
        Some((60usize, 60usize))
    } else {
        None
    }
}

/// Reconstruction algorithms the workers run.
#[derive(Clone, Copy, Debug, PartialEq, Eq)]
pub enum Algorithm {
    /// Conjugate gradient on the normal equations, residual form.
    Cgnr,
    /// Conjugate gradient on the normal equations, error form.
    Cgne,
}

/// The algorithm an algorithm id names, if any.
pub open spec fn algorithm_named(algorithm_id: Seq<char>) -> Option<Algorithm> {
    if algorithm_id == seq!['C', 'G', 'N', 'R'] {
        Some(Algorithm::Cgnr)
    } else if algorithm_id == seq!['C', 'G', 'N', 'E'] {
        Some(Algorithm::Cgne)
    } else {
        None
    }
}

/// Whether the server reconstructs images of this model.
pub fn is_supported_model(model_id: &str) -> (r: bool)
    ensures
        r == supported_model(model_id@),
{
    proof {
        reveal_strlit("30x30");
        reveal_strlit("60x60");
    }
    let small = str_equals(model_id, "30x30");
    let large = str_equals(model_id, "60x60");
    assert("30x30"@ =~= model_30x30());
    assert("60x60"@ =~= model_60x60());
    small || large
}

/// The image size (height, width) of a model, or `None` for a model the
/// server does not serve.
pub fn image_pixels_for_model(model_id: &str) -> (r: Option<(usize, usize)>)
    ensures
        r == model_pixels(model_id@),
{
    proof {
        reveal_strlit("30x30");
        reveal_strlit("60x60");
    }
    assert("30x30"@ =~= model_30x30());
    assert("60x60"@ =~= model_60x60());
    if str_equals(model_id, "30x30") {
        Some((30, 30))
    } else if str_equals(model_id, "60x60") {
        Some((60, 60))
    } else {
        None
    }
}

/// The name of the file that holds the model matrix: `H-<model>.csv`.
pub fn h_matrix_file_name(model_id: &str) -> (name: String)
    ensures
        name@ == seq!['H', '-'] + model_id@ + seq!['.', 'c', 's', 'v'],
{
    proof {
        reveal_strlit("H-");
        reveal_strlit(".csv");
    }
    let mut name = String::new();
    name.append("H-");
    name.append(model_id);
    name.append(".csv");
    assert(name@ =~= seq!['H', '-'] + model_id@ + seq!['.', 'c', 's', 'v']);
    name
}

/// The algorithm an algorithm id names, or `None` when the id is unknown.
pub fn select_algorithm(algorithm_id: &str) -> (r: Option<Algorithm>)
    ensures
        r == algorithm_named(algorithm_id@),
{
    proof {
        reveal_strlit("CGNR");
        reveal_strlit("CGNE");
    }
    assert("CGNR"@ =~= seq!['C', 'G', 'N', 'R']);
    assert("CGNE"@ =~= seq!['C', 'G', 'N', 'E']);
    if str_equals(algorithm_id, "CGNR") {
        Some(Algorithm::Cgnr)
    } else if str_equals(algorithm_id, "CGNE") {
        Some(Algorithm::Cgne)
    } else {
        None
    }
}

/// The counters after a request for `model_id` was checked.
pub open spec fn metrics_after_admission(m: ServerMetrics, model_id: Seq<char>) -> ServerMetrics {
    if supported_model(model_id) {
        m.with_request()
    } else {
        m.with_request().with_rejection()
    }
}

/// The counters after the attempt to queue a job.
pub open spec fn metrics_after_enqueue(m: ServerMetrics, enqueued: bool) -> ServerMetrics {
    if enqueued {
        m.with_queued()
    } else {
        m.with_rejection()
    }
}

/// Counts an incoming request and checks its model: a request for a model
/// the server does not serve is counted as rejected and answered 400.
pub fn admit_request(metrics: &mut ServerMetrics, model_id: &str) -> (r: Result<(), RequestError>)
    ensures
        r is Ok <==> supported_model(model_id@),
        r is Err ==> r == Err::<(), RequestError>(RequestError::BadRequest),
        *final(metrics) == metrics_after_admission(*old(metrics), model_id@),
{
    metrics.record_request();
    if is_supported_model(model_id) {
        Ok(())
    } else {
        metrics.record_rejection();
        Err(RequestError::BadRequest)
    }
}

/// Accounts for the attempt to put a job in the queue: a queued job is
/// counted as queued; a full or closed queue rejects the request with 503.
pub fn record_enqueue(metrics: &mut ServerMetrics, enqueued: bool) -> (r: Result<(), RequestError>)
    ensures
        r is Ok <==> enqueued,
        !enqueued ==> r == Err::<(), RequestError>(RequestError::ServiceUnavailable),
        *final(metrics) == metrics_after_enqueue(*old(metrics), enqueued),
{
    if enqueued {
        metrics.record_queued();
        Ok(())
    } else {
        metrics.record_rejection();
        Err(RequestError::ServiceUnavailable)
    }
}

/// What the request handler reads of a worker's result.
#[derive(Clone, Copy, Debug, PartialEq, Eq)]
pub struct ResultSummary {
    pub reconstruction_time_ms: i64,
    pub image_pixels: (usize, usize),
    pub iterations: usize,
    /// Number of entries of the reconstructed image vector.
    pub f_len: usize,
}

impl ResultSummary {
    /// A worker result marks a failure when it ran no iteration, took no
    /// time and holds no image.
    pub open spec fn marks_failure(self) -> bool {
        self.iterations == 0 && self.reconstruction_time_ms == 0 && self.f_len == 0
    }

    /// Whether this result is the one a worker sends when it fails.
    pub fn is_worker_error(&self) -> (r: bool)
        ensures
            r == self.marks_failure(),
    {
        self.iterations == 0 && self.reconstruction_time_ms == 0 && self.f_len == 0
    }
}

/// The fields of the result a worker sends back when it cannot
/// reconstruct: no time, no pixels, no iteration, an empty image.
pub fn error_summary() -> (s: ResultSummary)
    ensures
        s.reconstruction_time_ms == 0,
        s.image_pixels == (0usize, 0usize),
        s.iterations == 0,
        s.f_len == 0,
{
    ResultSummary { reconstruction_time_ms: 0, image_pixels: (0, 0), iterations: 0, f_len: 0 }
}

/// The answer owed to a queued request once the worker has replied
/// (`Some`) or its reply channel has closed (`None`).
pub open spec fn reply_outcome(reply: Option<ResultSummary>) -> Result<(), RequestError> {
    match reply {
        None => Err(RequestError::InternalServerError),
        Some(s) => if s.marks_failure() {
            Err(RequestError::BadRequest)
        } else {
            Ok(())
        },
    }
}

/// The answer to a queued request once the worker has replied (`Some`) or
/// its reply channel has closed (`None`): 500 without a reply, 400 for a
/// failure result, success otherwise.
pub fn classify_reply(reply: Option<ResultSummary>) -> (r: Result<(), RequestError>)
    ensures
        r == reply_outcome(reply),
{
    match reply {
        None => Err(RequestError::InternalServerError),
        Some(s) => {
            if s.is_worker_error() {
                Err(RequestError::BadRequest)
            } else {
                Ok(())
            }
        },
    }
}

/// Whole mebibytes in a number of bytes.
pub fn bytes_to_mb(bytes: u64) -> (mb: u64)
    ensures
        mb == bytes / 1024 / 1024,
{
    bytes / 1024 / 1024
}

/// Number of queued jobs the memory of the machine is budgeted for: one per
/// `MEMORY_UNIT_MB`, and at least one.
pub open spec fn memory_units(total_memory_bytes: u64) -> u64 {
    let units = total_memory_bytes / 1024 / 1024 / 512;
    if units < 1 { 1 } else { units }
}

/// How many workers may run at once and how many jobs may wait.
#[derive(Clone, Copy, Debug, PartialEq, Eq)]
pub struct ServerCapacity {
    pub thread_limit: usize,
    pub queue_capacity: usize,
}

/// Sizes the worker pool by the number of CPUs and the job queue by the
/// machine's memory, each at least one.
pub fn server_capacity(total_memory_bytes: u64, logical_cpus: usize) -> (c: ServerCapacity)
    ensures
        c.thread_limit == if logical_cpus < 1 { 1 } else { logical_cpus },
        c.thread_limit >= 1,
        c.queue_capacity == memory_units(total_memory_bytes) as usize,
        memory_units(total_memory_bytes) <= usize::MAX ==> c.queue_capacity >= 1,
        total_memory_bytes / 1024 / 1024 / 512 < 1 ==> c.queue_capacity == 1,
        total_memory_bytes / 1024 / 1024 / 512 >= 1 ==> c.queue_capacity == (total_memory_bytes / 1024
            / 1024 / 512) as usize,
{
    let total_ram_mb = bytes_to_mb(total_memory_bytes);
    let units_raw = total_ram_mb / MEMORY_UNIT_MB;
    let units = if units_raw < 1 { 1 } else { units_raw };
    let thread_limit = if logical_cpus < 1 { 1 } else { logical_cpus };
    ServerCapacity { thread_limit, queue_capacity: units as usize }
}

/// One queued job per whole 512 MiB of memory, and at least one, with no
/// upper bound: below 512 MiB there is one unit; from 512 MiB on, the
/// units are the largest `k` with `k * 512 MiB <= total`.
pub proof fn lemma_memory_units_per_512_mib(total_memory_bytes: u64)
    ensures
        memory_units(total_memory_bytes) >= 1,
        total_memory_bytes < 536870912 ==> memory_units(total_memory_bytes) == 1,
        total_memory_bytes >= 536870912 ==> {
            &&& memory_units(total_memory_bytes) * 536870912 <= total_memory_bytes
            &&& total_memory_bytes < (memory_units(total_memory_bytes) + 1) * 536870912
        },
{
    let b = total_memory_bytes as int;
    vstd::arithmetic::div_mod::lemma_div_denominator(b, 1024, 1024);
    vstd::arithmetic::div_mod::lemma_div_denominator(b, 1048576int, 512int);
    assert(b / 1024 / 1024 == b / 1048576);
    assert(b / 1024 / 1024 / 512 == b / 536870912);
    let q = b / 536870912;
    vstd::arithmetic::div_mod::lemma_fundamental_div_mod(b, 536870912);
    vstd::arithmetic::div_mod::lemma_mod_pos_bound(b, 536870912);
    if b < 536870912 {
        assert(q == 0) by (nonlinear_arith)
            requires
                b == 536870912 * q + b % 536870912,
                0 <= b % 536870912 < 536870912,
                0 <= b < 536870912,
        ;
    } else {
        assert(q >= 1) by (nonlinear_arith)
            requires
                b == 536870912 * q + b % 536870912,
                0 <= b % 536870912 < 536870912,
                b >= 536870912,
        ;
    }
}

/// The request handler accepts exactly the models for which the worker
/// knows an image size, so no admitted request fails on its model.
pub proof fn lemma_admission_matches_worker(model_id: Seq<char>)
    ensures
        supported_model(model_id) <==> model_pixels(model_id) is Some,
{
}

/// The result a failing worker sends (no time, no iteration, empty image)
/// is always answered 400.
pub proof fn lemma_error_result_is_bad_request(s: ResultSummary)
    requires
        s.reconstruction_time_ms == 0,
        s.iterations == 0,
        s.f_len == 0,
    ensures
        reply_outcome(Some(s)) == Err::<(), RequestError>(RequestError::BadRequest),
        status_code_of(RequestError::BadRequest) == 400,
{
}

/// A result with at least one iteration is answered with success.
pub proof fn lemma_iterated_result_is_success(s: ResultSummary)
    requires
        s.iterations >= 1,
    ensures
        reply_outcome(Some(s)) is Ok,
{
}

/// Every request is counted once among the received requests, and then
/// either once among the rejected ones or once in the queue, never both.
pub proof fn lemma_request_counted_once(m: ServerMetrics, model_id: Seq<char>, enqueued: bool)
    ensures
        ({
            let after = if supported_model(model_id) {
                metrics_after_enqueue(metrics_after_admission(m, model_id), enqueued)
            } else {
                metrics_after_admission(m, model_id)
            };
            &&& after.total_requests == crate::metrics::u64_inc(m.total_requests)
            &&& after.active_jobs == m.active_jobs
            &&& after.completed_requests == m.completed_requests
            &&& (after.rejected_requests == crate::metrics::u64_inc(m.rejected_requests)
                && after.queued_jobs == m.queued_jobs) != (after.rejected_requests
                == m.rejected_requests && after.queued_jobs == crate::metrics::usize_inc(
                m.queued_jobs,
            ))
            &&& (after.queued_jobs != m.queued_jobs <==> supported_model(model_id) && enqueued)
        }),
{
}

/// What happens to the counters, one event at a time.
pub enum MetricsEvent {
    /// A request for `model_id` arrives; if admitted, its job was queued
    /// (`enqueued`) or the queue refused it.
    Request { model_id: Seq<char>, enqueued: bool },
    /// The dispatcher hands a queued job to a worker.
    Dispatch,
    /// A worker finishes; `completed` when it sent a reconstruction.
    JobEnd { completed: bool },
}

/// The counters after `events`, starting from `m`.
pub open spec fn metrics_after_events(m: ServerMetrics, events: Seq<MetricsEvent>) -> ServerMetrics
    decreases events.len(),
{
    if events.len() == 0 {
        m
    } else {
        let before = metrics_after_events(m, events.drop_last());
        match events.last() {
            MetricsEvent::Request { model_id, enqueued } => if supported_model(model_id) {
                metrics_after_enqueue(metrics_after_admission(before, model_id), enqueued)
            } else {
                metrics_after_admission(before, model_id)
            },
            MetricsEvent::Dispatch => before.with_dispatch(),
            MetricsEvent::JobEnd { completed } => before.with_job_end(completed),
        }
    }
}

/// How many of `events` are requests.
pub open spec fn request_count(events: Seq<MetricsEvent>) -> nat
    decreases events.len(),
{
    if events.len() == 0 {
        0
    } else {
        request_count(events.drop_last()) + if events.last() is Request { 1nat } else { 0nat }
    }
}

/// How many of `events` are finished jobs.
pub open spec fn job_end_count(events: Seq<MetricsEvent>) -> nat
    decreases events.len(),
{
    if events.len() == 0 {
        0
    } else {
        job_end_count(events.drop_last()) + if events.last() is JobEnd { 1nat } else { 0nat }
    }
}

/// From fresh counters, over any sequence of requests, dispatches and job
/// ends with fewer than 2^64 requests (the counters wrap there): the
/// received count is the number of requests, the rejected count never
/// exceeds it, and the completed count never exceeds the finished jobs.
pub proof fn lemma_counters_over_events(events: Seq<MetricsEvent>)
    requires
        request_count(events) <= u64::MAX,
        job_end_count(events) <= u64::MAX,
    ensures
        ({
            let m = metrics_after_events(
                ServerMetrics {
                    queued_jobs: 0,
                    active_jobs: 0,
                    total_requests: 0,
                    rejected_requests: 0,
                    completed_requests: 0,
                },
                events,
            );
            &&& m.total_requests == request_count(events)
            &&& m.rejected_requests <= m.total_requests
            &&& m.completed_requests <= job_end_count(events)
        }),
    decreases events.len(),
{
    if events.len() > 0 {
        lemma_counters_over_events(events.drop_last());
    }
}

} // verus!

use recon_server::metrics::ServerMetrics;
use recon_server::semaphore::ThreadSemaphore;
use recon_server::server::{
    admit_request, bytes_to_mb, classify_reply, error_summary, h_matrix_file_name,
    image_pixels_for_model, is_supported_model, record_enqueue, select_algorithm,
    server_capacity, Algorithm, RequestError, ResultSummary,
};

#[test]
fn semaphore_counts_permits() {
    let mut s = ThreadSemaphore::new(2);
    assert_eq!(s.available(), 2);
    assert!(s.acquire());
    assert!(s.acquire());
    assert_eq!(s.available(), 0);
    assert!(!s.acquire());
    assert_eq!(s.available(), 0);
    s.release();
    assert_eq!(s.available(), 1);
}

#[test]
fn semaphore_acquire_then_release_restores() {
    let mut s = ThreadSemaphore::new(5);
    assert!(s.acquire());
    s.release();
    assert_eq!(s.available(), 5);
    s.release();
    assert!(s.acquire());
    assert_eq!(s.available(), 5);
}

#[test]
fn semaphore_with_no_permit_refuses() {
    let mut s = ThreadSemaphore::new(0);
    assert!(!s.acquire());
    assert_eq!(s.available(), 0);
}

#[test]
fn metrics_start_at_zero() {
    let m = ServerMetrics::new();
    assert_eq!(m.queued_jobs, 0);
    assert_eq!(m.active_jobs, 0);
    assert_eq!(m.total_requests, 0);
    assert_eq!(m.rejected_requests, 0);
    assert_eq!(m.completed_requests, 0);
}

#[test]
fn completed_request_lifecycle() {
    let mut m = ServerMetrics::new();
    assert_eq!(admit_request(&mut m, "30x30"), Ok(()));
    assert_eq!(record_enqueue(&mut m, true), Ok(()));
    assert_eq!(m.queued_jobs, 1);
    m.record_dispatch();
    assert_eq!(m.queued_jobs, 0);
    assert_eq!(m.active_jobs, 1);
    m.record_job_end(true);
    assert_eq!(m.active_jobs, 0);
    assert_eq!(m.total_requests, 1);
    assert_eq!(m.completed_requests, 1);
    assert_eq!(m.rejected_requests, 0);
}

#[test]
fn failed_job_is_not_completed() {
    let mut m = ServerMetrics::new();
    assert_eq!(admit_request(&mut m, "60x60"), Ok(()));
    assert_eq!(record_enqueue(&mut m, true), Ok(()));
    m.record_dispatch();
    m.record_job_end(false);
    assert_eq!(m.active_jobs, 0);
    assert_eq!(m.queued_jobs, 0);
    assert_eq!(m.completed_requests, 0);
    assert_eq!(m.total_requests, 1);
}

#[test]
fn dispatch_before_queued_count_wraps_back() {
    let mut m = ServerMetrics::new();
    m.record_dispatch();
    assert_eq!(m.queued_jobs, usize::MAX);
    m.record_queued();
    assert_eq!(m.queued_jobs, 0);
    assert_eq!(m.active_jobs, 1);
}

#[test]
fn unsupported_model_is_rejected_with_400() {
    let mut m = ServerMetrics::new();
    let r = admit_request(&mut m, "90x90");
    assert_eq!(r, Err(RequestError::BadRequest));
    assert_eq!(RequestError::BadRequest.status_code(), 400);
    assert_eq!(m.total_requests, 1);
    assert_eq!(m.rejected_requests, 1);
    assert_eq!(m.queued_jobs, 0);
}

#[test]
fn full_queue_is_rejected_with_503() {
    let mut m = ServerMetrics::new();
    assert_eq!(admit_request(&mut m, "30x30"), Ok(()));
    let r = record_enqueue(&mut m, false);
    assert_eq!(r, Err(RequestError::ServiceUnavailable));
    assert_eq!(RequestError::ServiceUnavailable.status_code(), 503);
    assert_eq!(m.rejected_requests, 1);
    assert_eq!(m.queued_jobs, 0);
    assert_eq!(m.total_requests, 1);
}

#[test]
fn lost_reply_is_500() {
    assert_eq!(classify_reply(None), Err(RequestError::InternalServerError));
    assert_eq!(RequestError::InternalServerError.status_code(), 500);
}

#[test]
fn error_result_is_400() {
    let s = error_summary();
    assert_eq!(s.reconstruction_time_ms, 0);
    assert_eq!(s.image_pixels, (0, 0));
    assert_eq!(s.iterations, 0);
    assert_eq!(s.f_len, 0);
    assert!(s.is_worker_error());
    assert_eq!(classify_reply(Some(s)), Err(RequestError::BadRequest));
}

#[test]
fn real_result_is_accepted() {
    let s = ResultSummary { reconstruction_time_ms: 0, image_pixels: (30, 30), iterations: 3, f_len: 900 };
    assert!(!s.is_worker_error());
    assert_eq!(classify_reply(Some(s)), Ok(()));
    let quick = ResultSummary { reconstruction_time_ms: 12, image_pixels: (0, 0), iterations: 0, f_len: 0 };
    assert_eq!(classify_reply(Some(quick)), Ok(()));
}

#[test]
fn supported_models_and_their_sizes() {
    assert!(is_supported_model("30x30"));
    assert!(is_supported_model("60x60"));
    assert!(!is_supported_model("30X30"));
    assert!(!is_supported_model(""));
    assert_eq!(image_pixels_for_model("30x30"), Some((30, 30)));
    assert_eq!(image_pixels_for_model("60x60"), Some((60, 60)));
    assert_eq!(image_pixels_for_model("60x60 "), None);
    for m in ["30x30", "60x60", "x", "30x300"] {
        assert_eq!(is_supported_model(m), image_pixels_for_model(m).is_some());
    }
}

#[test]
fn algorithms_by_id() {
    assert_eq!(select_algorithm("CGNR"), Some(Algorithm::Cgnr));
    assert_eq!(select_algorithm("CGNE"), Some(Algorithm::Cgne));
    assert_eq!(select_algorithm("cgnr"), None);
    assert_eq!(select_algorithm("SART"), None);
}

#[test]
fn model_matrix_file_name() {
    assert_eq!(h_matrix_file_name("30x30"), "H-30x30.csv");
    assert_eq!(h_matrix_file_name("60x60"), "H-60x60.csv");
}

#[test]
fn capacity_from_cpus_and_memory() {
    let gib: u64 = 1024 * 1024 * 1024;
    let c = server_capacity(16 * gib, 8);
    assert_eq!(c.thread_limit, 8);
    assert_eq!(c.queue_capacity, 32);
    let small = server_capacity(100 * 1024 * 1024, 0);
    assert_eq!(small.thread_limit, 1);
    assert_eq!(small.queue_capacity, 1);
    assert_eq!(server_capacity(1536 * 1024 * 1024 - 1, 3).queue_capacity, 2);
}

#[test]
fn megabytes_round_down() {
    assert_eq!(bytes_to_mb(0), 0);
    assert_eq!(bytes_to_mb(1024 * 1024 - 1), 0);
    assert_eq!(bytes_to_mb(5 * 1024 * 1024 + 7), 5);
}

#[test]
fn counters_over_many_requests() {
    let mut m = ServerMetrics::new();
    let models = ["30x30", "90x90", "60x60", "", "30x30"];
    for (i, model) in models.iter().enumerate() {
        if admit_request(&mut m, model).is_ok() {
            let _ = record_enqueue(&mut m, i % 2 == 0);
        }
        assert_eq!(m.total_requests, (i + 1) as u64);
        assert!(m.rejected_requests <= m.total_requests);
    }
    assert_eq!(m.rejected_requests, 2);
    assert_eq!(m.queued_jobs, 3);
}

#[test]
fn permits_count_releases_and_taken_acquires() {
    let mut s = ThreadSemaphore::new(2);
    let mut taken = 0usize;
    let mut released = 0usize;
    for step in 0..7 {
        if step % 3 == 2 {
            s.release();
            released += 1;
        } else if s.acquire() {
            taken += 1;
        }
        assert_eq!(s.available() + taken, 2 + released);
    }
}

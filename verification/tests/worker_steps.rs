use recon_server::server::Algorithm;
use recon_server::worker::{WorkerAction, WorkerEvent, WorkerJob, WorkerStage};

fn job(model: &str, algorithm: &str) -> WorkerJob {
    WorkerJob::new(model.to_string(), algorithm.to_string())
}

#[test]
fn successful_job_runs_every_step() {
    let mut j = job("30x30", "CGNE");
    assert_eq!(j.stage(), WorkerStage::Received);
    assert_eq!(j.step(WorkerEvent::Begin), Some(WorkerAction::LoadMatrix));
    assert_eq!(
        j.step(WorkerEvent::MatrixLoaded { ok: true }),
        Some(WorkerAction::Reconstruct { algorithm: Algorithm::Cgne, height: 30, width: 30 })
    );
    assert_eq!(j.step(WorkerEvent::Reconstructed), Some(WorkerAction::SaveImage));
    assert_eq!(
        j.step(WorkerEvent::ImageSaved { ok: false }),
        Some(WorkerAction::WriteReport { image_saved: false })
    );
    assert_eq!(j.step(WorkerEvent::ReportWritten), Some(WorkerAction::SendResult));
    assert_eq!(j.step(WorkerEvent::ReplySent), Some(WorkerAction::Finish { completed: true }));
    assert_eq!(j.stage(), WorkerStage::Finished);
    assert_eq!(j.step(WorkerEvent::ReplySent), None);
    assert_eq!(j.step(WorkerEvent::Begin), None);
}

#[test]
fn unknown_model_fails_before_reading() {
    let mut j = job("90x90", "CGNR");
    assert_eq!(j.step(WorkerEvent::Begin), Some(WorkerAction::SendError));
    assert_eq!(j.stage(), WorkerStage::SendingError);
    assert_eq!(j.step(WorkerEvent::ReplySent), Some(WorkerAction::Finish { completed: false }));
    assert_eq!(j.stage(), WorkerStage::Finished);
}

#[test]
fn unreadable_matrix_fails() {
    let mut j = job("60x60", "CGNR");
    assert_eq!(j.step(WorkerEvent::Begin), Some(WorkerAction::LoadMatrix));
    assert_eq!(j.stage(), WorkerStage::LoadingMatrix { height: 60, width: 60 });
    assert_eq!(j.step(WorkerEvent::MatrixLoaded { ok: false }), Some(WorkerAction::SendError));
    assert_eq!(j.step(WorkerEvent::ReplySent), Some(WorkerAction::Finish { completed: false }));
}

#[test]
fn unknown_algorithm_fails_after_reading() {
    let mut j = job("60x60", "ART");
    assert_eq!(j.step(WorkerEvent::Begin), Some(WorkerAction::LoadMatrix));
    assert_eq!(j.step(WorkerEvent::MatrixLoaded { ok: true }), Some(WorkerAction::SendError));
    assert_eq!(j.step(WorkerEvent::ReplySent), Some(WorkerAction::Finish { completed: false }));
}

#[test]
fn out_of_order_event_changes_nothing() {
    let mut j = job("30x30", "CGNR");
    assert_eq!(j.step(WorkerEvent::ReplySent), None);
    assert_eq!(j.stage(), WorkerStage::Received);
    assert_eq!(j.step(WorkerEvent::Begin), Some(WorkerAction::LoadMatrix));
    assert_eq!(j.step(WorkerEvent::Reconstructed), None);
    assert_eq!(j.stage(), WorkerStage::LoadingMatrix { height: 30, width: 30 });
}

//! The steps of one worker job. The worker alternates outside work
//! (reading the model matrix, running the solver, saving the image, writing
//! the report, answering the client) with decisions; this state machine
//! takes the decisions: given what the last piece of work came to, it says
//! what to do next.

use vstd::prelude::*;

use crate::server::{algorithm_named, image_pixels_for_model, model_pixels, select_algorithm, Algorithm};

verus! {

/// Where a job stands.
#[derive(Clone, Copy, Debug, PartialEq, Eq)]
pub enum WorkerStage {
    /// Taken from the queue, nothing done yet.
    Received,
    /// Waiting for the model matrix of an image `height` by `width`.
    LoadingMatrix { height: usize, width: usize },
    /// Waiting for the solver.
    Reconstructing,
    /// Waiting for the image to be saved.
    SavingImage,
    /// Waiting for the report line to be written.
    WritingReport,
    /// Waiting for the failure answer to be sent.
    SendingError,
    /// Waiting for the reconstruction to be sent.
    SendingResult,
    /// Done: the job's counters are settled and its permit given back.
    Finished,
}

/// What the last piece of outside work came to.
#[derive(Clone, Copy, Debug, PartialEq, Eq)]
pub enum WorkerEvent {
    /// The worker starts on the job.
    Begin,
    /// The model matrix was read (`ok`) or could not be.
    MatrixLoaded { ok: bool },
    /// The solver returned.
    Reconstructed,
    /// The image was saved (`ok`) or could not be.
    ImageSaved { ok: bool },
    /// The report line was written, or writing it failed.
    ReportWritten,
    /// The answer went out, or the client had gone.
    ReplySent,
}

/// The next piece of outside work.
#[derive(Clone, Copy, Debug, PartialEq, Eq)]
pub enum WorkerAction {
    /// Read the model matrix of the job's model.
    LoadMatrix,
    /// Run `algorithm` for an image `height` by `width`.
    Reconstruct { algorithm: Algorithm, height: usize, width: usize },
    /// Save the reconstructed image.
    SaveImage,
    /// Write the report line; `image_saved` tells whether the image has a
    /// file name to record.
    WriteReport { image_saved: bool },
    /// Answer the client with the failure result.
    SendError,
    /// Answer the client with the reconstruction.
    SendResult,
    /// Settle the job's counters (`completed` when a reconstruction was
    /// sent) and give its permit back.
    Finish { completed: bool },
}

/// The decision for one event: the next stage, and the work to do then,
/// for a job asking for `model_id` and `algorithm_id`. An event that does
/// not belong to the current stage changes nothing.
pub open spec fn worker_step(
    model_id: Seq<char>,
    algorithm_id: Seq<char>,
    stage: WorkerStage,
    event: WorkerEvent,
) -> (WorkerStage, Option<WorkerAction>) {
    match (stage, event) {
        (WorkerStage::Received, WorkerEvent::Begin) => match model_pixels(model_id) {
            Some((h, w)) => (WorkerStage::LoadingMatrix { height: h, width: w }, Some(WorkerAction::LoadMatrix)),
            None => (WorkerStage::SendingError, Some(WorkerAction::SendError)),
        },
        (WorkerStage::LoadingMatrix { height, width }, WorkerEvent::MatrixLoaded { ok }) => if !ok {
            (WorkerStage::SendingError, Some(WorkerAction::SendError))
        } else {
            match algorithm_named(algorithm_id) {
                Some(a) => (
                    WorkerStage::Reconstructing,
                    Some(WorkerAction::Reconstruct { algorithm: a, height, width }),
                ),
                None => (WorkerStage::SendingError, Some(WorkerAction::SendError)),
            }
        },
        (WorkerStage::Reconstructing, WorkerEvent::Reconstructed) => (
            WorkerStage::SavingImage,
            Some(WorkerAction::SaveImage),
        ),
        (WorkerStage::SavingImage, WorkerEvent::ImageSaved { ok }) => (
            WorkerStage::WritingReport,
            Some(WorkerAction::WriteReport { image_saved: ok }),
        ),
        (WorkerStage::WritingReport, WorkerEvent::ReportWritten) => (
            WorkerStage::SendingResult,
            Some(WorkerAction::SendResult),
        ),
        (WorkerStage::SendingError, WorkerEvent::ReplySent) => (
            WorkerStage::Finished,
            Some(WorkerAction::Finish { completed: false }),
        ),
        (WorkerStage::SendingResult, WorkerEvent::ReplySent) => (
            WorkerStage::Finished,
            Some(WorkerAction::Finish { completed: true }),
        ),
        _ => (stage, None),
    }
}

/// One worker job: the request's model and algorithm, and its stage.
pub struct WorkerJob {
    model_id: String,
    algorithm_id: String,
    stage: WorkerStage,
}

impl WorkerJob {
    /// The model the job asks for.
    pub closed spec fn model(&self) -> Seq<char> {
        self.model_id@
    }

    /// The algorithm the job asks for.
    pub closed spec fn algorithm(&self) -> Seq<char> {
        self.algorithm_id@
    }

    /// Where the job stands.
    pub closed spec fn current_stage(&self) -> WorkerStage {
        self.stage
    }

    /// A job just taken from the queue.
    pub fn new(model_id: String, algorithm_id: String) -> (job: Self)
        ensures
            job.model() == model_id@,
            job.algorithm() == algorithm_id@,
            job.current_stage() == WorkerStage::Received,
    {
        WorkerJob { model_id, algorithm_id, stage: WorkerStage::Received }
    }

    /// Where the job stands.
    pub fn stage(&self) -> (s: WorkerStage)
        ensures
            s == self.current_stage(),
    {
        self.stage
    }

    /// Takes in what the last piece of work came to and returns the next
    /// one, or `None` when nothing is left to do for this event.
    pub fn step(&mut self, event: WorkerEvent) -> (action: Option<WorkerAction>)
        ensures
            final(self).model() == old(self).model(),
            final(self).algorithm() == old(self).algorithm(),
            (final(self).current_stage(), action) == worker_step(
                old(self).model(),
                old(self).algorithm(),
                old(self).current_stage(),
                event,
            ),
    {
        let (next, action) = match (self.stage, event) {
            (WorkerStage::Received, WorkerEvent::Begin) => match image_pixels_for_model(self.model_id.as_str()) {
                Some((h, w)) => (WorkerStage::LoadingMatrix { height: h, width: w }, Some(WorkerAction::LoadMatrix)),
                None => (WorkerStage::SendingError, Some(WorkerAction::SendError)),
            },
            (WorkerStage::LoadingMatrix { height, width }, WorkerEvent::MatrixLoaded { ok }) => {
                if !ok {
                    (WorkerStage::SendingError, Some(WorkerAction::SendError))
                } else {
                    match select_algorithm(self.algorithm_id.as_str()) {
                        Some(a) => (
                            WorkerStage::Reconstructing,
                            Some(WorkerAction::Reconstruct { algorithm: a, height, width }),
                        ),
                        None => (WorkerStage::SendingError, Some(WorkerAction::SendError)),
                    }
                }
            },
            (WorkerStage::Reconstructing, WorkerEvent::Reconstructed) => (
                WorkerStage::SavingImage,
                Some(WorkerAction::SaveImage),
            ),
            (WorkerStage::SavingImage, WorkerEvent::ImageSaved { ok }) => (
                WorkerStage::WritingReport,
                Some(WorkerAction::WriteReport { image_saved: ok }),
            ),
            (WorkerStage::WritingReport, WorkerEvent::ReportWritten) => (
                WorkerStage::SendingResult,
                Some(WorkerAction::SendResult),
            ),
            (WorkerStage::SendingError, WorkerEvent::ReplySent) => (
                WorkerStage::Finished,
                Some(WorkerAction::Finish { completed: false }),
            ),
            (WorkerStage::SendingResult, WorkerEvent::ReplySent) => (
                WorkerStage::Finished,
                Some(WorkerAction::Finish { completed: true }),
            ),
            _ => (self.stage, None),
        };
        self.stage = next;
        action
    }
}

/// Stage and actions after the events `events`, from a job just received.
pub open spec fn worker_run(
    model_id: Seq<char>,
    algorithm_id: Seq<char>,
    events: Seq<WorkerEvent>,
) -> (WorkerStage, Seq<WorkerAction>)
    decreases events.len(),
{
    if events.len() == 0 {
        (WorkerStage::Received, Seq::empty())
    } else {
        let (stage, actions) = worker_run(model_id, algorithm_id, events.drop_last());
        let (next, action) = worker_step(model_id, algorithm_id, stage, events.last());
        match action {
            Some(a) => (next, actions.push(a)),
            None => (next, actions),
        }
    }
}

/// How many actions of `actions` satisfy `pred`.
pub open spec fn count_actions(actions: Seq<WorkerAction>, pred: spec_fn(WorkerAction) -> bool) -> nat
    decreases actions.len(),
{
    if actions.len() == 0 {
        0
    } else {
        count_actions(actions.drop_last(), pred) + if pred(actions.last()) { 1nat } else { 0nat }
    }
}

/// The action settles the job.
pub open spec fn is_finish(a: WorkerAction) -> bool {
    a is Finish
}

/// The action settles the job as completed.
pub open spec fn is_completed_finish(a: WorkerAction) -> bool {
    a == WorkerAction::Finish { completed: true }
}

/// The action answers the client.
pub open spec fn is_reply(a: WorkerAction) -> bool {
    a == WorkerAction::SendError || a == WorkerAction::SendResult
}

/// The action answers the client with a reconstruction.
pub open spec fn is_result_reply(a: WorkerAction) -> bool {
    a == WorkerAction::SendResult
}

/// The action runs the solver.
pub open spec fn is_reconstruction(a: WorkerAction) -> bool {
    a is Reconstruct
}

/// The action saves the image.
pub open spec fn is_image_save(a: WorkerAction) -> bool {
    a == WorkerAction::SaveImage
}

/// The action writes the report line.
pub open spec fn is_report_write(a: WorkerAction) -> bool {
    a is WriteReport
}

proof fn lemma_count_push(actions: Seq<WorkerAction>, a: WorkerAction, pred: spec_fn(WorkerAction) -> bool)
    ensures
        count_actions(actions.push(a), pred) == count_actions(actions, pred) + if pred(a) { 1nat } else { 0nat },
{
    assert(actions.push(a).drop_last() =~= actions);
}

/// What the actions issued so far say for each stage.
spec fn run_consistent(stage: WorkerStage, actions: Seq<WorkerAction>) -> bool {
    let finishes = count_actions(actions, |a: WorkerAction| is_finish(a));
    let completed = count_actions(actions, |a: WorkerAction| is_completed_finish(a));
    let replies = count_actions(actions, |a: WorkerAction| is_reply(a));
    let results = count_actions(actions, |a: WorkerAction| is_result_reply(a));
    let writes = count_actions(actions, |a: WorkerAction| is_report_write(a));
    let saves = count_actions(actions, |a: WorkerAction| is_image_save(a));
    let runs = count_actions(actions, |a: WorkerAction| is_reconstruction(a));
    &&& runs == saves + if stage == WorkerStage::Reconstructing { 1nat } else { 0nat }
    &&& saves == writes + if stage == WorkerStage::SavingImage { 1nat } else { 0nat }
    &&& writes == results + if stage == WorkerStage::WritingReport { 1nat } else { 0nat }
    &&& match stage {
        WorkerStage::SendingError => finishes == 0 && replies == 1 && results == 0 && completed == 0,
        WorkerStage::SendingResult => finishes == 0 && replies == 1 && results == 1 && completed == 0,
        WorkerStage::Finished => finishes == 1 && replies == 1 && completed == results && results <= 1 && actions.len() > 0
            && is_finish(actions.last()),
        _ => finishes == 0 && replies == 0 && results == 0 && completed == 0,
    }
}

proof fn lemma_run_consistent(model_id: Seq<char>, algorithm_id: Seq<char>, events: Seq<WorkerEvent>)
    ensures
        run_consistent(
            worker_run(model_id, algorithm_id, events).0,
            worker_run(model_id, algorithm_id, events).1,
        ),
    decreases events.len(),
{
    if events.len() > 0 {
        let prev = events.drop_last();
        lemma_run_consistent(model_id, algorithm_id, prev);
        let (stage, actions) = worker_run(model_id, algorithm_id, prev);
        let (next, action) = worker_step(model_id, algorithm_id, stage, events.last());
        if let Some(a) = action {
            lemma_count_push(actions, a, |a: WorkerAction| is_finish(a));
            lemma_count_push(actions, a, |a: WorkerAction| is_completed_finish(a));
            lemma_count_push(actions, a, |a: WorkerAction| is_reply(a));
            lemma_count_push(actions, a, |a: WorkerAction| is_result_reply(a));
            lemma_count_push(actions, a, |a: WorkerAction| is_report_write(a));
            lemma_count_push(actions, a, |a: WorkerAction| is_image_save(a));
            lemma_count_push(actions, a, |a: WorkerAction| is_reconstruction(a));
        }
    }
}

/// Whatever the outside work comes to, a job answers its client at most
/// once and settles its counters and permit at most once; once it is
/// finished it has done both exactly once, the settling last, and it counts
/// as completed exactly when its answer was a reconstruction.
pub proof fn lemma_worker_settles_once(model_id: Seq<char>, algorithm_id: Seq<char>, events: Seq<WorkerEvent>)
    ensures
        ({
            let (stage, actions) = worker_run(model_id, algorithm_id, events);
            let finishes = count_actions(actions, |a: WorkerAction| is_finish(a));
            let replies = count_actions(actions, |a: WorkerAction| is_reply(a));
            &&& finishes <= 1
            &&& replies <= 1
            &&& (finishes == 1 <==> stage == WorkerStage::Finished)
            &&& stage == WorkerStage::Finished ==> {
                &&& replies == 1
                &&& is_finish(actions.last())
                &&& count_actions(actions, |a: WorkerAction| is_completed_finish(a)) == count_actions(
                    actions,
                    |a: WorkerAction| is_result_reply(a),
                )
            }
        }),
{
    lemma_run_consistent(model_id, algorithm_id, events);
}

/// Every answer with a reconstruction comes after the job's report line
/// was written: at every point of any run, the report lines written are the
/// reconstructions sent, plus one while the job waits for its line to be
/// written. In particular a job sends a result only after exactly one
/// report line, and it never writes one without then sending its result.
pub proof fn lemma_report_written_before_result(
    model_id: Seq<char>,
    algorithm_id: Seq<char>,
    events: Seq<WorkerEvent>,
)
    ensures
        ({
            let (stage, actions) = worker_run(model_id, algorithm_id, events);
            &&& count_actions(actions, |a: WorkerAction| is_report_write(a)) == count_actions(
                actions,
                |a: WorkerAction| is_result_reply(a),
            ) + if stage == WorkerStage::WritingReport { 1nat } else { 0nat }
            &&& count_actions(actions, |a: WorkerAction| is_report_write(a)) <= 1
        }),
{
    lemma_run_consistent(model_id, algorithm_id, events);
}

/// A job goes through its work in order: at every point of any run, each
/// solver run is followed by one image save, and each save by one report
/// line, except for the one step the job is waiting on.
pub proof fn lemma_work_in_order(model_id: Seq<char>, algorithm_id: Seq<char>, events: Seq<WorkerEvent>)
    ensures
        ({
            let (stage, actions) = worker_run(model_id, algorithm_id, events);
            let runs = count_actions(actions, |a: WorkerAction| is_reconstruction(a));
            let saves = count_actions(actions, |a: WorkerAction| is_image_save(a));
            let writes = count_actions(actions, |a: WorkerAction| is_report_write(a));
            &&& runs == saves + if stage == WorkerStage::Reconstructing { 1nat } else { 0nat }
            &&& saves == writes + if stage == WorkerStage::SavingImage { 1nat } else { 0nat }
        }),
{
    lemma_run_consistent(model_id, algorithm_id, events);
}

/// Once the image is saved or not, the job goes on to write its report
/// line, telling whether an image file exists to record.
pub proof fn lemma_saved_image_leads_to_report(
    model_id: Seq<char>,
    algorithm_id: Seq<char>,
    ok: bool,
)
    ensures
        worker_step(model_id, algorithm_id, WorkerStage::SavingImage, WorkerEvent::ImageSaved { ok }) == (
            WorkerStage::WritingReport,
            Some(WorkerAction::WriteReport { image_saved: ok }),
        ),
{
}

/// Once the matrix is read, a job asking for `CGNR` is reconstructed with
/// CGNR and one asking for `CGNE` with CGNE, at the size of the stage; any
/// other algorithm id is answered with a failure.
pub proof fn lemma_requested_algorithm_runs(
    model_id: Seq<char>,
    algorithm_id: Seq<char>,
    height: usize,
    width: usize,
)
    ensures
        ({
            let (next, action) = worker_step(
                model_id,
                algorithm_id,
                WorkerStage::LoadingMatrix { height, width },
                WorkerEvent::MatrixLoaded { ok: true },
            );
            &&& algorithm_id == seq!['C', 'G', 'N', 'R'] ==> next == WorkerStage::Reconstructing
                && action == Some(WorkerAction::Reconstruct { algorithm: Algorithm::Cgnr, height, width })
            &&& algorithm_id == seq!['C', 'G', 'N', 'E'] ==> next == WorkerStage::Reconstructing
                && action == Some(WorkerAction::Reconstruct { algorithm: Algorithm::Cgne, height, width })
            &&& (algorithm_id != seq!['C', 'G', 'N', 'R'] && algorithm_id != seq!['C', 'G', 'N', 'E'])
                ==> next == WorkerStage::SendingError && action == Some(WorkerAction::SendError)
        }),
{
    assert(seq!['C', 'G', 'N', 'R'] != seq!['C', 'G', 'N', 'E']) by {
        assert(seq!['C', 'G', 'N', 'R'][3] != seq!['C', 'G', 'N', 'E'][3]);
    }
}

/// A job that starts is sized by its model: 30 by 30 for `30x30`, 60 by
/// 60 for `60x60`, and it reads the matrix first.
pub proof fn lemma_begin_sizes_by_model(model_id: Seq<char>, algorithm_id: Seq<char>)
    ensures
        model_id == seq!['3', '0', 'x', '3', '0'] ==> worker_step(
            model_id,
            algorithm_id,
            WorkerStage::Received,
            WorkerEvent::Begin,
        ) == (WorkerStage::LoadingMatrix { height: 30, width: 30 }, Some(WorkerAction::LoadMatrix)),
        model_id == seq!['6', '0', 'x', '6', '0'] ==> worker_step(
            model_id,
            algorithm_id,
            WorkerStage::Received,
            WorkerEvent::Begin,
        ) == (WorkerStage::LoadingMatrix { height: 60, width: 60 }, Some(WorkerAction::LoadMatrix)),
{
    assert(seq!['3', '0', 'x', '3', '0'] != seq!['6', '0', 'x', '6', '0']) by {
        assert(seq!['3', '0', 'x', '3', '0'][0] != seq!['6', '0', 'x', '6', '0'][0]);
    }
}

/// A job for a model the server does not serve is answered with a failure
/// right away, before any file is read.
pub proof fn lemma_unknown_model_fails_first(model_id: Seq<char>, algorithm_id: Seq<char>)
    requires
        model_pixels(model_id) is None,
    ensures
        worker_step(model_id, algorithm_id, WorkerStage::Received, WorkerEvent::Begin) == (
            WorkerStage::SendingError,
            Some(WorkerAction::SendError),
        ),
{
}

} // verus!

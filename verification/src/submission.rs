//! The submission of one blob to the chain.
//!
//! A submission is a single attempt. The driver signs and broadcasts what
//! [`SubmitAction::Broadcast`] holds and reports how it went; nothing is
//! tried a second time, and nothing remembers what was sent before.

use vstd::prelude::*;
use vstd::slice::slice_to_vec;
use crate::errors::DaError;

verus! {

/// How the one attempt of a submission went.
#[derive(Clone, Copy, Debug, PartialEq, Eq, Structural)]
pub enum SubmitEvent {
    /// The transaction was signed and broadcast, and the chain node reports
    /// it as taken up.
    Accepted,
    /// Signing or broadcasting failed, or the chain turned the transaction
    /// down.
    Failed,
}

/// A piece of outside work of a submission, as plain values.
pub enum SubmitActionView {
    /// Wrap the data in a data-submission call tagged with the application
    /// identifier, sign it, broadcast it and wait for the chain node's report.
    Broadcast { app_id: u32, data: Seq<u8> },
    /// Nothing is left to do.
    Stop,
}

/// A submission as plain values.
pub struct SubmissionView {
    /// The application identifier that tags the blob.
    pub app_id: u32,
    /// The blob.
    pub data: Seq<u8>,
    /// How the attempt ended, once it has.
    pub outcome: Option<Result<(), DaError>>,
}

/// The submission of `data` under `app_id`, before its attempt.
pub open spec fn fresh_submission(app_id: u32, data: Seq<u8>) -> SubmissionView {
    SubmissionView { app_id, data, outcome: None }
}

/// What a report of the attempt means for the caller.
pub open spec fn verdict(event: SubmitEvent) -> Result<(), DaError> {
    match event {
        SubmitEvent::Accepted => Ok(()),
        SubmitEvent::Failed => Err(DaError::SubmissionFailure),
    }
}

/// The submission after a report arrived. Only the first report counts.
pub open spec fn submission_after(state: SubmissionView, event: SubmitEvent) -> SubmissionView {
    match state.outcome {
        None => SubmissionView { outcome: Some(verdict(event)), ..state },
        Some(_) => state,
    }
}

/// The outside work that a submission is waiting for.
pub open spec fn submission_pending(state: SubmissionView) -> SubmitActionView {
    match state.outcome {
        None => SubmitActionView::Broadcast { app_id: state.app_id, data: state.data },
        Some(_) => SubmitActionView::Stop,
    }
}

/// The work that a series of submissions asks of the driver at the outset:
/// one entry for each blob, in the order of the calls.
pub open spec fn first_actions(app_id: u32, blobs: Seq<Seq<u8>>) -> Seq<SubmitActionView> {
    Seq::new(blobs.len(), |i: int| submission_pending(fresh_submission(app_id, blobs[i])))
}

/// Each submission is broadcast, whatever was submitted before it. In
/// particular a blob that is submitted twice is broadcast twice.
pub proof fn lemma_every_submission_is_broadcast(app_id: u32, blobs: Seq<Seq<u8>>)
    ensures
        first_actions(app_id, blobs).len() == blobs.len(),
        forall|i: int|
            0 <= i < blobs.len() ==> #[trigger] first_actions(app_id, blobs)[i]
                == (SubmitActionView::Broadcast { app_id, data: blobs[i] }),
{
}

/// A submission makes one attempt: once a report has arrived, no further
/// broadcast is asked for and the result stands.
pub proof fn lemma_no_second_attempt(state: SubmissionView, first: SubmitEvent, later: SubmitEvent)
    requires
        state.outcome is None,
    ensures
        submission_pending(submission_after(state, first)) == SubmitActionView::Stop,
        submission_after(state, first).outcome == Some(verdict(first)),
        submission_after(submission_after(state, first), later) == submission_after(state, first),
{
}

/// A piece of outside work that a driver of a submission is asked to do.
#[derive(Clone, Debug, PartialEq, Eq)]
pub enum SubmitAction {
    /// Wrap the data in a data-submission call tagged with the application
    /// identifier, sign it, broadcast it, wait for the chain node's report,
    /// and hand back a [`SubmitEvent`].
    Broadcast { app_id: u32, data: Vec<u8> },
    /// Nothing is left to do: take the result.
    Stop,
}

impl View for SubmitAction {
    type V = SubmitActionView;

    open spec fn view(&self) -> SubmitActionView {
        match *self {
            SubmitAction::Broadcast { app_id, data } => SubmitActionView::Broadcast {
                app_id,
                data: data@,
            },
            SubmitAction::Stop => SubmitActionView::Stop,
        }
    }
}

/// The submission of one blob.
#[derive(Debug)]
pub struct Submission {
    app_id: u32,
    data: Vec<u8>,
    outcome: Option<Result<(), DaError>>,
}

impl View for Submission {
    type V = SubmissionView;

    closed spec fn view(&self) -> SubmissionView {
        SubmissionView { app_id: self.app_id, data: self.data@, outcome: self.outcome }
    }
}

impl Submission {
    /// The submission of a copy of `blob` under `app_id`, before its attempt.
    pub fn begin(app_id: u32, blob: &[u8]) -> (submission: Submission)
        ensures
            submission@ == fresh_submission(app_id, blob@),
    {
        Submission { app_id, data: slice_to_vec(blob), outcome: None }
    }

    /// The outside work that the submission is waiting for.
    pub fn action(&self) -> (action: SubmitAction)
        ensures
            action@ == submission_pending(self@),
    {
        match self.outcome {
            None => SubmitAction::Broadcast {
                app_id: self.app_id,
                data: slice_to_vec(self.data.as_slice()),
            },
            Some(_) => SubmitAction::Stop,
        }
    }

    /// The submission after the driver's report arrived.
    pub fn step(self, event: SubmitEvent) -> (next: Submission)
        ensures
            next@ == submission_after(self@, event),
    {
        let Submission { app_id, data, outcome } = self;
        let outcome = match outcome {
            None => match event {
                SubmitEvent::Accepted => Some(Ok(())),
                SubmitEvent::Failed => Some(Err(DaError::SubmissionFailure)),
            },
            Some(result) => Some(result),
        };
        Submission { app_id, data, outcome }
    }

    /// How the submission ended; `None` while the report is outstanding.
    pub fn into_result(self) -> (result: Option<Result<(), DaError>>)
        ensures
            result == self@.outcome,
    {
        self.outcome
    }
}

} // verus!

//! The retrieval of one block, as a value that a driver steps through.
//!
//! A driver asks a [`Retrieval`] for its pending [`Action`], performs it,
//! and hands the outcome back as an [`Event`], until the action is
//! [`Action::Stop`]. The retrieval then holds the block or the failure.

use vstd::prelude::*;
use crate::block::{AvailBlock, BlockView, ExtrinsicsData};
use crate::confidence::Confidence;
use crate::endpoint::Endpoint;
use crate::errors::DaError;
use crate::protocol::{
    budget_spent, first_stage, pending, transition, ActionView, EventView, RetrievalView,
    StageView, Wait, HTTP_NOT_FOUND, HTTP_OK, POLLING_INTERVAL_NANOS, POLLING_TIMEOUT_NANOS,
};

verus! {

/// An outcome of outside work that a driver reports.
#[derive(Debug)]
pub enum Event<H> {
    /// A reading of the monotonic clock, in nanoseconds.
    Clock { now: u64 },
    /// The light client answered with this HTTP status.
    Status { code: u16 },
    /// The body of the confidence response, decoded.
    Confidence { confidence: Confidence },
    /// The body of the application-data response, decoded.
    Appdata { data: ExtrinsicsData },
    /// The body of a successful response does not have the expected shape.
    Malformed,
    /// The request got no response, or the response could not be read.
    TransportFailed,
    /// The pause is over.
    Woke,
    /// The chain node answered the hash lookup, with `None` if it knows no
    /// block at the height.
    BlockHash { hash: Option<[u8; 32]> },
    /// The chain node answered the header lookup, with `None` if it knows no
    /// header of that hash.
    Header { header: Option<H> },
    /// The call to the chain node failed.
    NodeFailed,
}

impl<H> View for Event<H> {
    type V = EventView<H>;

    open spec fn view(&self) -> EventView<H> {
        match *self {
            Event::Clock { now } => EventView::Clock { now },
            Event::Status { code } => EventView::Status { code },
            Event::Confidence { confidence } => EventView::Confidence { bits: confidence.bits },
            Event::Appdata { data } => EventView::Appdata { data: data@ },
            Event::Malformed => EventView::Malformed,
            Event::TransportFailed => EventView::TransportFailed,
            Event::Woke => EventView::Woke,
            Event::BlockHash { hash } => EventView::BlockHash { hash },
            Event::Header { header } => EventView::Header { header },
            Event::NodeFailed => EventView::NodeFailed,
        }
    }
}

/// A piece of outside work that a driver is asked to do.
#[derive(Clone, Debug, PartialEq, Eq)]
pub enum Action {
    /// Read the monotonic clock and report [`Event::Clock`].
    ReadClock,
    /// Send a GET request to the address and report [`Event::Status`], or
    /// [`Event::TransportFailed`].
    Get { endpoint: Endpoint, url: String },
    /// Read and decode the body of the response just received and report
    /// [`Event::Confidence`] or [`Event::Appdata`], as the endpoint says, or
    /// [`Event::Malformed`], or [`Event::TransportFailed`].
    ReadBody { endpoint: Endpoint },
    /// Pause for so many nanoseconds and report [`Event::Woke`].
    Sleep { nanos: u64 },
    /// Ask the chain node for the hash of the block at the height and report
    /// [`Event::BlockHash`], or [`Event::NodeFailed`].
    LookupHash { height: u64 },
    /// Ask the chain node for the header with the hash and report
    /// [`Event::Header`], or [`Event::NodeFailed`].
    LookupHeader { hash: [u8; 32] },
    /// Nothing is left to do: take the result.
    Stop,
}

impl View for Action {
    type V = ActionView;

    open spec fn view(&self) -> ActionView {
        match *self {
            Action::ReadClock => ActionView::ReadClock,
            Action::Get { endpoint, url } => ActionView::Get { endpoint, url: url@ },
            Action::ReadBody { endpoint } => ActionView::ReadBody { endpoint },
            Action::Sleep { nanos } => ActionView::Sleep { nanos },
            Action::LookupHash { height } => ActionView::LookupHash { height },
            Action::LookupHeader { hash } => ActionView::LookupHeader { hash },
            Action::Stop => ActionView::Stop,
        }
    }
}

/// Where a retrieval stands.
#[derive(Debug)]
enum Stage<H> {
    Starting { endpoint: Endpoint },
    Polling { endpoint: Endpoint, started: u64, wait: Wait },
    Hash { appdata: ExtrinsicsData },
    Header { appdata: ExtrinsicsData, hash: [u8; 32] },
    Finished { outcome: Result<AvailBlock<H>, DaError> },
}

/// The outcome of a retrieval as plain values.
pub open spec fn outcome_view<H>(outcome: Result<AvailBlock<H>, DaError>) -> Result<
    BlockView<H>,
    DaError,
> {
    match outcome {
        Ok(block) => Ok(block@),
        Err(error) => Err(error),
    }
}

impl<H> Stage<H> {
    spec fn view(&self) -> StageView<H> {
        match *self {
            Stage::Starting { endpoint } => StageView::Starting { endpoint },
            Stage::Polling { endpoint, started, wait } => StageView::Polling {
                endpoint,
                started,
                wait,
            },
            Stage::Hash { appdata } => StageView::Hash { appdata: appdata@ },
            Stage::Header { appdata, hash } => StageView::Header { appdata: appdata@, hash },
            Stage::Finished { outcome } => StageView::Finished { outcome: outcome_view(outcome) },
        }
    }
}

/// The retrieval of the block at one height.
#[derive(Debug)]
pub struct Retrieval<H> {
    height: u64,
    confidence_url: String,
    appdata_url: String,
    stage: Stage<H>,
}

impl<H> View for Retrieval<H> {
    type V = RetrievalView<H>;

    closed spec fn view(&self) -> RetrievalView<H> {
        RetrievalView {
            height: self.height,
            confidence_url: self.confidence_url@,
            appdata_url: self.appdata_url@,
            stage: self.stage.view(),
        }
    }
}

/// Whether a polling phase that started at `started` has used up its budget
/// at `now`.
fn is_budget_spent(started: u64, now: u64) -> (spent: bool)
    ensures
        spent == budget_spent(started, now),
{
    now >= started && now - started >= POLLING_TIMEOUT_NANOS
}

impl<H> Retrieval<H> {
    /// A retrieval of the block at `height` that has not begun: it stands at
    /// the confidence gate and will use the two addresses given.
    pub fn begin(height: u64, confidence_url: String, appdata_url: String) -> (retrieval: Retrieval<H>)
        ensures
            retrieval@ == (RetrievalView {
                height,
                confidence_url: confidence_url@,
                appdata_url: appdata_url@,
                stage: first_stage::<H>(),
            }),
    {
        Retrieval {
            height,
            confidence_url,
            appdata_url,
            stage: Stage::Starting { endpoint: Endpoint::Confidence },
        }
    }

    /// The outside work that the retrieval is waiting for.
    pub fn action(&self) -> (action: Action)
        ensures
            action@ == pending(self@),
    {
        match &self.stage {
            Stage::Starting { .. } => Action::ReadClock,
            Stage::Polling { endpoint, wait, .. } => match wait {
                Wait::Deadline => Action::ReadClock,
                Wait::Status => match endpoint {
                    Endpoint::Confidence => Action::Get {
                        endpoint: Endpoint::Confidence,
                        url: self.confidence_url.clone(),
                    },
                    Endpoint::Appdata => Action::Get {
                        endpoint: Endpoint::Appdata,
                        url: self.appdata_url.clone(),
                    },
                },
                Wait::Body => Action::ReadBody { endpoint: *endpoint },
                Wait::Wake => Action::Sleep { nanos: POLLING_INTERVAL_NANOS },
            },
            Stage::Hash { .. } => Action::LookupHash { height: self.height },
            Stage::Header { hash, .. } => Action::LookupHeader { hash: *hash },
            Stage::Finished { .. } => Action::Stop,
        }
    }

    /// The retrieval after `event` arrived. An event that does not answer
    /// the pending action leaves the retrieval as it is.
    pub fn step(self, event: Event<H>) -> (next: Retrieval<H>)
        ensures
            next@ == transition(self@, event@),
    {
        let Retrieval { height, confidence_url, appdata_url, stage } = self;
        let stage = match stage {
            Stage::Starting { endpoint } => match event {
                Event::Clock { now } => Stage::Polling { endpoint, started: now, wait: Wait::Deadline },
                _ => Stage::Starting { endpoint },
            },
            Stage::Polling { endpoint, started, wait } => match (wait, event) {
                (Wait::Deadline, Event::Clock { now }) => {
                    if is_budget_spent(started, now) {
                        Stage::Finished { outcome: Err(DaError::Timeout) }
                    } else {
                        Stage::Polling { endpoint, started, wait: Wait::Status }
                    }
                },
                (Wait::Status, Event::Status { code }) => {
                    let no_data = match endpoint {
                        Endpoint::Appdata => code == HTTP_NOT_FOUND,
                        Endpoint::Confidence => false,
                    };
                    if no_data {
                        Stage::Hash { appdata: ExtrinsicsData::empty(height) }
                    } else if code == HTTP_OK {
                        Stage::Polling { endpoint, started, wait: Wait::Body }
                    } else {
                        Stage::Polling { endpoint, started, wait: Wait::Wake }
                    }
                },
                (Wait::Status, Event::TransportFailed) => Stage::Finished {
                    outcome: Err(DaError::Transport),
                },
                (Wait::Body, Event::Confidence { confidence }) => match endpoint {
                    Endpoint::Confidence => {
                        if confidence.meets_threshold() {
                            Stage::Starting { endpoint: Endpoint::Appdata }
                        } else {
                            Stage::Polling { endpoint, started, wait: Wait::Wake }
                        }
                    },
                    Endpoint::Appdata => Stage::Polling { endpoint, started, wait },
                },
                (Wait::Body, Event::Appdata { data }) => match endpoint {
                    Endpoint::Appdata => Stage::Hash { appdata: data },
                    Endpoint::Confidence => Stage::Polling { endpoint, started, wait },
                },
                (Wait::Body, Event::Malformed) => Stage::Finished {
                    outcome: Err(DaError::MalformedResponse),
                },
                (Wait::Body, Event::TransportFailed) => Stage::Finished {
                    outcome: Err(DaError::Transport),
                },
                (Wait::Wake, Event::Woke) => Stage::Polling { endpoint, started, wait: Wait::Deadline },
                _ => Stage::Polling { endpoint, started, wait },
            },
            Stage::Hash { appdata } => match event {
                Event::BlockHash { hash: Some(hash) } => Stage::Header { appdata, hash },
                Event::BlockHash { hash: None } => Stage::Finished {
                    outcome: Err(DaError::NodeLookupFailure),
                },
                Event::NodeFailed => Stage::Finished { outcome: Err(DaError::NodeLookupFailure) },
                _ => Stage::Hash { appdata },
            },
            Stage::Header { appdata, hash } => match event {
                Event::Header { header: Some(header) } => Stage::Finished {
                    outcome: Ok(AvailBlock::assemble(header, hash, &appdata)),
                },
                Event::Header { header: None } => Stage::Finished {
                    outcome: Err(DaError::NodeLookupFailure),
                },
                Event::NodeFailed => Stage::Finished { outcome: Err(DaError::NodeLookupFailure) },
                _ => Stage::Header { appdata, hash },
            },
            Stage::Finished { outcome } => Stage::Finished { outcome },
        };
        Retrieval { height, confidence_url, appdata_url, stage }
    }

    /// Whether the retrieval is over.
    pub fn is_finished(&self) -> (finished: bool)
        ensures
            finished == (self@.stage is Finished),
    {
        match &self.stage {
            Stage::Finished { .. } => true,
            _ => false,
        }
    }

    /// The block or the failure in which the retrieval ended; `None` while
    /// it is still under way.
    pub fn into_result(self) -> (result: Option<Result<AvailBlock<H>, DaError>>)
        ensures
            match self@.stage {
                StageView::Finished { outcome } => result matches Some(found) && outcome_view(found)
                    == outcome,
                _ => result is None,
            },
    {
        match self.stage {
            Stage::Finished { outcome } => Some(outcome),
            _ => None,
        }
    }
}

} // verus!

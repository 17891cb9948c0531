//! The retrieval protocol as a transition system over plain values.
//!
//! Retrieving the block of one height passes four stations in a fixed order:
//! the confidence gate, the application data, the block hash, the header.
//! The first two are polling loops with a budget of their own. A driver does
//! the outside work that the pending action names and reports the outcome as
//! an event. An event that does not answer the pending action changes
//! nothing.

use vstd::prelude::*;
use crate::block::{assembled, AppData, BlockView};
use crate::confidence::reaches_threshold;
use crate::endpoint::Endpoint;
use crate::errors::DaError;

verus! {

/// The budget of one polling phase, in nanoseconds: 60 seconds.
pub const POLLING_TIMEOUT_NANOS: u64 = 60_000_000_000;

/// The pause between two attempts of a polling phase, in nanoseconds: 2
/// seconds.
pub const POLLING_INTERVAL_NANOS: u64 = 2_000_000_000;

/// The HTTP status of a response that carries a body to read.
pub const HTTP_OK: u16 = 200;

/// The HTTP status by which the light client says that it holds no data for
/// the height.
pub const HTTP_NOT_FOUND: u16 = 404;

/// The time between two readings of a clock that does not run backwards.
pub open spec fn elapsed(started: u64, now: u64) -> nat {
    if now >= started {
        (now - started) as nat
    } else {
        0
    }
}

/// Whether a polling phase that started at `started` has used up its budget
/// at `now`.
pub open spec fn budget_spent(started: u64, now: u64) -> bool {
    elapsed(started, now) >= POLLING_TIMEOUT_NANOS
}

/// What a polling phase is waiting for.
#[derive(Clone, Copy, Debug, PartialEq, Eq, Structural)]
pub enum Wait {
    /// The clock reading that is held against the budget before an attempt.
    Deadline,
    /// The HTTP status of the request.
    Status,
    /// The decoded body of a successful response.
    Body,
    /// The end of the pause before the next attempt.
    Wake,
}

/// Where a retrieval stands.
pub enum StageView<H> {
    /// A polling phase is about to take the clock reading that starts its
    /// budget.
    Starting { endpoint: Endpoint },
    /// A polling phase is under way.
    Polling { endpoint: Endpoint, started: u64, wait: Wait },
    /// The application data is settled; the block hash is awaited.
    Hash { appdata: AppData },
    /// The block hash is known; the header is awaited.
    Header { appdata: AppData, hash: [u8; 32] },
    /// The retrieval is over.
    Finished { outcome: Result<BlockView<H>, DaError> },
}

/// A retrieval as plain values.
pub struct RetrievalView<H> {
    /// The height whose block is wanted.
    pub height: u64,
    /// The address of the confidence endpoint for the height.
    pub confidence_url: Seq<char>,
    /// The address of the application-data endpoint for the height.
    pub appdata_url: Seq<char>,
    /// Where the retrieval stands.
    pub stage: StageView<H>,
}

/// An outcome of outside work, as plain values.
pub enum EventView<H> {
    /// A reading of the monotonic clock, in nanoseconds.
    Clock { now: u64 },
    /// The light client answered with this HTTP status.
    Status { code: u16 },
    /// The body of the confidence response, decoded.
    Confidence { bits: u64 },
    /// The body of the application-data response, decoded.
    Appdata { data: AppData },
    /// The body of a successful response does not have the expected shape.
    Malformed,
    /// The request got no response, or the response could not be read.
    TransportFailed,
    /// The pause is over.
    Woke,
    /// The chain node answered the hash lookup, with `None` if it knows no
    /// block at the height.
    BlockHash { hash: Option<[u8; 32]> },
    /// The chain node answered the header lookup, with `None` if it knows no
    /// header of that hash.
    Header { header: Option<H> },
    /// The call to the chain node failed.
    NodeFailed,
}

/// A piece of outside work, as plain values.
pub enum ActionView {
    /// Read the monotonic clock.
    ReadClock,
    /// Send a GET request to the address.
    Get { endpoint: Endpoint, url: Seq<char> },
    /// Read and decode the body of the response just received.
    ReadBody { endpoint: Endpoint },
    /// Pause for so many nanoseconds.
    Sleep { nanos: u64 },
    /// Ask the chain node for the hash of the block at the height.
    LookupHash { height: u64 },
    /// Ask the chain node for the header with the hash.
    LookupHeader { hash: [u8; 32] },
    /// Nothing is left to do.
    Stop,
}

/// The stage that ends a retrieval in failure.
pub open spec fn failure<H>(error: DaError) -> StageView<H> {
    StageView::Finished { outcome: Err(error) }
}

/// The stage after an HTTP status arrived in a polling phase.
pub open spec fn after_status<H>(height: u64, endpoint: Endpoint, started: u64, code: u16)
    -> StageView<H> {
    if endpoint == Endpoint::Appdata && code == HTTP_NOT_FOUND {
        StageView::Hash { appdata: AppData { block: height, extrinsics: Seq::empty() } }
    } else if code == HTTP_OK {
        StageView::Polling { endpoint, started, wait: Wait::Body }
    } else {
        StageView::Polling { endpoint, started, wait: Wait::Wake }
    }
}

/// The stage that follows `stage` when `event` arrives, for the retrieval of
/// `height`.
pub open spec fn stage_after<H>(height: u64, stage: StageView<H>, event: EventView<H>)
    -> StageView<H> {
    match (stage, event) {
        (StageView::Starting { endpoint }, EventView::Clock { now }) => StageView::Polling {
            endpoint,
            started: now,
            wait: Wait::Deadline,
        },
        (
            StageView::Polling { endpoint, started, wait: Wait::Deadline },
            EventView::Clock { now },
        ) => if budget_spent(started, now) {
            failure(DaError::Timeout)
        } else {
            StageView::Polling { endpoint, started, wait: Wait::Status }
        },
        (
            StageView::Polling { endpoint, started, wait: Wait::Status },
            EventView::Status { code },
        ) => after_status(height, endpoint, started, code),
        (StageView::Polling { wait: Wait::Status, .. }, EventView::TransportFailed) => failure(
            DaError::Transport,
        ),
        (
            StageView::Polling { endpoint: Endpoint::Confidence, started, wait: Wait::Body },
            EventView::Confidence { bits },
        ) => if reaches_threshold(bits) {
            StageView::Starting { endpoint: Endpoint::Appdata }
        } else {
            StageView::Polling { endpoint: Endpoint::Confidence, started, wait: Wait::Wake }
        },
        (
            StageView::Polling { endpoint: Endpoint::Appdata, wait: Wait::Body, .. },
            EventView::Appdata { data },
        ) => StageView::Hash { appdata: data },
        (StageView::Polling { wait: Wait::Body, .. }, EventView::Malformed) => failure(
            DaError::MalformedResponse,
        ),
        (StageView::Polling { wait: Wait::Body, .. }, EventView::TransportFailed) => failure(
            DaError::Transport,
        ),
        (StageView::Polling { endpoint, started, wait: Wait::Wake }, EventView::Woke) => {
            StageView::Polling { endpoint, started, wait: Wait::Deadline }
        },
        (StageView::Hash { appdata }, EventView::BlockHash { hash: Some(hash) }) => {
            StageView::Header { appdata, hash }
        },
        (StageView::Hash { .. }, EventView::BlockHash { hash: None }) => failure(
            DaError::NodeLookupFailure,
        ),
        (StageView::Hash { .. }, EventView::NodeFailed) => failure(DaError::NodeLookupFailure),
        (StageView::Header { appdata, hash }, EventView::Header { header: Some(header) }) => {
            StageView::Finished { outcome: Ok(assembled(header, hash, appdata)) }
        },
        (StageView::Header { .. }, EventView::Header { header: None }) => failure(
            DaError::NodeLookupFailure,
        ),
        (StageView::Header { .. }, EventView::NodeFailed) => failure(DaError::NodeLookupFailure),
        (stage, _) => stage,
    }
}

/// The stage in which every retrieval begins: at the confidence gate, before
/// its clock has started.
pub open spec fn first_stage<H>() -> StageView<H> {
    StageView::Starting { endpoint: Endpoint::Confidence }
}

/// The retrieval after `event` arrived.
pub open spec fn transition<H>(state: RetrievalView<H>, event: EventView<H>) -> RetrievalView<H> {
    RetrievalView { stage: stage_after(state.height, state.stage, event), ..state }
}

/// The address that a retrieval uses for an endpoint.
pub open spec fn url_of<H>(state: RetrievalView<H>, endpoint: Endpoint) -> Seq<char> {
    match endpoint {
        Endpoint::Confidence => state.confidence_url,
        Endpoint::Appdata => state.appdata_url,
    }
}

/// The outside work that a retrieval is waiting for.
pub open spec fn pending<H>(state: RetrievalView<H>) -> ActionView {
    match state.stage {
        StageView::Starting { .. } => ActionView::ReadClock,
        StageView::Polling { wait: Wait::Deadline, .. } => ActionView::ReadClock,
        StageView::Polling { endpoint, wait: Wait::Status, .. } => ActionView::Get {
            endpoint,
            url: url_of(state, endpoint),
        },
        StageView::Polling { endpoint, wait: Wait::Body, .. } => ActionView::ReadBody { endpoint },
        StageView::Polling { wait: Wait::Wake, .. } => ActionView::Sleep {
            nanos: POLLING_INTERVAL_NANOS,
        },
        StageView::Hash { .. } => ActionView::LookupHash { height: state.height },
        StageView::Header { hash, .. } => ActionView::LookupHeader { hash },
        StageView::Finished { .. } => ActionView::Stop,
    }
}

/// The retrieval after all of `events` arrived, first to last.
pub open spec fn run<H>(state: RetrievalView<H>, events: Seq<EventView<H>>) -> RetrievalView<H>
    decreases events.len(),
{
    if events.len() == 0 {
        state
    } else {
        transition(run(state, events.drop_last()), events.last())
    }
}

} // verus!

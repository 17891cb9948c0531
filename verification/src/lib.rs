//! Data-availability client logic for a rollup that reads from and writes to
//! the Avail chain.
//!
//! Everything here is a decision, never an effect. A driver performs the
//! network calls, the sleeps and the clock readings, and reports each outcome
//! back; the types of this crate say what to do next and what the final
//! answer is.

pub mod block;
pub mod confidence;
pub mod endpoint;
pub mod errors;
pub mod laws;
pub mod protocol;
pub mod retrieval;
pub mod service;
pub mod submission;
pub mod traits;
pub mod types;

pub use primitive_types::U256;

pub use block::{AvailBlobTransaction, AvailBlock, AvailHeader, ExtrinsicsData};
pub use confidence::Confidence;
pub use endpoint::Endpoint;
pub use errors::{DaError, Error};
pub use retrieval::{Action, Event, Retrieval};
pub use service::{DaProvider, DaServiceConfig};
pub use submission::{Submission, SubmitAction, SubmitEvent};
pub use traits::{Leaf, StateMachine, ZkVMStateMachine};
pub use types::StateUpdate;

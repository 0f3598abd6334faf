//! Verified core of the bindings to libfswatch: status codes, event flags, monitor and filter
//! kinds, C strings, session options, and the bookkeeping of a session and of its event iterator.
pub mod builder;
pub mod cstring;
pub mod event;
pub mod iterator;
pub mod kinds;
pub mod session;
pub mod status;

pub use builder::{BuildPlan, BuildRun, FswSessionBuilder, SessionOp};
pub use cstring::c_string_bytes;
pub use event::{FswEvent, FswMonitorFilter, RawEvent};
pub use iterator::{IterStep, IteratorState, PollOutcome};
pub use kinds::{FswEventFlag, FswFilterType, FswMonitorType};
pub use session::{Fsw, FswSession, FSW_INVALID_HANDLE};
pub use status::{map_result, FswError, FswResult, FswStatus, NulError};

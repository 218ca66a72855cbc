//! In-process admission control under a fixed sliding-window quota:
//! each client key may be admitted at most [`MAX_REQUESTS`] times within any
//! rolling [`MAX_REQUESTS_DURATION_SECONDS`]-second window, and independent
//! keys are tracked independently.
//!
//! Four interchangeable strategies share one window model and differ only in
//! how concurrent callers synchronise on the per-key state:
//! a single registry-wide lock ([`version0::RateLimiter0`]), a lock-free map
//! of cloned windows ([`version1::RateLimiter1`]), a lock-free map of
//! per-key locked windows ([`version2::RateLimiter2`]), and a lock-free map
//! of bounded ring buffers ([`version3::RateLimiter3`]).

use vstd::prelude::*;

pub mod skipmap;
pub mod version0;
pub mod version1;
pub mod version2;
pub mod version3;
pub mod window;

pub use version0::RateLimiter0;
pub use version1::RateLimiter1;
pub use version2::RateLimiter2;
pub use version3::RateLimiter3;

verus! {

/// Most admissions a single client key may collect inside one rolling window.
pub const MAX_REQUESTS: usize = 100;

/// Length of the rolling admission window, in seconds.
pub const MAX_REQUESTS_DURATION_SECONDS: i64 = 60;

/// A client identifier, opaque to the quota logic. Callers that key requests
/// by network address map each address to a distinct value of this type.
pub type ClientKey = u128;

/// A point in time, counted in seconds. Only comparison and subtraction of
/// the window length ever touch it; no monotonicity is assumed.
pub type Timestamp = i64;

} // verus!

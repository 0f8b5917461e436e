//! Server-Timing response header for request pipelines: a per-request timing
//! session that handler code records into, and the rendering and merging of
//! that session into the `Server-Timing` header of the response.

pub mod format;
pub mod session;
pub mod headers;
pub mod layer;
pub mod laws;

pub use headers::add_timing_header;
pub use layer::{ServerTimingLayer, ServerTimingService};
pub use session::{ServerTiming, ServerTimingData};

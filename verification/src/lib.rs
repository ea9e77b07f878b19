//! Phase-by-phase latency reporting for a single HTTP transaction.
//!
//! The library turns a record of absolute timestamps captured by a transport
//! probe into five non-negative phase durations, and renders those durations,
//! the response status and the response headers as a fixed textual report.
//! The transport itself (DNS, TCP, TLS, HTTP) is an external collaborator and
//! lives outside this crate.

pub mod fmt;
pub mod headers;
pub mod render;
pub mod timing;

pub use headers::Header;
pub use headers::parse_header_line;
pub use headers::parse_headers;
pub use render::ConnectionInfo;
pub use render::RenderOptions;
pub use render::ResponseSummary;
pub use render::render_report;
pub use timing::PhaseDurations;
pub use timing::TimestampRecord;
pub use timing::derive_phases;
pub use timing::sub_clamped;

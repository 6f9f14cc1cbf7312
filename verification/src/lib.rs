//! Error representation and message extraction for a web-API client.
//!
//! Given a failed HTTP exchange (status code, status text, URL, method and an
//! optional response body), this crate derives a stable, user-presentable
//! message by heuristically inspecting the body, and packages the full
//! exchange for diagnostics. A two-variant [`Error`] type distinguishes bare
//! displayable failures from failures that carry full HTTP context.

pub mod digits;
pub mod extract;
pub mod json;
pub mod report;

pub use digits::u16_string;
pub use extract::extract_message;
pub use report::Error;
pub use report::HttpErrorDetails;

//! Native usage acquisition and normalization engine for a locally running
//! proxy service: cache-or-refresh orchestration of a usage panel, a
//! multi-endpoint/multi-header fetch negotiation protocol, and
//! schema-tolerant extraction of summary and row data from loosely shaped
//! JSON payloads.

pub mod accounts;
pub mod channel;
pub mod clock;
pub mod json;
pub mod negotiate;
pub mod normalize;
pub mod orchestrate;
pub mod panel;
pub mod text;

//! Render-session core for turning an HTML document into a PDF by driving a
//! browser over its debugging protocol: tab bookkeeping, command framing and
//! response correlation, permit accounting, and the workflow state machine.

pub mod channel;
pub mod error;
pub mod gate;
pub mod json;
pub mod laws;
pub mod session;
pub mod tab;

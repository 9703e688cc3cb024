//! Delivery core of a small push-notification tool: a message travels from a
//! sender to a listener either over a direct line-oriented connection or through
//! a publish/subscribe broker, optionally tagged with a shared-secret token, and
//! the listener substitutes it into a command template.

pub mod text;
pub mod envelope;
pub mod direct;
pub mod dispatch;
pub mod outcome;
pub mod operation;
pub mod laws;

//! Call-stream protocol handling for a telephony media-stream bridge.

pub mod classifier;
pub mod codec;
pub mod inbound;
pub mod json;
pub mod outbound;
pub mod sender;
pub mod session;
pub mod twiml;
pub mod twilio_types;

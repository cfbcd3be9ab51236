//! Frame capture for a real-time renderer: a session state machine that
//! schedules per-frame readbacks, hands frame payloads to an encoding
//! worker, and encodes one-shot screenshots.

pub mod encoder_cmd;
pub mod laws;
pub mod recorder;
pub mod still;

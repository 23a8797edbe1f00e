//! Client-side logic for a network scanner speaking an HTTP+XML control
//! protocol: the XML message codec, the JPEG segment codec that repairs a
//! placeholder frame height, the source-selection policy, and the job
//! lifecycle state machine.

pub mod form;
pub mod jpeg;
pub mod message;
pub mod scanner;
pub mod util;

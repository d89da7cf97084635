//! Client-side logic for a duplex real-time speech-recognition session:
//! connection retry scheduling, the wire codec for the task protocol,
//! real-time audio chunking, the transcript aggregation state machine,
//! and the record types that the surrounding application persists.

pub mod aggregator;
pub mod codec;
pub mod connect;
pub mod errors;
pub mod records;
pub mod relay;
pub mod session;
pub mod streamer;

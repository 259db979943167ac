//! Verified core of a Bluetooth beacon scanner: the beacon message codec,
//! the decoding of manufacturer data and of packet dumps, and the decisions
//! that the scanner's reading loop takes.
pub mod wire;
pub mod byte_buffer;
pub mod beacon;
pub mod radix;
pub mod text;
pub mod clock;
pub mod uuid_text;
pub mod scanner;
pub mod parser;
pub mod publisher;

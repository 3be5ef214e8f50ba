//! A minimal SNTP client core: the 48-byte wire frame, its encoding and
//! validating decoding, NTP timestamps, and the decisions of one
//! request/reply exchange.
pub mod exchange;
pub mod packet;

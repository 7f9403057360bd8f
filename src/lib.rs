//! A codec for HEP3 packets: typed TLV chunks, their wire encoding and
//! decoding, and a builder that assembles chunks into one packet.
pub mod error;
pub mod chunk_types;
pub mod bytes;
pub mod chunk;
pub mod factory;
pub mod packet;

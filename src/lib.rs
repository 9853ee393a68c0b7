//! Session negotiation messages of a mirroring receiver's control channel,
//! and extraction of codec configuration records from container headers.

pub mod body;
pub mod codec;
pub mod dto;
pub mod lifecycle;

//! A one-shot STUN binding-transaction client, verified: building the
//! request, driving the retry loop's decisions, and validating the response
//! are all specified and proved; the wire codec, the random source and the
//! socket are reached through a few narrow trusted declarations.

pub mod codec;
pub mod engine;
pub mod message;

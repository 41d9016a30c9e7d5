//! A library for assembling note-to-sound synthesis pipelines out of small,
//! pure, configurable transformation units ("resources").
//!
//! Every resource exposes a stable identity, a human-readable name and
//! description, and validators for its configuration (a flat JSON array) and
//! its opaque state (a byte sequence).  State is given to and returned from
//! every call explicitly, so that a resource's functions stay pure and a
//! caller can replay or rewind by replaying states.
//!
//! The resources defined here:
//! - a mod ([`resource::Mod`]) turns one piece of data into another;
//! - a channel ([`resource::Channel`]) renders one note into one sound by
//!   passing it through an ordered collection of mods;
//! - a mixer ([`resource::Mixer`]) combines the sound of several channels
//!   into one, returning unconsumed tails for the next call.
//!
//! [`pipeline::Pipeline`] keeps an ordered, sharable sequence of mods whose
//! adjacent input and output types are checked at run time.

pub mod boundary;
pub mod builder;
pub mod builtin;
pub mod channel;
pub mod mixer;
pub mod pipeline;
pub mod resource;
pub mod storage;
pub mod text;
pub mod types;
pub mod values;

pub use values::{JsonArray, ResConfig, ResState, ValueKind};

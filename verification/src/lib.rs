//! A minimal on-chain program core: it builds one small asset-metadata
//! record, encodes it in a fixed, deterministic binary layout, and hands the
//! bytes to the host runtime's size-limited, per-invocation return-data
//! channel.
//!
//! The host glue (entry-point registration and the actual return-data
//! syscall) lives outside this crate; everything here is plain logic with
//! verified contracts: the record codec, an in-memory model of the host's
//! return-data slot, and the invocation handler that ties them together.

pub mod channel;
pub mod handler;
pub mod record;

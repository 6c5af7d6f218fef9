//! Persists a small record (a person's name and age) as a compact binary
//! file and reloads it on the next run.
//!
//! The crate has two layers: [`codec`] defines the on-disk byte format and
//! proves that encoding and decoding are inverses, and [`store`] applies the
//! load policy (an absent or undecodable file yields the all-defaults
//! document) and the demo mutation. File and directory access stay with the
//! caller, which hands this crate the raw bytes it read and writes back the
//! bytes it is given.

pub mod codec;
pub mod data;
pub mod store;

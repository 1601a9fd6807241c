//! Wire-format core of an AMQP 0-9-1 (RabbitMQ dialect) protocol toolkit.
//!
//! The crate provides the closed type system of wire-level value tags with its
//! documented RabbitMQ deviations, a byte-exact encoder for abstract values
//! (including nested field tables and arrays and bit-packed flag groups), and
//! an in-memory model of the protocol grammar loaded from the bundled
//! machine-readable specification.

pub mod asset;
pub mod flags;
pub mod generation;
pub mod specs;
pub mod types;
pub mod value;

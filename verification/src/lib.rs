//! Client-side building blocks for LabJack T-series data acquisition devices
//! speaking Modbus TCP: the register data-type matrix with its big-endian
//! codecs, Modbus TCP message composition and validation (including the
//! vendor-specific Feedback function), the transaction-id demultiplexer state
//! for pipelined requests over one stream, device discovery parsing, and an
//! in-memory emulated transport for tests.

pub mod client;
pub mod composite;
pub mod conversion;
pub mod data_types;
pub mod device;
pub mod discover;
pub mod dist;
pub mod ef;
pub mod emulated;
pub mod error;
pub mod function;
pub mod register;
pub mod registers;
pub mod topic;
pub mod transport;
pub mod validate;

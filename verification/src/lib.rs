//! Configuration of a disk-backed event buffer.
//!
//! A buffer keeps its records in a directory of data files of bounded size.
//! [`config::DiskBufferConfigBuilder`] collects what the user asked for, fills in
//! the defaults, refuses parameters under which the buffer could not keep its
//! promises, and derives the buffer size that is used internally.
//!
//! - [`config`]: the builder, the finished configuration and the defaults;
//! - [`limits`]: the rules that the parameters must meet, as a mathematical model;
//! - [`error`]: what a refusal says;
//! - [`checksum`]: the hasher that record checksums start from;
//! - [`decimal`]: decimal numerals, for the refusals' texts;
//! - [`io`]: the filesystem parameter;
//! - [`record`]: the part of the record layout that the limits depend on;
//! - [`calls`]: what each call gives, field by field;
//! - [`laws`]: what holds of the configuration as a whole.
pub mod calls;
pub mod checksum;
pub mod config;
pub mod decimal;
pub mod error;
pub mod io;
pub mod laws;
pub mod limits;
pub mod record;

//! The configuration of a buffer, and its builder.
use crate::decimal::{decimal, push_decimal};
use crate::error::BuildError;
use crate::io::{Filesystem, ProductionFilesystem};
use crate::limits::Limits;
use crate::record::RECORD_HEADER_LEN;
use std::path::{Path, PathBuf};
use std::time::Duration;
use vstd::prelude::*;

verus! {

/// Data files grow to 128MB, and may overshoot that slightly.
pub const DEFAULT_MAX_DATA_FILE_SIZE: usize = 128 * 1024 * 1024;

/// A record may be as large as a data file, and no larger, even if it is the first one
/// that is written to the file.
pub const DEFAULT_MAX_RECORD_SIZE: usize = DEFAULT_MAX_DATA_FILE_SIZE;

/// Milliseconds between flushes to disk, which is reasonable for non-critical workloads.
pub const DEFAULT_FLUSH_INTERVAL_MILLIS: u64 = 500;

/// The writer gathers 256KB, which aligns with the I/O size that major cloud providers expose.
pub const DEFAULT_WRITE_BUFFER_SIZE: usize = 256 * 1024;

/// The largest identifier of a data file. The one after it is zero again.
pub const MAX_FILE_ID: u16 = u16::MAX;

/// `std::path::PathBuf` is opaque here: the data directory is carried, never read.
#[verifier::external_type_specification]
#[verifier::external_body]
pub struct ExPathBuf(PathBuf);

/// `std::path::Path` is opaque here.
#[verifier::external_type_specification]
#[verifier::external_body]
pub struct ExPath(Path);

/// The path that `std::path::PathBuf::as_path` returns for an owned path.
pub uninterp spec fn borrowed_path(owned: &PathBuf) -> &Path;

/// `std::path::PathBuf::as_path` is taken to depend on the owned path alone.
pub assume_specification[ PathBuf::as_path ](owned: &PathBuf) -> (path: &Path)
    ensures
        path == borrowed_path(owned),
;

/// `std::path::Path::to_path_buf` is taken to return the given path as an owned one: borrowed
/// again, it is the path that was given.
pub assume_specification[ Path::to_path_buf ](path: &Path) -> (owned: PathBuf)
    ensures
        borrowed_path(&owned) == path,
;

/// Cloning a `std::path::PathBuf` is taken to give the same path: borrowed, the two are equal.
pub assume_specification[ <PathBuf as Clone>::clone ](path: &PathBuf) -> (copy: PathBuf)
    ensures
        borrowed_path(&copy) == borrowed_path(path),
;

/// The number of nanoseconds that `std::time::Duration::as_nanos` returns.
pub uninterp spec fn duration_nanos(duration: Duration) -> nat;

/// `std::time::Duration::as_nanos` is taken to depend on the duration alone.
pub assume_specification[ Duration::as_nanos ](duration: &Duration) -> (nanos: u128)
    ensures
        nanos == duration_nanos(*duration),
;

/// The duration that `std::time::Duration::from_millis` returns.
pub uninterp spec fn millis_duration(millis: u64) -> Duration;

/// `std::time::Duration::from_millis` is taken to return, for the same number of
/// milliseconds, the same duration, which is a million nanoseconds for each of them.
pub assume_specification[ Duration::from_millis ](millis: u64) -> (duration: Duration)
    ensures
        duration == millis_duration(millis),
        duration_nanos(duration) == millis * 1_000_000,
;

/// Whether `interval` is the flush interval of a buffer for which none was set.
pub open spec fn is_default_interval(interval: Duration) -> bool {
    &&& interval == millis_duration(DEFAULT_FLUSH_INTERVAL_MILLIS)
    &&& duration_nanos(interval) == DEFAULT_FLUSH_INTERVAL_MILLIS * 1_000_000
}

/// The flush interval of a buffer for which none was set.
pub fn default_flush_interval() -> (interval: Duration)
    ensures
        is_default_interval(interval),
{
    Duration::from_millis(DEFAULT_FLUSH_INTERVAL_MILLIS)
}

/// Buffer configuration.
#[derive(Debug)]
pub struct DiskBufferConfig<FS> {
    /// Directory where this buffer will write its files.
    ///
    /// Must be unique from all other buffers, whether within the same process or in another
    /// one on the machine.
    pub data_dir: PathBuf,
    /// Maximum size, in bytes, of the records that have not been acknowledged.
    ///
    /// This is what the user allowed the buffer to consume, less one data file: the data
    /// file that is being read stays on disk until its last record is acknowledged.
    pub max_buffer_size: u64,
    /// Maximum size, in bytes, to target for each individual data file.
    pub max_data_file_size: u64,
    /// Maximum size, in bytes, of an encoded record.
    pub max_record_size: usize,
    /// Size, in bytes, of the writer's internal buffer.
    pub write_buffer_size: usize,
    /// Flush interval for ledger and data files.
    ///
    /// It bounds the window of time for data loss: what was written since the last flush is
    /// lost in a crash.
    pub flush_interval: Duration,
    /// Filesystem implementation for opening data files.
    pub filesystem: FS,
}

impl<FS> DiskBufferConfig<FS> {
    /// What every configuration that was built keeps.
    pub open spec fn well_formed(self) -> bool {
        &&& 0 < self.max_data_file_size <= self.max_buffer_size
        &&& self.max_buffer_size + self.max_data_file_size <= u64::MAX
        &&& RECORD_HEADER_LEN < self.max_record_size <= self.max_data_file_size
        &&& 0 < self.write_buffer_size
    }
}

impl<FS: Clone> Clone for DiskBufferConfig<FS> {
    fn clone(&self) -> (copy: Self)
        ensures
            copy == (Self { data_dir: copy.data_dir, filesystem: copy.filesystem, ..*self }),
            borrowed_path(&copy.data_dir) == borrowed_path(&self.data_dir),
            cloned(self.filesystem, copy.filesystem),
    {
        DiskBufferConfig {
            data_dir: self.data_dir.clone(),
            max_buffer_size: self.max_buffer_size,
            max_data_file_size: self.max_data_file_size,
            max_record_size: self.max_record_size,
            write_buffer_size: self.write_buffer_size,
            flush_interval: self.flush_interval,
            filesystem: self.filesystem.clone(),
        }
    }
}

/// Builder for [`DiskBufferConfig`].
#[derive(Debug)]
pub struct DiskBufferConfigBuilder<FS = ProductionFilesystem> where FS: Filesystem {
    pub data_dir: PathBuf,
    pub max_buffer_size: Option<u64>,
    pub max_data_file_size: Option<u64>,
    pub max_record_size: Option<usize>,
    pub write_buffer_size: Option<usize>,
    pub flush_interval: Option<Duration>,
    pub filesystem: FS,
}

impl<FS> Clone for DiskBufferConfigBuilder<FS> where FS: Filesystem + Clone {
    fn clone(&self) -> (copy: Self)
        ensures
            copy == (Self { data_dir: copy.data_dir, filesystem: copy.filesystem, ..*self }),
            borrowed_path(&copy.data_dir) == borrowed_path(&self.data_dir),
            cloned(self.filesystem, copy.filesystem),
    {
        DiskBufferConfigBuilder {
            data_dir: self.data_dir.clone(),
            max_buffer_size: self.max_buffer_size,
            max_data_file_size: self.max_data_file_size,
            max_record_size: self.max_record_size,
            write_buffer_size: self.write_buffer_size,
            flush_interval: self.flush_interval,
            filesystem: self.filesystem.clone(),
        }
    }
}

impl DiskBufferConfigBuilder {
    /// A builder for a buffer in the directory `data_dir`, with nothing else set.
    pub fn from_path(data_dir: &Path) -> (builder: DiskBufferConfigBuilder)
        ensures
            borrowed_path(&builder.data_dir) == data_dir,
            builder == (DiskBufferConfigBuilder {
                data_dir: builder.data_dir,
                max_buffer_size: None,
                max_data_file_size: None,
                max_record_size: None,
                write_buffer_size: None,
                flush_interval: None,
                filesystem: ProductionFilesystem,
            }),
    {
        DiskBufferConfigBuilder {
            data_dir: data_dir.to_path_buf(),
            max_buffer_size: None,
            max_data_file_size: None,
            max_record_size: None,
            write_buffer_size: None,
            flush_interval: None,
            filesystem: ProductionFilesystem,
        }
    }
}

impl<FS> DiskBufferConfigBuilder<FS> where FS: Filesystem {
    /// What this builder asks for: what was set, and the defaults for the rest.
    pub open spec fn requested(self) -> Limits {
        Limits {
            max_buffer_size: match self.max_buffer_size {
                Some(amount) => amount as int,
                None => u64::MAX as int,
            },
            max_data_file_size: match self.max_data_file_size {
                Some(amount) => amount as int,
                None => DEFAULT_MAX_DATA_FILE_SIZE as int,
            },
            max_record_size: match self.max_record_size {
                Some(amount) => amount as int,
                None => DEFAULT_MAX_RECORD_SIZE as int,
            },
            write_buffer_size: match self.write_buffer_size {
                Some(amount) => amount as int,
                None => DEFAULT_WRITE_BUFFER_SIZE as int,
            },
        }
    }

    /// Whether `interval` is the flush interval that this builder asks for.
    pub open spec fn requests_interval(self, interval: Duration) -> bool {
        match self.flush_interval {
            Some(set) => interval == set,
            None => is_default_interval(interval),
        }
    }

    /// Whether `config` is what this builder asks for, with one data file's worth of the
    /// buffer size set aside.
    pub open spec fn describes(self, config: DiskBufferConfig<FS>) -> bool {
        let requested = self.requested();
        &&& config.data_dir == self.data_dir
        &&& config.max_buffer_size == requested.max_buffer_size - requested.max_data_file_size
        &&& config.max_data_file_size == requested.max_data_file_size
        &&& config.max_record_size == requested.max_record_size
        &&& config.write_buffer_size == requested.write_buffer_size
        &&& self.requests_interval(config.flush_interval)
        &&& config.filesystem == self.filesystem
    }

    /// This builder with the maximum buffer size set.
    pub open spec fn with_max_buffer_size(self, amount: u64) -> Self {
        Self { max_buffer_size: Some(amount), ..self }
    }

    /// This builder with the maximum data file size set.
    pub open spec fn with_max_data_file_size(self, amount: u64) -> Self {
        Self { max_data_file_size: Some(amount), ..self }
    }

    /// This builder with the maximum record size set.
    pub open spec fn with_max_record_size(self, amount: usize) -> Self {
        Self { max_record_size: Some(amount), ..self }
    }

    /// This builder with the write buffer size set.
    pub open spec fn with_write_buffer_size(self, amount: usize) -> Self {
        Self { write_buffer_size: Some(amount), ..self }
    }

    /// This builder with the flush interval set.
    pub open spec fn with_flush_interval(self, interval: Duration) -> Self {
        Self { flush_interval: Some(interval), ..self }
    }

    /// This builder with another filesystem.
    pub open spec fn with_filesystem<FS2>(self, filesystem: FS2) -> DiskBufferConfigBuilder<
        FS2,
    > where FS2: Filesystem {
        DiskBufferConfigBuilder {
            data_dir: self.data_dir,
            max_buffer_size: self.max_buffer_size,
            max_data_file_size: self.max_data_file_size,
            max_record_size: self.max_record_size,
            write_buffer_size: self.write_buffer_size,
            flush_interval: self.flush_interval,
            filesystem,
        }
    }

    /// Sets the maximum size, in bytes, that the buffer can consume.
    ///
    /// One data file's worth of it is set aside, because a data file stays on disk until all
    /// of its records have been read and acknowledged. So the buffer never takes up more
    /// than this amount.
    ///
    /// Defaults to the largest possible amount, or effectively no limit. Due to the internal
    /// design of the buffer, the effective maximum limit is around `max_data_file_size` * 2^16.
    pub fn max_buffer_size(self, amount: u64) -> (builder: Self)
        ensures
            builder == self.with_max_buffer_size(amount),
            builder.data_dir == self.data_dir,
            builder.max_buffer_size == Some(amount),
            builder.max_data_file_size == self.max_data_file_size,
            builder.max_record_size == self.max_record_size,
            builder.write_buffer_size == self.write_buffer_size,
            builder.flush_interval == self.flush_interval,
            builder.filesystem == self.filesystem,
    {
        let mut builder = self;
        builder.max_buffer_size = Some(amount);
        builder
    }

    /// Sets the maximum size, in bytes, to target for each individual data file.
    ///
    /// Data files are not written to once they are as large as this value, but the last
    /// record that is written to one may cause it to exceed this value, by as much as
    /// `max_record_size`.
    ///
    /// Defaults to 128MB.
    pub fn max_data_file_size(self, amount: u64) -> (builder: Self)
        ensures
            builder == self.with_max_data_file_size(amount),
            builder.data_dir == self.data_dir,
            builder.max_buffer_size == self.max_buffer_size,
            builder.max_data_file_size == Some(amount),
            builder.max_record_size == self.max_record_size,
            builder.write_buffer_size == self.write_buffer_size,
            builder.flush_interval == self.flush_interval,
            builder.filesystem == self.filesystem,
    {
        let mut builder = self;
        builder.max_data_file_size = Some(amount);
        builder
    }

    /// Sets the maximum size, in bytes, of an encoded record.
    ///
    /// Any record which, when encoded, is larger than this amount will not be written to
    /// the buffer.
    ///
    /// Defaults to 128MB.
    pub fn max_record_size(self, amount: usize) -> (builder: Self)
        ensures
            builder == self.with_max_record_size(amount),
            builder.data_dir == self.data_dir,
            builder.max_buffer_size == self.max_buffer_size,
            builder.max_data_file_size == self.max_data_file_size,
            builder.max_record_size == Some(amount),
            builder.write_buffer_size == self.write_buffer_size,
            builder.flush_interval == self.flush_interval,
            builder.filesystem == self.filesystem,
    {
        let mut builder = self;
        builder.max_record_size = Some(amount);
        builder
    }

    /// Sets the size, in bytes, of the writer's internal buffer.
    ///
    /// This buffer is used to coalesce writes to the underlying data file where possible,
    /// which reduces the number of syscalls needed to issue them.
    ///
    /// Defaults to 256KB.
    pub fn write_buffer_size(self, amount: usize) -> (builder: Self)
        ensures
            builder == self.with_write_buffer_size(amount),
            builder.data_dir == self.data_dir,
            builder.max_buffer_size == self.max_buffer_size,
            builder.max_data_file_size == self.max_data_file_size,
            builder.max_record_size == self.max_record_size,
            builder.write_buffer_size == Some(amount),
            builder.flush_interval == self.flush_interval,
            builder.filesystem == self.filesystem,
    {
        let mut builder = self;
        builder.write_buffer_size = Some(amount);
        builder
    }

    /// Sets the flush interval for ledger and data files.
    ///
    /// In the event that data had not yet been durably written to disk, and the process
    /// crashed, the amount of data written since the last flush would be lost.
    ///
    /// Defaults to 500ms.
    pub fn flush_interval(self, interval: Duration) -> (builder: Self)
        ensures
            builder == self.with_flush_interval(interval),
            builder.data_dir == self.data_dir,
            builder.max_buffer_size == self.max_buffer_size,
            builder.max_data_file_size == self.max_data_file_size,
            builder.max_record_size == self.max_record_size,
            builder.write_buffer_size == self.write_buffer_size,
            builder.flush_interval == Some(interval),
            builder.filesystem == self.filesystem,
    {
        let mut builder = self;
        builder.flush_interval = Some(interval);
        builder
    }

    /// Sets the filesystem implementation for opening data files.
    ///
    /// Defaults to [`ProductionFilesystem`].
    pub fn filesystem<FS2>(self, filesystem: FS2) -> (builder: DiskBufferConfigBuilder<
        FS2,
    >) where FS2: Filesystem
        ensures
            builder == self.with_filesystem(filesystem),
            builder.data_dir == self.data_dir,
            builder.max_buffer_size == self.max_buffer_size,
            builder.max_data_file_size == self.max_data_file_size,
            builder.max_record_size == self.max_record_size,
            builder.write_buffer_size == self.write_buffer_size,
            builder.flush_interval == self.flush_interval,
            builder.filesystem == filesystem,
    {
        DiskBufferConfigBuilder {
            data_dir: self.data_dir,
            max_buffer_size: self.max_buffer_size,
            max_data_file_size: self.max_data_file_size,
            max_record_size: self.max_record_size,
            write_buffer_size: self.write_buffer_size,
            flush_interval: self.flush_interval,
            filesystem,
        }
    }

    /// Consumes this builder and constructs a `DiskBufferConfig`.
    ///
    /// It succeeds if and only if what is requested is admissible. If it is not, the error
    /// names the parameter and gives the reason of the first rule that is broken.
    pub fn build(self) -> (result: Result<DiskBufferConfig<FS>, BuildError>)
        ensures
            result is Ok <==> self.requested().admissible(),
            match result {
                Ok(config) => {
                    &&& self.describes(config)
                    &&& config.well_formed()
                },
                Err(error) => {
                    &&& self.requested().first_broken() matches Some(rule)
                    &&& error.refuses(self.requested(), rule)
                },
            },
    {
        let max_buffer_size: u64 = self.max_buffer_size.unwrap_or(u64::MAX);
        let max_data_file_size: u64 = self.max_data_file_size.unwrap_or(
            DEFAULT_MAX_DATA_FILE_SIZE as u64,
        );
        let max_record_size: usize = self.max_record_size.unwrap_or(DEFAULT_MAX_RECORD_SIZE);
        let write_buffer_size: usize = self.write_buffer_size.unwrap_or(DEFAULT_WRITE_BUFFER_SIZE);
        let flush_interval = match self.flush_interval {
            Some(interval) => interval,
            None => default_flush_interval(),
        };
        let filesystem = self.filesystem;

        // Validate the input parameters.
        if max_data_file_size == 0 {
            return Err(
                BuildError::InvalidParameter {
                    param_name: "max_data_file_size",
                    reason: "cannot be zero".to_string(),
                },
            );
        }
        if max_data_file_size > u64::MAX / 2 {
            return Err(
                BuildError::InvalidParameter {
                    param_name: "max_data_file_size",
                    reason: bytes_reason("cannot be greater than ", u64::MAX / 2),
                },
            );
        }
        if max_buffer_size < max_data_file_size * 2 {
            return Err(
                BuildError::InvalidParameter {
                    param_name: "max_buffer_size",
                    reason: bytes_reason(
                        "must be greater than or equal to ",
                        max_data_file_size * 2,
                    ),
                },
            );
        }
        if max_record_size == 0 {
            return Err(
                BuildError::InvalidParameter {
                    param_name: "max_record_size",
                    reason: "cannot be zero".to_string(),
                },
            );
        }
        if max_record_size <= RECORD_HEADER_LEN {
            return Err(
                BuildError::InvalidParameter {
                    param_name: "max_record_size",
                    reason: bytes_reason("must be greater than ", RECORD_HEADER_LEN as u64),
                },
            );
        }
        if max_record_size as u64 > max_data_file_size {
            return Err(
                BuildError::InvalidParameter {
                    param_name: "max_record_size",
                    reason: "must be less than or equal to `max_data_file_size`".to_string(),
                },
            );
        }
        if write_buffer_size == 0 {
            return Err(
                BuildError::InvalidParameter {
                    param_name: "write_buffer_size",
                    reason: "cannot be zero".to_string(),
                },
            );
        }
        // The size of the buffer is tracked as the size of all unacknowledged records, while
        // a data file stays on disk until every record in it has been acknowledged. So up to
        // one data file's worth of acknowledged records can be on disk besides the tracked
        // ones, and that much is set aside here. Since the buffer has room for two data files,
        // the writer can still fill one while the reader is at the end of another.

        let max_buffer_size: u64 = max_buffer_size - max_data_file_size;

        Ok(
            DiskBufferConfig {
                data_dir: self.data_dir,
                max_buffer_size,
                max_data_file_size,
                max_record_size,
                write_buffer_size,
                flush_interval,
                filesystem,
            },
        )
    }
}

/// A reason that ends in an amount of bytes.
fn bytes_reason(requirement: &str, amount: u64) -> (reason: String)
    ensures
        reason@ == requirement@ + decimal(amount as nat) + " bytes"@,
{
    let mut reason = requirement.to_string();
    push_decimal(&mut reason, amount);
    reason.append(" bytes");
    reason
}

} // verus!

//! What each call gives, field by field, whatever it is called on.
use crate::config::{
    default_flush_interval, DiskBufferConfig, DiskBufferConfigBuilder,
    DEFAULT_FLUSH_INTERVAL_MILLIS, DEFAULT_MAX_DATA_FILE_SIZE, DEFAULT_MAX_RECORD_SIZE,
    DEFAULT_WRITE_BUFFER_SIZE, MAX_FILE_ID,
};
use crate::decimal::decimal;
use crate::error::BuildError;
use crate::io::{Filesystem, ProductionFilesystem};
use crate::record::RECORD_HEADER_LEN;
use std::path::{Path, PathBuf};
use std::time::Duration;
use vstd::prelude::*;

verus! {

/// The sizes that a buffer has unless others are set, and the other fixed numbers.
pub proof fn law_fixed_numbers()
    ensures
        DEFAULT_MAX_DATA_FILE_SIZE == 134_217_728,
        DEFAULT_MAX_RECORD_SIZE == 134_217_728,
        DEFAULT_WRITE_BUFFER_SIZE == 262_144,
        DEFAULT_FLUSH_INTERVAL_MILLIS == 500,
        MAX_FILE_ID == 65_535,
        RECORD_HEADER_LEN == 48,
{
}

/// The default flush interval is what 500 milliseconds make.
pub proof fn law_default_flush_interval(interval: Duration, half_second: Duration)
    requires
        call_ensures(default_flush_interval, (), interval),
        call_ensures(Duration::from_millis, (500u64,), half_second),
    ensures
        interval == half_second,
{
}

/// A new builder holds the path that it was made from, and nothing is set in it.
pub proof fn law_from_path(data_dir: &Path, builder: DiskBufferConfigBuilder, path: &Path)
    requires
        call_ensures(DiskBufferConfigBuilder::from_path, (data_dir,), builder),
        call_ensures(PathBuf::as_path, (&builder.data_dir,), path),
    ensures
        path == data_dir,
        builder.max_buffer_size is None,
        builder.max_data_file_size is None,
        builder.max_record_size is None,
        builder.write_buffer_size is None,
        builder.flush_interval is None,
        builder.filesystem == ProductionFilesystem,
{
}

/// Setting the maximum buffer size sets it to just that, and leaves every other field as it was.
pub proof fn law_max_buffer_size<FS: Filesystem>(
    builder: DiskBufferConfigBuilder<FS>,
    amount: u64,
    set: DiskBufferConfigBuilder<FS>,
)
    requires
        call_ensures(DiskBufferConfigBuilder::<FS>::max_buffer_size, (builder, amount), set),
    ensures
        set.data_dir == builder.data_dir,
        set.max_buffer_size == Some(amount),
        set.max_data_file_size == builder.max_data_file_size,
        set.max_record_size == builder.max_record_size,
        set.write_buffer_size == builder.write_buffer_size,
        set.flush_interval == builder.flush_interval,
        set.filesystem == builder.filesystem,
{
}

/// Setting the maximum data file size sets it to just that, and leaves every other field as it was.
pub proof fn law_max_data_file_size<FS: Filesystem>(
    builder: DiskBufferConfigBuilder<FS>,
    amount: u64,
    set: DiskBufferConfigBuilder<FS>,
)
    requires
        call_ensures(DiskBufferConfigBuilder::<FS>::max_data_file_size, (builder, amount), set),
    ensures
        set.data_dir == builder.data_dir,
        set.max_buffer_size == builder.max_buffer_size,
        set.max_data_file_size == Some(amount),
        set.max_record_size == builder.max_record_size,
        set.write_buffer_size == builder.write_buffer_size,
        set.flush_interval == builder.flush_interval,
        set.filesystem == builder.filesystem,
{
}

/// Setting the maximum record size sets it to just that, and leaves every other field as it was.
pub proof fn law_max_record_size<FS: Filesystem>(
    builder: DiskBufferConfigBuilder<FS>,
    amount: usize,
    set: DiskBufferConfigBuilder<FS>,
)
    requires
        call_ensures(DiskBufferConfigBuilder::<FS>::max_record_size, (builder, amount), set),
    ensures
        set.data_dir == builder.data_dir,
        set.max_buffer_size == builder.max_buffer_size,
        set.max_data_file_size == builder.max_data_file_size,
        set.max_record_size == Some(amount),
        set.write_buffer_size == builder.write_buffer_size,
        set.flush_interval == builder.flush_interval,
        set.filesystem == builder.filesystem,
{
}

/// Setting the write buffer size sets it to just that, and leaves every other field as it was.
pub proof fn law_write_buffer_size<FS: Filesystem>(
    builder: DiskBufferConfigBuilder<FS>,
    amount: usize,
    set: DiskBufferConfigBuilder<FS>,
)
    requires
        call_ensures(DiskBufferConfigBuilder::<FS>::write_buffer_size, (builder, amount), set),
    ensures
        set.data_dir == builder.data_dir,
        set.max_buffer_size == builder.max_buffer_size,
        set.max_data_file_size == builder.max_data_file_size,
        set.max_record_size == builder.max_record_size,
        set.write_buffer_size == Some(amount),
        set.flush_interval == builder.flush_interval,
        set.filesystem == builder.filesystem,
{
}

/// Setting the flush interval sets it to just that, and leaves every other field as it was.
pub proof fn law_flush_interval<FS: Filesystem>(
    builder: DiskBufferConfigBuilder<FS>,
    interval: Duration,
    set: DiskBufferConfigBuilder<FS>,
)
    requires
        call_ensures(DiskBufferConfigBuilder::<FS>::flush_interval, (builder, interval), set),
    ensures
        set.data_dir == builder.data_dir,
        set.max_buffer_size == builder.max_buffer_size,
        set.max_data_file_size == builder.max_data_file_size,
        set.max_record_size == builder.max_record_size,
        set.write_buffer_size == builder.write_buffer_size,
        set.flush_interval == Some(interval),
        set.filesystem == builder.filesystem,
{
}

/// Setting the filesystem sets it to just that, and leaves every other field as it was.
pub proof fn law_filesystem<FS: Filesystem, FS2: Filesystem>(
    builder: DiskBufferConfigBuilder<FS>,
    filesystem: FS2,
    set: DiskBufferConfigBuilder<FS2>,
)
    requires
        call_ensures(DiskBufferConfigBuilder::<FS>::filesystem::<FS2>, (builder, filesystem), set),
    ensures
        set.data_dir == builder.data_dir,
        set.max_buffer_size == builder.max_buffer_size,
        set.max_data_file_size == builder.max_data_file_size,
        set.max_record_size == builder.max_record_size,
        set.write_buffer_size == builder.write_buffer_size,
        set.flush_interval == builder.flush_interval,
        set.filesystem == filesystem,
{
}

/// A configuration is built if and only if a data file holds something and can be doubled,
/// the buffer holds two data files, a record holds more than its header and fits a data
/// file, and the writer's buffer holds something.
pub proof fn law_build_succeeds_iff<FS: Filesystem>(
    builder: DiskBufferConfigBuilder<FS>,
    result: Result<DiskBufferConfig<FS>, BuildError>,
)
    requires
        call_ensures(DiskBufferConfigBuilder::<FS>::build, (builder,), result),
    ensures
        ({
            let buffer: int = match builder.max_buffer_size {
                Some(amount) => amount as int,
                None => 18_446_744_073_709_551_615,
            };
            let file: int = match builder.max_data_file_size {
                Some(amount) => amount as int,
                None => 134_217_728,
            };
            let record: int = match builder.max_record_size {
                Some(amount) => amount as int,
                None => 134_217_728,
            };
            let write: int = match builder.write_buffer_size {
                Some(amount) => amount as int,
                None => 262_144,
            };
            result is Ok <==> {
                &&& 0 < file <= 9_223_372_036_854_775_807
                &&& 2 * file <= buffer
                &&& RECORD_HEADER_LEN < record <= file
                &&& 0 < write
            }
        }),
{
}

/// Every setting reaches the field of its own name, with the buffer size less one data file.
pub proof fn law_build_carries_settings<FS: Filesystem>(
    builder: DiskBufferConfigBuilder<FS>,
    config: DiskBufferConfig<FS>,
)
    requires
        call_ensures(
            DiskBufferConfigBuilder::<FS>::build,
            (builder,),
            Ok::<DiskBufferConfig<FS>, BuildError>(config),
        ),
    ensures
        config.data_dir == builder.data_dir,
        builder.max_buffer_size matches Some(amount) ==> config.max_buffer_size == amount
            - config.max_data_file_size,
        builder.max_data_file_size matches Some(amount) ==> config.max_data_file_size == amount,
        builder.max_record_size matches Some(amount) ==> config.max_record_size == amount,
        builder.write_buffer_size matches Some(amount) ==> config.write_buffer_size == amount,
        builder.flush_interval matches Some(interval) ==> config.flush_interval == interval,
        config.filesystem == builder.filesystem,
{
}

/// What is not set is filled in: no limit on the buffer but its data file, data files and
/// records of 128MB, a write buffer of 256KB, and a flush every 500 milliseconds.
pub proof fn law_build_fills_in_defaults<FS: Filesystem>(
    builder: DiskBufferConfigBuilder<FS>,
    config: DiskBufferConfig<FS>,
    half_second: Duration,
)
    requires
        call_ensures(
            DiskBufferConfigBuilder::<FS>::build,
            (builder,),
            Ok::<DiskBufferConfig<FS>, BuildError>(config),
        ),
        call_ensures(Duration::from_millis, (500u64,), half_second),
    ensures
        builder.max_buffer_size is None ==> config.max_buffer_size == 18_446_744_073_709_551_615
            - config.max_data_file_size,
        builder.max_data_file_size is None ==> config.max_data_file_size == 134_217_728,
        builder.max_record_size is None ==> config.max_record_size == 134_217_728,
        builder.write_buffer_size is None ==> config.write_buffer_size == 262_144,
        builder.flush_interval is None ==> config.flush_interval == half_second,
{
}

/// Every configuration that was built has room for a data file besides the one that is set
/// aside, for the largest record in a data file, and for something beyond a record's header.
pub proof fn law_build_keeps_proportions<FS: Filesystem>(
    builder: DiskBufferConfigBuilder<FS>,
    config: DiskBufferConfig<FS>,
)
    requires
        call_ensures(
            DiskBufferConfigBuilder::<FS>::build,
            (builder,),
            Ok::<DiskBufferConfig<FS>, BuildError>(config),
        ),
    ensures
        0 < config.max_data_file_size <= config.max_buffer_size,
        config.max_buffer_size + config.max_data_file_size <= 18_446_744_073_709_551_615,
        RECORD_HEADER_LEN < config.max_record_size <= config.max_data_file_size,
        0 < config.write_buffer_size,
{
}

/// A refusal names the parameter that is at fault and says what is wrong with it. Of several
/// faults, that of the data file size comes first, and those of the buffer size, the record
/// size and the write buffer size follow.
pub proof fn law_build_explains_refusals<FS: Filesystem>(
    builder: DiskBufferConfigBuilder<FS>,
    param_name: &'static str,
    reason: String,
)
    requires
        call_ensures(
            DiskBufferConfigBuilder::<FS>::build,
            (builder,),
            Err::<DiskBufferConfig<FS>, BuildError>(
                BuildError::InvalidParameter { param_name, reason },
            ),
        ),
    ensures
        ({
            let buffer: int = match builder.max_buffer_size {
                Some(amount) => amount as int,
                None => 18_446_744_073_709_551_615,
            };
            let file: int = match builder.max_data_file_size {
                Some(amount) => amount as int,
                None => 134_217_728,
            };
            let record: int = match builder.max_record_size {
                Some(amount) => amount as int,
                None => 134_217_728,
            };
            let write: int = match builder.write_buffer_size {
                Some(amount) => amount as int,
                None => 262_144,
            };
            let file_fits = 0 < file <= 9_223_372_036_854_775_807;
            let buffer_fits = file_fits && 2 * file <= buffer;
            let record_fits = buffer_fits && RECORD_HEADER_LEN < record <= file;
            &&& !file_fits ==> param_name@ == "max_data_file_size"@
            &&& file_fits && !buffer_fits ==> param_name@ == "max_buffer_size"@
            &&& buffer_fits && !record_fits ==> param_name@ == "max_record_size"@
            &&& record_fits ==> param_name@ == "write_buffer_size"@ && write == 0
            &&& file == 0 ==> reason@ == "cannot be zero"@
            &&& file > 9_223_372_036_854_775_807 ==> reason@ == "cannot be greater than "@
                + decimal(9_223_372_036_854_775_807) + " bytes"@
            &&& file_fits && !buffer_fits ==> reason@ == "must be greater than or equal to "@
                + decimal((2 * file) as nat) + " bytes"@
            &&& buffer_fits && record == 0 ==> reason@ == "cannot be zero"@
            &&& buffer_fits && 0 < record <= RECORD_HEADER_LEN ==> reason@
                == "must be greater than "@ + decimal(RECORD_HEADER_LEN as nat) + " bytes"@
            &&& buffer_fits && RECORD_HEADER_LEN < record && file < record ==> reason@
                == "must be less than or equal to `max_data_file_size`"@
            &&& record_fits ==> reason@ == "cannot be zero"@
        }),
{
}

/// The message of a refusal is the parameter's name and the reason, in one sentence.
pub proof fn law_message(param_name: &'static str, reason: String, message: String)
    requires
        call_ensures(
            BuildError::message,
            (&BuildError::InvalidParameter { param_name, reason },),
            message,
        ),
    ensures
        message@ == "parameter '"@ + param_name@ + "' was invalid: "@ + reason@,
{
}

/// A configuration that is built right after the maximum buffer size was set has it.
pub proof fn law_max_buffer_size_reaches_config<FS: Filesystem>(
    builder: DiskBufferConfigBuilder<FS>,
    amount: u64,
    set: DiskBufferConfigBuilder<FS>,
    config: DiskBufferConfig<FS>,
)
    requires
        call_ensures(DiskBufferConfigBuilder::<FS>::max_buffer_size, (builder, amount), set),
        call_ensures(
            DiskBufferConfigBuilder::<FS>::build,
            (set,),
            Ok::<DiskBufferConfig<FS>, BuildError>(config),
        ),
    ensures
        config.max_buffer_size + config.max_data_file_size == amount,
{
}

/// A configuration that is built right after the maximum data file size was set has it.
pub proof fn law_max_data_file_size_reaches_config<FS: Filesystem>(
    builder: DiskBufferConfigBuilder<FS>,
    amount: u64,
    set: DiskBufferConfigBuilder<FS>,
    config: DiskBufferConfig<FS>,
)
    requires
        call_ensures(DiskBufferConfigBuilder::<FS>::max_data_file_size, (builder, amount), set),
        call_ensures(
            DiskBufferConfigBuilder::<FS>::build,
            (set,),
            Ok::<DiskBufferConfig<FS>, BuildError>(config),
        ),
    ensures
        config.max_data_file_size == amount,
{
}

/// A configuration that is built right after the maximum record size was set has it.
pub proof fn law_max_record_size_reaches_config<FS: Filesystem>(
    builder: DiskBufferConfigBuilder<FS>,
    amount: usize,
    set: DiskBufferConfigBuilder<FS>,
    config: DiskBufferConfig<FS>,
)
    requires
        call_ensures(DiskBufferConfigBuilder::<FS>::max_record_size, (builder, amount), set),
        call_ensures(
            DiskBufferConfigBuilder::<FS>::build,
            (set,),
            Ok::<DiskBufferConfig<FS>, BuildError>(config),
        ),
    ensures
        config.max_record_size == amount,
{
}

/// A configuration that is built right after the write buffer size was set has it.
pub proof fn law_write_buffer_size_reaches_config<FS: Filesystem>(
    builder: DiskBufferConfigBuilder<FS>,
    amount: usize,
    set: DiskBufferConfigBuilder<FS>,
    config: DiskBufferConfig<FS>,
)
    requires
        call_ensures(DiskBufferConfigBuilder::<FS>::write_buffer_size, (builder, amount), set),
        call_ensures(
            DiskBufferConfigBuilder::<FS>::build,
            (set,),
            Ok::<DiskBufferConfig<FS>, BuildError>(config),
        ),
    ensures
        config.write_buffer_size == amount,
{
}

/// A configuration that is built right after the flush interval was set has it.
pub proof fn law_flush_interval_reaches_config<FS: Filesystem>(
    builder: DiskBufferConfigBuilder<FS>,
    interval: Duration,
    set: DiskBufferConfigBuilder<FS>,
    config: DiskBufferConfig<FS>,
)
    requires
        call_ensures(DiskBufferConfigBuilder::<FS>::flush_interval, (builder, interval), set),
        call_ensures(
            DiskBufferConfigBuilder::<FS>::build,
            (set,),
            Ok::<DiskBufferConfig<FS>, BuildError>(config),
        ),
    ensures
        config.flush_interval == interval,
{
}

/// A configuration that is built right after the filesystem was set has it.
pub proof fn law_filesystem_reaches_config<FS: Filesystem, FS2: Filesystem>(
    builder: DiskBufferConfigBuilder<FS>,
    filesystem: FS2,
    set: DiskBufferConfigBuilder<FS2>,
    config: DiskBufferConfig<FS2>,
)
    requires
        call_ensures(DiskBufferConfigBuilder::<FS>::filesystem::<FS2>, (builder, filesystem), set),
        call_ensures(
            DiskBufferConfigBuilder::<FS2>::build,
            (set,),
            Ok::<DiskBufferConfig<FS2>, BuildError>(config),
        ),
    ensures
        config.filesystem == filesystem,
{
}

/// The clone of a configuration holds the same in every field, the filesystem as it clones itself.
pub proof fn law_config_clone<FS: Clone>(
    config: DiskBufferConfig<FS>,
    copy: DiskBufferConfig<FS>,
    path: &Path,
    copied_path: &Path,
)
    requires
        call_ensures(<DiskBufferConfig<FS> as Clone>::clone, (&config,), copy),
        call_ensures(PathBuf::as_path, (&config.data_dir,), path),
        call_ensures(PathBuf::as_path, (&copy.data_dir,), copied_path),
    ensures
        copied_path == path,
        copy.max_buffer_size == config.max_buffer_size,
        copy.max_data_file_size == config.max_data_file_size,
        copy.max_record_size == config.max_record_size,
        copy.write_buffer_size == config.write_buffer_size,
        copy.flush_interval == config.flush_interval,
        cloned(config.filesystem, copy.filesystem),
{
}

/// The clone of a builder holds the same in every field, the filesystem as it clones itself.
pub proof fn law_builder_clone<FS: Filesystem + Clone>(
    builder: DiskBufferConfigBuilder<FS>,
    copy: DiskBufferConfigBuilder<FS>,
    path: &Path,
    copied_path: &Path,
)
    requires
        call_ensures(<DiskBufferConfigBuilder<FS> as Clone>::clone, (&builder,), copy),
        call_ensures(PathBuf::as_path, (&builder.data_dir,), path),
        call_ensures(PathBuf::as_path, (&copy.data_dir,), copied_path),
    ensures
        copied_path == path,
        copy.max_buffer_size == builder.max_buffer_size,
        copy.max_data_file_size == builder.max_data_file_size,
        copy.max_record_size == builder.max_record_size,
        copy.write_buffer_size == builder.write_buffer_size,
        copy.flush_interval == builder.flush_interval,
        cloned(builder.filesystem, copy.filesystem),
{
}

} // verus!

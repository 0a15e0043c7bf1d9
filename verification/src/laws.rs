//! What holds of the configuration as a whole.
use crate::checksum::create_crc32c_hasher;
use crate::config::{
    default_flush_interval, duration_nanos, is_default_interval, millis_duration,
    DiskBufferConfig, DiskBufferConfigBuilder, DEFAULT_MAX_DATA_FILE_SIZE,
    DEFAULT_MAX_RECORD_SIZE, DEFAULT_WRITE_BUFFER_SIZE,
};
use crate::io::Filesystem;
use crate::limits::{Limits, Rule};
use crate::record::RECORD_HEADER_LEN;
use crc32fast::Hasher;
use std::path::{Path, PathBuf};
use std::time::Duration;
use vstd::arithmetic::div_mod::{lemma_fundamental_div_mod, lemma_mod_multiples_basic};
use vstd::prelude::*;

verus! {

/// The least multiple of `unit` that is not below `amount`.
pub open spec fn round_up(amount: int, unit: int) -> int
    recommends
        0 < unit,
{
    (amount + unit - 1) / unit * unit
}

/// Rounding up gives a multiple of the unit, less than one unit above the amount.
pub proof fn lemma_round_up(amount: int, unit: int)
    requires
        0 < unit,
    ensures
        amount <= round_up(amount, unit) < amount + unit,
        round_up(amount, unit) % unit == 0,
{
    let last = amount + unit - 1;
    lemma_fundamental_div_mod(last, unit);
    assert(last / unit * unit == unit * (last / unit)) by (nonlinear_arith);
    lemma_mod_multiples_basic(last / unit, unit);
}

/// A rule is reported if and only if it is broken and no rule that is tried before it is.
pub proof fn law_first_broken_rule_is_reported(limits: Limits, rule: Rule)
    ensures
        limits.first_broken() == Some(rule) <==> {
            &&& limits.breaks(rule)
            &&& forall|earlier: Rule|
                earlier.rank() < rule.rank() ==> !#[trigger] limits.breaks(earlier)
        },
{
}

/// Nothing is refused that meets every rule, and everything is that breaks one.
pub proof fn law_refused_iff_not_admissible<FS: Filesystem>(builder: DiskBufferConfigBuilder<FS>)
    ensures
        builder.requested().first_broken() is None <==> builder.requested().admissible(),
{
}

/// The buffer size that is used internally has room for a whole data file, and together
/// with one data file it is exactly what the user allowed.
pub proof fn law_buffer_size_lower_bound<FS: Filesystem>(
    builder: DiskBufferConfigBuilder<FS>,
    config: DiskBufferConfig<FS>,
)
    requires
        builder.requested().admissible(),
        builder.describes(config),
    ensures
        config.max_buffer_size >= config.max_data_file_size,
        config.max_buffer_size + config.max_data_file_size
            == builder.requested().max_buffer_size,
{
}

/// Records that stay within the internal buffer size, together with a data file's worth of
/// acknowledged records that could not be deleted yet, never take up more than the user
/// allowed, let alone more than that amount rounded up to whole data files.
pub proof fn law_disk_use_stays_within_request<FS: Filesystem>(
    builder: DiskBufferConfigBuilder<FS>,
    config: DiskBufferConfig<FS>,
    unacknowledged: int,
)
    requires
        builder.requested().admissible(),
        builder.describes(config),
        unacknowledged <= config.max_buffer_size,
    ensures
        unacknowledged + config.max_data_file_size <= builder.requested().max_buffer_size,
        builder.requested().max_buffer_size <= round_up(
            builder.requested().max_buffer_size,
            config.max_data_file_size as int,
        ),
{
    lemma_round_up(builder.requested().max_buffer_size, config.max_data_file_size as int);
}

/// If the user allowed a whole number of data files, the internal buffer size is the next
/// smaller whole number of data files.
pub proof fn law_whole_data_files_round_down<FS: Filesystem>(
    builder: DiskBufferConfigBuilder<FS>,
    config: DiskBufferConfig<FS>,
    smaller: int,
)
    requires
        builder.requested().admissible(),
        builder.describes(config),
        builder.requested().max_buffer_size % builder.requested().max_data_file_size == 0,
        smaller % builder.requested().max_data_file_size == 0,
        smaller < builder.requested().max_buffer_size,
    ensures
        config.max_buffer_size as int % config.max_data_file_size as int == 0,
        config.max_buffer_size < builder.requested().max_buffer_size,
        smaller <= config.max_buffer_size,
{
    let unit = builder.requested().max_data_file_size;
    let total = builder.requested().max_buffer_size;
    let k = total / unit;
    let j = smaller / unit;
    lemma_fundamental_div_mod(total, unit);
    lemma_fundamental_div_mod(smaller, unit);
    assert(unit * k - unit == (k - 1) * unit) by (nonlinear_arith);
    lemma_mod_multiples_basic(k - 1, unit);
    assert(j < k) by (nonlinear_arith)
        requires
            unit > 0,
            unit * j < unit * k,
    ;
    assert(unit * j <= (k - 1) * unit) by (nonlinear_arith)
        requires
            unit > 0,
            j <= k - 1,
    ;
}

/// Every record that may be written has room for something beyond its header, and fits in
/// an empty data file.
pub proof fn law_largest_record_fits_a_data_file<FS: Filesystem>(
    builder: DiskBufferConfigBuilder<FS>,
    config: DiskBufferConfig<FS>,
)
    requires
        builder.requested().admissible(),
        builder.describes(config),
    ensures
        config.max_record_size - RECORD_HEADER_LEN > 0,
        config.max_record_size <= config.max_data_file_size,
{
}

/// A buffer for which only the directory is given can be configured, with the documented
/// defaults: data files and records of 128MB, a write buffer of 256KB, a flush every 500ms,
/// and no limit that a buffer could reach.
pub proof fn law_defaults_are_admissible<FS: Filesystem>(
    builder: DiskBufferConfigBuilder<FS>,
    config: DiskBufferConfig<FS>,
)
    requires
        builder.max_buffer_size is None,
        builder.max_data_file_size is None,
        builder.max_record_size is None,
        builder.write_buffer_size is None,
        builder.flush_interval is None,
    ensures
        builder.requested().admissible(),
        builder.requested().max_buffer_size == u64::MAX,
        builder.describes(config) ==> {
            &&& config.max_buffer_size == u64::MAX - 128 * 1024 * 1024
            &&& config.max_data_file_size == 128 * 1024 * 1024
            &&& config.max_record_size == 128 * 1024 * 1024
            &&& config.write_buffer_size == 256 * 1024
            &&& config.flush_interval == millis_duration(500)
            &&& duration_nanos(config.flush_interval) == 500 * 1_000_000
        },
{
}

/// Setting a parameter to its default asks for the same as leaving it unset, and describes
/// the same configuration.
pub proof fn law_defaults_can_be_set<FS: Filesystem>(
    builder: DiskBufferConfigBuilder<FS>,
    interval: Duration,
    config: DiskBufferConfig<FS>,
)
    requires
        is_default_interval(interval),
    ensures
        builder.max_buffer_size is None ==> {
            let set = builder.with_max_buffer_size(u64::MAX);
            &&& set.requested() == builder.requested()
            &&& set.describes(config) <==> builder.describes(config)
        },
        builder.max_data_file_size is None ==> {
            let set = builder.with_max_data_file_size(DEFAULT_MAX_DATA_FILE_SIZE as u64);
            &&& set.requested() == builder.requested()
            &&& set.describes(config) <==> builder.describes(config)
        },
        builder.max_record_size is None ==> {
            let set = builder.with_max_record_size(DEFAULT_MAX_RECORD_SIZE);
            &&& set.requested() == builder.requested()
            &&& set.describes(config) <==> builder.describes(config)
        },
        builder.write_buffer_size is None ==> {
            let set = builder.with_write_buffer_size(DEFAULT_WRITE_BUFFER_SIZE);
            &&& set.requested() == builder.requested()
            &&& set.describes(config) <==> builder.describes(config)
        },
        builder.flush_interval is None ==> {
            let set = builder.with_flush_interval(interval);
            &&& set.requested() == builder.requested()
            &&& set.describes(config) <==> builder.describes(config)
        },
{
}

/// Of two values that are set for one parameter, the later one counts.
pub proof fn law_last_setting_counts<FS: Filesystem>(
    builder: DiskBufferConfigBuilder<FS>,
    sizes: (u64, u64),
    amounts: (usize, usize),
    intervals: (Duration, Duration),
)
    ensures
        builder.with_max_buffer_size(sizes.0).with_max_buffer_size(sizes.1)
            == builder.with_max_buffer_size(sizes.1),
        builder.with_max_data_file_size(sizes.0).with_max_data_file_size(sizes.1)
            == builder.with_max_data_file_size(sizes.1),
        builder.with_max_record_size(amounts.0).with_max_record_size(amounts.1)
            == builder.with_max_record_size(amounts.1),
        builder.with_write_buffer_size(amounts.0).with_write_buffer_size(amounts.1)
            == builder.with_write_buffer_size(amounts.1),
        builder.with_flush_interval(intervals.0).with_flush_interval(intervals.1)
            == builder.with_flush_interval(intervals.1),
{
}

/// Of two filesystems that are set, the later one counts.
pub proof fn law_last_filesystem_counts<FS: Filesystem, FS2: Filesystem, FS3: Filesystem>(
    builder: DiskBufferConfigBuilder<FS>,
    one: FS2,
    other: FS3,
)
    ensures
        builder.with_filesystem(one).with_filesystem(other) == builder.with_filesystem(other),
{
}

/// The order in which different parameters are set makes no difference.
pub proof fn law_settings_commute<FS: Filesystem, FS2: Filesystem>(
    builder: DiskBufferConfigBuilder<FS>,
    buffer: u64,
    file: u64,
    record: usize,
    write: usize,
    interval: Duration,
    filesystem: FS2,
)
    ensures
        builder.with_max_buffer_size(buffer).with_max_data_file_size(file)
            == builder.with_max_data_file_size(file).with_max_buffer_size(buffer),
        builder.with_max_buffer_size(buffer).with_max_record_size(record)
            == builder.with_max_record_size(record).with_max_buffer_size(buffer),
        builder.with_max_buffer_size(buffer).with_write_buffer_size(write)
            == builder.with_write_buffer_size(write).with_max_buffer_size(buffer),
        builder.with_max_buffer_size(buffer).with_flush_interval(interval)
            == builder.with_flush_interval(interval).with_max_buffer_size(buffer),
        builder.with_max_buffer_size(buffer).with_filesystem(filesystem)
            == builder.with_filesystem(filesystem).with_max_buffer_size(buffer),
        builder.with_max_data_file_size(file).with_max_record_size(record)
            == builder.with_max_record_size(record).with_max_data_file_size(file),
        builder.with_max_data_file_size(file).with_write_buffer_size(write)
            == builder.with_write_buffer_size(write).with_max_data_file_size(file),
        builder.with_max_data_file_size(file).with_flush_interval(interval)
            == builder.with_flush_interval(interval).with_max_data_file_size(file),
        builder.with_max_data_file_size(file).with_filesystem(filesystem)
            == builder.with_filesystem(filesystem).with_max_data_file_size(file),
        builder.with_max_record_size(record).with_write_buffer_size(write)
            == builder.with_write_buffer_size(write).with_max_record_size(record),
        builder.with_max_record_size(record).with_flush_interval(interval)
            == builder.with_flush_interval(interval).with_max_record_size(record),
        builder.with_max_record_size(record).with_filesystem(filesystem)
            == builder.with_filesystem(filesystem).with_max_record_size(record),
        builder.with_write_buffer_size(write).with_flush_interval(interval)
            == builder.with_flush_interval(interval).with_write_buffer_size(write),
        builder.with_write_buffer_size(write).with_filesystem(filesystem)
            == builder.with_filesystem(filesystem).with_write_buffer_size(write),
        builder.with_flush_interval(interval).with_filesystem(filesystem)
            == builder.with_filesystem(filesystem).with_flush_interval(interval),
{
}

/// Neither the directory, nor the flush interval, nor the filesystem has a say in whether a
/// configuration can be built.
pub proof fn law_only_sizes_are_judged<FS: Filesystem, FS2: Filesystem>(
    builder: DiskBufferConfigBuilder<FS>,
    data_dir: PathBuf,
    interval: Duration,
    filesystem: FS2,
)
    ensures
        (DiskBufferConfigBuilder { data_dir, ..builder }).requested() == builder.requested(),
        builder.with_flush_interval(interval).requested() == builder.requested(),
        builder.with_filesystem(filesystem).requested() == builder.requested(),
{
}

/// The builder that sets every parameter to what `config` holds.
pub open spec fn builder_of<FS: Filesystem>(config: DiskBufferConfig<FS>) -> DiskBufferConfigBuilder<
    FS,
> {
    DiskBufferConfigBuilder {
        data_dir: config.data_dir,
        max_buffer_size: Some((config.max_buffer_size + config.max_data_file_size) as u64),
        max_data_file_size: Some(config.max_data_file_size),
        max_record_size: Some(config.max_record_size),
        write_buffer_size: Some(config.write_buffer_size),
        flush_interval: Some(config.flush_interval),
        filesystem: config.filesystem,
    }
}

/// The configurations that can be built are exactly the well-formed ones.
pub proof fn law_well_formed_iff_buildable<FS: Filesystem>(config: DiskBufferConfig<FS>)
    ensures
        config.well_formed() <==> exists|builder: DiskBufferConfigBuilder<FS>|
            builder.requested().admissible() && #[trigger] builder.describes(config),
{
    if config.well_formed() {
        assert(builder_of(config).requested().admissible());
        assert(builder_of(config).describes(config));
    }
}

/// A builder describes at most one configuration.
pub proof fn law_description_is_unique<FS: Filesystem>(
    builder: DiskBufferConfigBuilder<FS>,
    one: DiskBufferConfig<FS>,
    other: DiskBufferConfig<FS>,
)
    requires
        builder.describes(one),
        builder.describes(other),
    ensures
        one == other,
{
}

/// A builder's directory, borrowed, is the path that the builder was made from.
pub proof fn law_directory_reads_back(
    data_dir: &Path,
    builder: DiskBufferConfigBuilder,
    path: &Path,
)
    requires
        call_ensures(DiskBufferConfigBuilder::from_path, (data_dir,), builder),
        call_ensures(PathBuf::as_path, (&builder.data_dir,), path),
    ensures
        path == data_dir,
{
}

/// The flush interval of a buffer for which none was set is 500 milliseconds long.
pub proof fn law_default_interval_length(interval: Duration, nanos: u128)
    requires
        call_ensures(default_flush_interval, (), interval),
        call_ensures(Duration::as_nanos, (&interval,), nanos),
    ensures
        nanos == 500_000_000,
{
}

/// A fresh hasher has taken in no byte, and finalizes to the checksum of no bytes.
pub proof fn law_fresh_hasher_is_empty(hasher: Hasher, len: u64, checksum: u32)
    requires
        call_ensures(create_crc32c_hasher, (), hasher),
        call_ensures(Hasher::total_len, (&hasher,), len),
        call_ensures(Hasher::finalize, (hasher,), checksum),
    ensures
        len == 0,
        checksum == 0,
{
}

} // verus!

use std::path::{Path, PathBuf};
use std::time::Duration;

use disk_buffer::config::{
    default_flush_interval, DiskBufferConfig, DiskBufferConfigBuilder,
    DEFAULT_FLUSH_INTERVAL_MILLIS, DEFAULT_MAX_DATA_FILE_SIZE, DEFAULT_MAX_RECORD_SIZE,
    DEFAULT_WRITE_BUFFER_SIZE, MAX_FILE_ID,
};
use disk_buffer::error::BuildError;
use disk_buffer::io::{Filesystem, ProductionFilesystem};
use disk_buffer::record::RECORD_HEADER_LEN;
use proptest::test_runner::{Config, TestRunner};

fn builder() -> DiskBufferConfigBuilder {
    DiskBufferConfigBuilder::from_path(Path::new("/tmp/dummy/path"))
}

fn refusal<FS: Filesystem>(builder: DiskBufferConfigBuilder<FS>) -> (&'static str, String) {
    match builder.build() {
        Err(BuildError::InvalidParameter { param_name, reason }) => (param_name, reason),
        Ok(_) => panic!("expected invalid parameter error"),
    }
}

fn accepted<FS: Filesystem>(builder: DiskBufferConfigBuilder<FS>) -> DiskBufferConfig<FS> {
    match builder.build() {
        Ok(config) => config,
        Err(error) => panic!("{}", error.message()),
    }
}

#[test]
fn basic_rejections() {
    // Maximum data file size cannot be zero.
    let result = DiskBufferConfigBuilder::from_path(Path::new("/tmp/dummy/path"))
        .max_data_file_size(0)
        .build();

    match result {
        Err(BuildError::InvalidParameter { param_name, .. }) => assert_eq!(param_name, "max_data_file_size", "invalid parameter should have been `max_data_file_size`"),
        _ => panic!("expected invalid parameter error"),
    }

    // Maximum data file size cannot be greater than u64::MAX / 2, since we multiply it by 2 when calculating the
    // lower bound for the maximum buffer size.
    let result = DiskBufferConfigBuilder::from_path(Path::new("/tmp/dummy/path"))
        .max_data_file_size((u64::MAX / 2) + 1)
        .build();

    match result {
        Err(BuildError::InvalidParameter { param_name, .. }) => assert_eq!(param_name, "max_data_file_size", "invalid parameter should have been `max_data_file_size`"),
        _ => panic!("expected invalid parameter error"),
    }

    // Maximum buffer size cannot be zero.
    let result = DiskBufferConfigBuilder::from_path(Path::new("/tmp/dummy/path"))
        .max_buffer_size(0)
        .build();

    match result {
        Err(BuildError::InvalidParameter { param_name, .. }) => assert_eq!(param_name, "max_buffer_size", "invalid parameter should have been `max_buffer_size`"),
        _ => panic!("expected invalid parameter error"),
    }

    // Maximum buffer size cannot be less than 2x the maximum data file size.
    let result = DiskBufferConfigBuilder::from_path(Path::new("/tmp/dummy/path"))
        .max_data_file_size(10000)
        .max_record_size(100)
        .max_buffer_size(19999)
        .build();

    match result {
        Err(BuildError::InvalidParameter { param_name, .. }) => assert_eq!(param_name, "max_buffer_size", "invalid parameter should have been `max_buffer_size`"),
        _ => panic!("expected invalid parameter error"),
    }

    // Maximum record size cannot be zero.
    let result = DiskBufferConfigBuilder::from_path(Path::new("/tmp/dummy/path"))
        .max_record_size(0)
        .build();

    match result {
        Err(BuildError::InvalidParameter { param_name, .. }) => assert_eq!(param_name, "max_record_size", "invalid parameter should have been `max_record_size`"),
        _ => panic!("expected invalid parameter error"),
    }

    // Maximum record size cannot be less than or equal to the record header length.
    let result = DiskBufferConfigBuilder::from_path(Path::new("/tmp/dummy/path"))
        .max_record_size(RECORD_HEADER_LEN)
        .build();

    match result {
        Err(BuildError::InvalidParameter { param_name, .. }) => assert_eq!(param_name, "max_record_size", "invalid parameter should have been `max_record_size`"),
        _ => panic!("expected invalid parameter error"),
    }

    // Maximum record size cannot be greater than maximum data file size.
    let result = DiskBufferConfigBuilder::from_path(Path::new("/tmp/dummy/path"))
        .max_data_file_size(123456)
        .max_record_size(123457)
        .build();

    match result {
        Err(BuildError::InvalidParameter { param_name, .. }) => assert_eq!(param_name, "max_record_size", "invalid parameter should have been `max_record_size`"),
        _ => panic!("expected invalid parameter error"),
    }
}

#[test]
fn ensure_max_buffer_size_lower_bound() {
    let mut config = Config::with_cases(10000);
    config.failure_persistence = None;
    let mut runner = TestRunner::new(config);
    let outcome = runner.run(
        &(1..u64::MAX, 1..u64::MAX),
        |(max_buffer_size, max_record_data_file_size)| {
            let max_data_file_size = max_record_data_file_size;
            let max_record_size = usize::try_from(max_record_data_file_size).unwrap();

            let result = builder()
                .max_buffer_size(max_buffer_size)
                .max_data_file_size(max_data_file_size)
                .max_record_size(max_record_size)
                .build();

            if let Ok(config) = result {
                assert!(config.max_buffer_size >= max_data_file_size, "calculated max buffer size must always be greater than or equal to `max_data_file_size`");
                assert!(config.max_buffer_size + max_data_file_size == max_buffer_size, "calculated max buffer size must always be less `max_data_file_size` than input max buffer size");
            }
            Ok(())
        },
    );
    assert!(outcome.is_ok());
}

#[test]
fn internal_buffer_size_at_the_bounds() {
    // Exactly two data files.
    let config = accepted(
        builder().max_data_file_size(10000).max_record_size(100).max_buffer_size(20000),
    );
    assert_eq!(config.max_buffer_size, 10000);
    assert_eq!(config.max_data_file_size, 10000);

    // One byte more.
    let config = accepted(
        builder().max_data_file_size(10000).max_record_size(100).max_buffer_size(20001),
    );
    assert_eq!(config.max_buffer_size, 10001);

    // The largest data files that there can be.
    let config = accepted(builder().max_data_file_size(u64::MAX / 2));
    assert_eq!(config.max_buffer_size, u64::MAX / 2 + 1);
    assert_eq!(config.max_data_file_size, u64::MAX / 2);
}

#[test]
fn whole_data_files_round_down() {
    for files in 2..10u64 {
        let config = accepted(
            builder().max_data_file_size(4096).max_record_size(512).max_buffer_size(files * 4096),
        );
        assert_eq!(config.max_buffer_size, (files - 1) * 4096);
    }
    // What is left over of a data file is kept.
    let config = accepted(
        builder().max_data_file_size(10000).max_record_size(100).max_buffer_size(25000),
    );
    assert_eq!(config.max_buffer_size, 15000);
}

#[test]
fn disk_use_stays_within_request() {
    let config = accepted(
        builder().max_data_file_size(10000).max_record_size(100).max_buffer_size(25000),
    );
    for unacknowledged in [0, 1, 10000, config.max_buffer_size] {
        assert!(unacknowledged + config.max_data_file_size <= 25000);
    }
}

#[test]
fn reasons_of_refusals() {
    assert_eq!(
        refusal(builder().max_data_file_size(0)),
        ("max_data_file_size", "cannot be zero".to_string())
    );
    assert_eq!(
        refusal(builder().max_data_file_size(u64::MAX / 2 + 1)),
        ("max_data_file_size", "cannot be greater than 9223372036854775807 bytes".to_string())
    );
    assert_eq!(
        refusal(builder().max_buffer_size(0)),
        ("max_buffer_size", "must be greater than or equal to 268435456 bytes".to_string())
    );
    assert_eq!(
        refusal(builder().max_record_size(0)),
        ("max_record_size", "cannot be zero".to_string())
    );
    assert_eq!(
        refusal(builder().max_record_size(1)),
        ("max_record_size", format!("must be greater than {} bytes", RECORD_HEADER_LEN))
    );
    assert_eq!(
        refusal(builder().max_record_size(RECORD_HEADER_LEN)),
        ("max_record_size", format!("must be greater than {} bytes", RECORD_HEADER_LEN))
    );
    assert_eq!(
        refusal(builder().max_data_file_size(123456).max_record_size(123457)),
        ("max_record_size", "must be less than or equal to `max_data_file_size`".to_string())
    );
    assert_eq!(
        refusal(builder().write_buffer_size(0)),
        ("write_buffer_size", "cannot be zero".to_string())
    );
}

#[test]
fn amounts_in_reasons_are_decimal_numerals() {
    for file in [1, 4, 5, 9, 10, 50, 99, 1005, 123456789, 5000000000, u64::MAX / 2] {
        assert_eq!(
            refusal(builder().max_data_file_size(file).max_buffer_size(1)),
            (
                "max_buffer_size",
                format!("must be greater than or equal to {} bytes", file * 2)
            )
        );
    }
}

#[test]
fn message_names_parameter_and_reason() {
    let error = builder().max_data_file_size(0).build().unwrap_err();
    assert_eq!(
        error.message(),
        "parameter 'max_data_file_size' was invalid: cannot be zero"
    );
    let error = BuildError::InvalidParameter { param_name: "", reason: String::new() };
    assert_eq!(error.message(), "parameter '' was invalid: ");
}

#[test]
fn first_broken_rule_is_reported() {
    // Everything is wrong, and is mended one by one.
    let b = builder()
        .max_data_file_size(0)
        .max_buffer_size(0)
        .max_record_size(0)
        .write_buffer_size(0);
    assert_eq!(refusal(b.clone()).0, "max_data_file_size");
    let b = b.max_data_file_size(u64::MAX);
    assert_eq!(
        refusal(b.clone()),
        ("max_data_file_size", "cannot be greater than 9223372036854775807 bytes".to_string())
    );
    let b = b.max_data_file_size(100);
    assert_eq!(
        refusal(b.clone()),
        ("max_buffer_size", "must be greater than or equal to 200 bytes".to_string())
    );
    let b = b.max_buffer_size(200);
    assert_eq!(refusal(b.clone()), ("max_record_size", "cannot be zero".to_string()));
    let b = b.max_record_size(RECORD_HEADER_LEN);
    assert_eq!(
        refusal(b.clone()),
        ("max_record_size", format!("must be greater than {} bytes", RECORD_HEADER_LEN))
    );
    let b = b.max_record_size(101);
    assert_eq!(
        refusal(b.clone()),
        ("max_record_size", "must be less than or equal to `max_data_file_size`".to_string())
    );
    let b = b.max_record_size(100);
    assert_eq!(refusal(b.clone()), ("write_buffer_size", "cannot be zero".to_string()));
    let config = accepted(b.write_buffer_size(1));
    assert_eq!(config.max_buffer_size, 100);
    assert_eq!(config.max_data_file_size, 100);
    assert_eq!(config.max_record_size, 100);
    assert_eq!(config.write_buffer_size, 1);
}

#[test]
fn record_one_byte_above_the_header_is_accepted() {
    let config = accepted(builder().max_record_size(RECORD_HEADER_LEN + 1));
    assert_eq!(config.max_record_size, RECORD_HEADER_LEN + 1);
}

#[test]
fn record_as_large_as_a_data_file_is_accepted() {
    let config = accepted(builder().max_data_file_size(123456).max_record_size(123456));
    assert_eq!(config.max_record_size, 123456);
    assert_eq!(config.max_data_file_size, 123456);
}

#[test]
fn record_larger_than_a_small_data_file_is_refused_by_default() {
    assert_eq!(refusal(builder().max_data_file_size(123456)).0, "max_record_size");
}

#[test]
fn defaults() {
    let config = accepted(builder());
    assert_eq!(config.data_dir.as_path(), Path::new("/tmp/dummy/path"));
    assert_eq!(config.max_buffer_size, u64::MAX - 134217728);
    assert_eq!(config.max_data_file_size, 134217728);
    assert_eq!(config.max_record_size, 134217728);
    assert_eq!(config.write_buffer_size, 262144);
    assert_eq!(config.flush_interval, Duration::from_millis(500));
    assert_eq!(default_flush_interval(), Duration::from_millis(500));
    assert_eq!(default_flush_interval().as_nanos(), 500_000_000);
    assert_eq!(MAX_FILE_ID, 65535);
}

#[test]
fn defaults_can_be_set() {
    let set = accepted(
        builder()
            .max_buffer_size(u64::MAX)
            .max_data_file_size(DEFAULT_MAX_DATA_FILE_SIZE as u64)
            .max_record_size(DEFAULT_MAX_RECORD_SIZE)
            .write_buffer_size(DEFAULT_WRITE_BUFFER_SIZE)
            .flush_interval(Duration::from_millis(DEFAULT_FLUSH_INTERVAL_MILLIS)),
    );
    let unset = accepted(builder());
    assert_eq!(format!("{:?}", set), format!("{:?}", unset));
}

#[test]
fn settings_reach_the_configuration() {
    let config = accepted(
        builder()
            .max_buffer_size(1000)
            .max_data_file_size(300)
            .max_record_size(200)
            .write_buffer_size(7)
            .flush_interval(Duration::from_nanos(12345)),
    );
    assert_eq!(config.data_dir, PathBuf::from("/tmp/dummy/path"));
    assert_eq!(config.max_buffer_size, 700);
    assert_eq!(config.max_data_file_size, 300);
    assert_eq!(config.max_record_size, 200);
    assert_eq!(config.write_buffer_size, 7);
    assert_eq!(config.flush_interval, Duration::from_nanos(12345));
}

#[test]
fn last_setting_counts() {
    let twice = accepted(
        builder()
            .max_buffer_size(1)
            .max_buffer_size(1000)
            .max_data_file_size(0)
            .max_data_file_size(300)
            .max_record_size(1)
            .max_record_size(200)
            .write_buffer_size(0)
            .write_buffer_size(7)
            .flush_interval(Duration::from_secs(1))
            .flush_interval(Duration::from_secs(2)),
    );
    let once = accepted(
        builder()
            .max_buffer_size(1000)
            .max_data_file_size(300)
            .max_record_size(200)
            .write_buffer_size(7)
            .flush_interval(Duration::from_secs(2)),
    );
    assert_eq!(format!("{:?}", twice), format!("{:?}", once));
}

#[test]
fn settings_commute() {
    let forwards = builder()
        .max_buffer_size(1000)
        .max_data_file_size(300)
        .max_record_size(200)
        .write_buffer_size(7)
        .flush_interval(Duration::from_secs(2))
        .filesystem(MemoryFilesystem(3));
    let backwards = builder()
        .filesystem(MemoryFilesystem(3))
        .flush_interval(Duration::from_secs(2))
        .write_buffer_size(7)
        .max_record_size(200)
        .max_data_file_size(300)
        .max_buffer_size(1000);
    assert_eq!(format!("{:?}", forwards), format!("{:?}", backwards));
}

#[derive(Clone, Debug, PartialEq)]
struct MemoryFilesystem(u32);

impl Filesystem for MemoryFilesystem {}

#[test]
fn filesystem_is_carried_and_not_judged() {
    let config = accepted(
        builder().max_data_file_size(300).max_record_size(200).filesystem(MemoryFilesystem(42)),
    );
    assert_eq!(config.filesystem, MemoryFilesystem(42));
    assert_eq!(config.max_data_file_size, 300);
    assert_eq!(
        refusal(builder().write_buffer_size(0).filesystem(MemoryFilesystem(42))),
        refusal(builder().write_buffer_size(0))
    );
    assert!(matches!(accepted(builder()).filesystem, ProductionFilesystem));
}

#[test]
fn last_filesystem_counts() {
    let twice = builder().filesystem(ProductionFilesystem).filesystem(MemoryFilesystem(5));
    let once = builder().filesystem(MemoryFilesystem(5));
    assert_eq!(format!("{:?}", twice), format!("{:?}", once));
    assert_eq!(accepted(twice).filesystem, MemoryFilesystem(5));
}

#[test]
fn directory_reads_back() {
    for path in ["/tmp/dummy/path", "relative/../path/", ""] {
        let b = DiskBufferConfigBuilder::from_path(Path::new(path));
        assert_eq!(b.data_dir.as_path().as_os_str(), path);
        assert_eq!(accepted(b).data_dir.as_path().as_os_str(), path);
    }
}

#[test]
fn well_formed_configuration_can_be_built_again() {
    let config = accepted(
        builder().max_data_file_size(300).max_record_size(200).max_buffer_size(1001),
    );
    let again = accepted(
        DiskBufferConfigBuilder::from_path(&config.data_dir)
            .max_buffer_size(config.max_buffer_size + config.max_data_file_size)
            .max_data_file_size(config.max_data_file_size)
            .max_record_size(config.max_record_size)
            .write_buffer_size(config.write_buffer_size)
            .flush_interval(config.flush_interval)
            .filesystem(config.filesystem),
    );
    assert_eq!(format!("{:?}", again), format!("{:?}", config));
}

#[test]
fn clones_are_equal() {
    let b = builder().max_buffer_size(1000).max_data_file_size(300).max_record_size(200);
    assert_eq!(format!("{:?}", b.clone()), format!("{:?}", b));
    assert_eq!(format!("{:?}", accepted(b.clone())), format!("{:?}", accepted(b.clone())));
    let config = accepted(b.filesystem(MemoryFilesystem(9)));
    let copy = config.clone();
    assert_eq!(copy.data_dir, PathBuf::from("/tmp/dummy/path"));
    assert_eq!(copy.filesystem, MemoryFilesystem(9));
    assert_eq!(format!("{:?}", copy), format!("{:?}", config));
}

use iobench::config::{parse_backend, validate_config, Backend, ConfigError};
use iobench::layout::populated_count;

fn validate_ok_base() -> Result<iobench::config::Opts, ConfigError> {
    validate_config(
        false,     // is_dir
        true,      // file_exists
        4096,      // bs
        1048576,   // size: 1 MiB
        1,         // ratio_num
        2,         // ratio_den
        1,         // num_jobs
        8,         // backlog_cnt
        false,     // direct
        false,     // skip_layout
        false,     // no_sparse
        false,     // falloc_keep_size
        false,     // falloc_zero_range
        0,         // ramp_ns
        Backend::Sync,
    )
}

#[test]
fn backend_names() {
    assert_eq!(parse_backend("iouring").unwrap(), Backend::IoUring);
    assert_eq!(parse_backend("io_uring").unwrap(), Backend::IoUring);
    assert_eq!(parse_backend("io-uring").unwrap(), Backend::IoUring);
    assert_eq!(parse_backend("mmap").unwrap(), Backend::Mmap);
    assert_eq!(parse_backend("sync").unwrap(), Backend::Sync);
    assert_eq!(parse_backend("uring").unwrap_err(), ConfigError::UnknownBackend);
    assert_eq!(parse_backend("").unwrap_err(), ConfigError::UnknownBackend);
}

#[test]
fn backend_from_str_trait() {
    let b: Backend = "mmap".parse().unwrap();
    assert_eq!(b, Backend::Mmap);
}

#[test]
fn valid_config_derives_block_counts() {
    let o = validate_ok_base().unwrap();
    assert_eq!(o.n_blocks, 256);
    assert_eq!(o.n_populated_blocks, 128);
    assert_eq!(o.bs, 4096);
    assert_eq!(o.size, 1048576);
}

#[test]
fn directory_is_rejected() {
    let r = validate_config(
        true, true, 4096, 1048576, 1, 2, 1, 8, false, false, false, false, false, 0,
        Backend::Sync,
    );
    assert_eq!(r.unwrap_err(), ConfigError::IsADirectory);
}

#[test]
fn zero_block_size_is_rejected() {
    let r = validate_config(
        false, true, 0, 1048576, 1, 2, 1, 8, false, false, false, false, false, 0,
        Backend::Sync,
    );
    assert_eq!(r.unwrap_err(), ConfigError::ZeroBlockSize);
}

#[test]
fn non_pow2_block_size_is_rejected() {
    let r = validate_config(
        false, true, 1000, 1048576, 1, 2, 1, 8, false, false, false, false, false, 0,
        Backend::Sync,
    );
    assert_eq!(r.unwrap_err(), ConfigError::BlockSizeNotPow2);
}

#[test]
fn small_block_size_is_rejected() {
    let r = validate_config(
        false, true, 256, 1048576, 1, 2, 1, 8, false, false, false, false, false, 0,
        Backend::Sync,
    );
    assert_eq!(r.unwrap_err(), ConfigError::BlockSizeTooSmall);
}

#[test]
fn oversized_file_is_rejected() {
    let r = validate_config(
        false, true, 4096, u64::MAX - 4095, 1, 2, 1, 8, false, false, false, false, false, 0,
        Backend::Sync,
    );
    assert_eq!(r.unwrap_err(), ConfigError::SizeTooLarge);
}

#[test]
fn unaligned_size_is_rejected() {
    let r = validate_config(
        false, true, 4096, 6144, 1, 2, 1, 8, false, false, false, false, false, 0,
        Backend::Sync,
    );
    assert_eq!(r.unwrap_err(), ConfigError::SizeNotMultiple);
}

#[test]
fn ratio_above_one_is_rejected() {
    let r = validate_config(
        false, true, 4096, 1048576, 3, 2, 1, 8, false, false, false, false, false, 0,
        Backend::Sync,
    );
    assert_eq!(r.unwrap_err(), ConfigError::RatioRange);
}

#[test]
fn skip_layout_needs_existing_file() {
    let r = validate_config(
        false, false, 4096, 1048576, 1, 2, 1, 8, false, true, false, false, false, 0,
        Backend::Sync,
    );
    assert_eq!(r.unwrap_err(), ConfigError::MissingFile);
}

#[test]
fn zero_backlog_is_rejected() {
    let r = validate_config(
        false, true, 4096, 1048576, 1, 2, 1, 0, false, false, false, false, false, 0,
        Backend::Sync,
    );
    assert_eq!(r.unwrap_err(), ConfigError::ZeroBacklog);
}

#[test]
fn zero_jobs_is_rejected() {
    let r = validate_config(
        false, true, 4096, 1048576, 1, 2, 0, 8, false, false, false, false, false, 0,
        Backend::Sync,
    );
    assert_eq!(r.unwrap_err(), ConfigError::ZeroJobs);
}

#[test]
fn populated_count_rounds_to_nearest() {
    assert_eq!(populated_count(256, 1, 2), 128);
    assert_eq!(populated_count(3, 1, 2), 2); // 1.5 rounds up
    assert_eq!(populated_count(100, 0, 2), 0);
    assert_eq!(populated_count(100, 2, 2), 100);
    assert_eq!(populated_count(10, 1, 3), 3); // 3.33 rounds down
}

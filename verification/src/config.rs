//! Runtime configuration of a run: engine selection and validation of the
//! raw settings into a well-formed option set.

use vstd::prelude::*;

use crate::junk::{is_power_of_two, spec_is_pow2};
use crate::layout::{populated_count, spec_rounded_ratio};

verus! {

/// Which execution engine to run.
#[derive(Debug, Clone, Copy, PartialEq, Eq, Structural)]
pub enum Backend {
    IoUring,
    Mmap,
    Sync,
}

/// Why a configuration was rejected before any engine started.
#[derive(Debug, Clone, Copy, PartialEq, Eq, Structural)]
pub enum ConfigError {
    /// The target path names a directory.
    IsADirectory,
    /// The block size is zero.
    ZeroBlockSize,
    /// The block size is not a power of two.
    BlockSizeNotPow2,
    /// The block size is below the 512-byte floor.
    BlockSizeTooSmall,
    /// The total size exceeds a signed 64-bit byte count.
    SizeTooLarge,
    /// The total size is not a multiple of the block size.
    SizeNotMultiple,
    /// The population ratio lies outside the unit interval.
    RatioRange,
    /// Layout was skipped but the target file does not exist.
    MissingFile,
    /// The backlog capacity is zero.
    ZeroBacklog,
    /// The worker count is zero.
    ZeroJobs,
    /// The engine name is not one of the known engines.
    UnknownBackend,
}

/// Compares two strings for equality of their contents.
fn str_eq(a: &str, b: &str) -> (r: bool)
    ensures
        r == (a@ == b@),
{
    let sa = a.to_owned();
    let sb = b.to_owned();
    sa == sb
}

/// Reads an engine name: `iouring`, `io_uring` or `io-uring` for the
/// io_uring engine, `mmap` for the memory-mapped engine, `sync` for the
/// synchronous-syscall engine.
pub fn parse_backend(s: &str) -> (r: Result<Backend, ConfigError>)
    ensures
        r == Ok::<Backend, ConfigError>(Backend::IoUring) <==> (s@ == "iouring"@ || s@
            == "io_uring"@ || s@ == "io-uring"@),
        r == Ok::<Backend, ConfigError>(Backend::Mmap) <==> s@ == "mmap"@,
        r == Ok::<Backend, ConfigError>(Backend::Sync) <==> s@ == "sync"@,
        r is Err ==> r == Err::<Backend, ConfigError>(ConfigError::UnknownBackend),
{
    proof {
        reveal_strlit("iouring");
        reveal_strlit("io_uring");
        reveal_strlit("io-uring");
        reveal_strlit("mmap");
        reveal_strlit("sync");
        assert("iouring"@.len() == 7);
        assert("io_uring"@.len() == 8);
        assert("io-uring"@.len() == 8);
        assert("mmap"@.len() == 4);
        assert("sync"@.len() == 4);
        assert("io_uring"@[2] == '_' && "io-uring"@[2] == '-');
        assert("mmap"@[0] == 'm' && "sync"@[0] == 's');
    }
    if str_eq(s, "iouring") || str_eq(s, "io_uring") || str_eq(s, "io-uring") {
        Ok(Backend::IoUring)
    } else if str_eq(s, "mmap") {
        Ok(Backend::Mmap)
    } else if str_eq(s, "sync") {
        Ok(Backend::Sync)
    } else {
        Err(ConfigError::UnknownBackend)
    }
}

impl core::str::FromStr for Backend {
    type Err = ConfigError;

    fn from_str(s: &str) -> Result<Backend, ConfigError> {
        parse_backend(s)
    }
}

/// The validated options of a run.
#[derive(Debug, Clone)]
pub struct Opts {
    /// The total size of the file in bytes.
    pub size: u64,
    /// The size of the I/O operations performed, in bytes.
    pub bs: u64,
    /// The number of blocks, populated blocks and holes together.
    pub n_blocks: u64,
    /// The number of blocks to populate, from the population ratio.
    pub n_populated_blocks: u64,
    /// Zero-fill the file instead of leaving holes.
    pub no_sparse: bool,
    /// Apply fallocate with its keep-size flag to the file.
    pub falloc_keep_size: bool,
    /// Apply fallocate with its zero-range flag to the file.
    pub falloc_zero_range: bool,
    /// Skip the layout phase; the file must already exist.
    pub skip_layout: bool,
    /// The number of requests to keep in the backlog.
    pub backlog_cnt: usize,
    /// Ramp-up time excluded from the statistics, in nanoseconds.
    pub ramp_ns: u64,
    /// The engine to run.
    pub backend: Backend,
    /// Use direct, cache-bypassing I/O.
    pub direct: bool,
    /// The number of worker threads per engine.
    pub num_jobs: usize,
}

/// Whether a raw configuration passes every validation check.
pub open spec fn spec_config_ok(
    is_dir: bool,
    file_exists: bool,
    bs: u64,
    size: u64,
    ratio_num: u64,
    ratio_den: u64,
    num_jobs: usize,
    backlog_cnt: usize,
    skip_layout: bool,
) -> bool {
    &&& !is_dir
    &&& bs != 0
    &&& spec_is_pow2(bs)
    &&& bs >= 512
    &&& size <= i64::MAX
    &&& size % bs == 0
    &&& ratio_num <= ratio_den
    &&& (skip_layout ==> file_exists)
    &&& backlog_cnt >= 1
    &&& num_jobs >= 1
}

/// Validates a raw configuration and computes the derived block counts.
///
/// The population ratio is the exact rational `ratio_num / ratio_den`.
/// The checks run in a fixed order; the first to fail names the error.
#[verifier::rlimit(30)]
pub fn validate_config(
    is_dir: bool,
    file_exists: bool,
    bs: u64,
    size: u64,
    ratio_num: u64,
    ratio_den: u64,
    num_jobs: usize,
    backlog_cnt: usize,
    direct: bool,
    skip_layout: bool,
    no_sparse: bool,
    falloc_keep_size: bool,
    falloc_zero_range: bool,
    ramp_ns: u64,
    backend: Backend,
) -> (r: Result<Opts, ConfigError>)
    requires
        1 <= ratio_den <= u32::MAX,
    ensures
        r is Ok <==> spec_config_ok(
            is_dir,
            file_exists,
            bs,
            size,
            ratio_num,
            ratio_den,
            num_jobs,
            backlog_cnt,
            skip_layout,
        ),
        r matches Ok(o) ==> {
            &&& o.size == size
            &&& o.bs == bs
            &&& o.n_blocks == size / bs
            &&& o.n_populated_blocks == spec_rounded_ratio(size / bs, ratio_num, ratio_den)
            &&& o.n_populated_blocks <= o.n_blocks
            &&& o.no_sparse == no_sparse
            &&& o.falloc_keep_size == falloc_keep_size
            &&& o.falloc_zero_range == falloc_zero_range
            &&& o.skip_layout == skip_layout
            &&& o.backlog_cnt == backlog_cnt
            &&& o.backlog_cnt >= 1
            &&& o.ramp_ns == ramp_ns
            &&& o.backend == backend
            &&& o.direct == direct
            &&& o.num_jobs == num_jobs
            &&& o.num_jobs >= 1
        },
        is_dir ==> r == Err::<Opts, ConfigError>(ConfigError::IsADirectory),
        !is_dir && bs == 0 ==> r == Err::<Opts, ConfigError>(ConfigError::ZeroBlockSize),
        !is_dir && bs != 0 && !spec_is_pow2(bs) ==> r == Err::<Opts, ConfigError>(
            ConfigError::BlockSizeNotPow2,
        ),
        !is_dir && bs != 0 && spec_is_pow2(bs) && bs < 512 ==> r == Err::<Opts, ConfigError>(
            ConfigError::BlockSizeTooSmall,
        ),
        !is_dir && bs != 0 && spec_is_pow2(bs) && bs >= 512 && size > i64::MAX ==> r == Err::<
            Opts,
            ConfigError,
        >(ConfigError::SizeTooLarge),
        !is_dir && bs != 0 && spec_is_pow2(bs) && bs >= 512 && size <= i64::MAX && size % bs != 0
            ==> r == Err::<Opts, ConfigError>(ConfigError::SizeNotMultiple),
        !is_dir && bs != 0 && spec_is_pow2(bs) && bs >= 512 && size <= i64::MAX && size % bs == 0
            && ratio_num > ratio_den ==> r == Err::<Opts, ConfigError>(ConfigError::RatioRange),
{
    if is_dir {
        return Err(ConfigError::IsADirectory);
    }
    if bs == 0 {
        return Err(ConfigError::ZeroBlockSize);
    }
    if !is_power_of_two(bs) {
        return Err(ConfigError::BlockSizeNotPow2);
    }
    if bs < 512 {
        return Err(ConfigError::BlockSizeTooSmall);
    }
    if size > i64::MAX as u64 {
        return Err(ConfigError::SizeTooLarge);
    }
    if size % bs != 0 {
        return Err(ConfigError::SizeNotMultiple);
    }
    if ratio_num > ratio_den {
        return Err(ConfigError::RatioRange);
    }
    if skip_layout && !file_exists {
        return Err(ConfigError::MissingFile);
    }
    if backlog_cnt == 0 {
        return Err(ConfigError::ZeroBacklog);
    }
    if num_jobs == 0 {
        return Err(ConfigError::ZeroJobs);
    }
    let n_blocks = size / bs;
    let n_populated_blocks = populated_count(n_blocks, ratio_num, ratio_den);
    Ok(
        Opts {
            size,
            bs,
            n_blocks,
            n_populated_blocks,
            no_sparse,
            falloc_keep_size,
            falloc_zero_range,
            skip_layout,
            backlog_cnt,
            ramp_ns,
            backend,
            direct,
            num_jobs,
        },
    )
}

} // verus!

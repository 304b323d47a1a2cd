use fuser::data::{check_time_granularity, dirent_type, mode_from_kind_and_perm, FileType, KernelConfig};
use std::time::Duration;

const ASYNC_READ: u64 = 0x1;
const BIG_WRITES: u64 = 0x20;
const MAX_PAGES: u64 = 0x400000;

#[test]
fn new_config_defaults() {
    let c = KernelConfig::new(ASYNC_READ | BIG_WRITES | MAX_PAGES, 131072);
    assert_eq!(c.requested(), ASYNC_READ | BIG_WRITES | MAX_PAGES);
    assert_eq!(c.congestion_threshold(), 12);
    let c = KernelConfig::new(0, 131072);
    assert_eq!(c.requested(), ASYNC_READ | BIG_WRITES);
}

#[test]
fn setters_report_nearest_accepted_value() {
    let mut c = KernelConfig::new(0, 65536);
    assert_eq!(c.set_max_stack_depth(3), Err(2));
    assert_eq!(c.set_max_stack_depth(2), Ok(0));
    assert_eq!(c.set_max_write(0), Err(1));
    assert_eq!(c.set_max_write(u32::MAX), Err(16 * 1024 * 1024));
    assert_eq!(c.set_max_write(4096), Ok(16 * 1024 * 1024));
    assert_eq!(c.set_max_readahead(0), Err(1));
    assert_eq!(c.set_max_readahead(65537), Err(65536));
    assert_eq!(c.set_max_readahead(4096), Ok(65536));
    assert_eq!(c.set_max_background(0), Err(1));
    assert_eq!(c.set_max_background(100), Ok(16));
    assert_eq!(c.set_congestion_threshold(0), Err(1));
    assert_eq!(c.set_congestion_threshold(50), Ok(75));
    assert_eq!(c.congestion_threshold(), 50);
    assert_eq!(c.set_congestion_threshold(500), Ok(50));
    assert_eq!(c.congestion_threshold(), 100);
}

#[test]
fn time_granularity() {
    assert_eq!(check_time_granularity(0), Err(1));
    assert_eq!(check_time_granularity(1), Ok(()));
    assert_eq!(check_time_granularity(1000), Ok(()));
    assert_eq!(check_time_granularity(1500), Err(1000));
    assert_eq!(check_time_granularity(900), Err(1000));
    assert_eq!(check_time_granularity(5500), Err(1000));
    assert_eq!(check_time_granularity(5501), Err(10_000));
    assert_eq!(check_time_granularity(600_000_000), Err(1_000_000_000));
    assert_eq!(check_time_granularity(2_000_000_000), Err(1_000_000_000));
    let mut c = KernelConfig::new(0, 0);
    assert_eq!(c.set_time_granularity(Duration::from_micros(1)), Ok(Duration::from_nanos(1)));
    assert_eq!(c.set_time_granularity(Duration::from_nanos(150)), Err(Duration::from_nanos(100)));
    assert_eq!(c.set_time_granularity_nanos(10), Ok(1000));
}

#[test]
fn time_granularity_refusal_names_nearest() {
    let mut c = KernelConfig::new(0, 4096);
    assert_eq!(c.set_time_granularity(Duration::from_nanos(900)), Err(Duration::from_nanos(1000)));
    assert_eq!(c.set_time_granularity_nanos(1), Ok(1));
}

#[test]
fn add_capabilities_only_supported() {
    let mut c = KernelConfig::new(ASYNC_READ | 0x8, 0);
    assert_eq!(c.add_capabilities(0x8 | 0x10), Err(0x10));
    assert_eq!(c.add_capabilities(0x8), Ok(()));
    assert_eq!(c.requested() & 0x8, 0x8);
}

#[test]
fn init_reply_fields() {
    let mut c = KernelConfig::new(ASYNC_READ | BIG_WRITES, 131072);
    c.set_max_write(65536).unwrap();
    let out = c.init_out_for(ASYNC_READ | (1u64 << 33), 4096);
    assert_eq!(out.major, 7);
    assert_eq!(out.minor, 40);
    assert_eq!(out.max_readahead, 131072);
    assert_eq!(out.flags, (ASYNC_READ | 0x40000000) as u32);
    assert_eq!(out.flags2, 2);
    assert_eq!(out.max_write, 65536);
    assert_eq!(out.max_pages, 32);
    assert_eq!(out.time_gran, 1);
    assert_eq!(c.max_pages_for(4096), 32);
    assert_eq!(c.max_pages_for(0), 0);
}

#[test]
fn modes_and_dirent_types() {
    assert_eq!(mode_from_kind_and_perm(FileType::RegularFile, 0o644), 0o100644);
    assert_eq!(mode_from_kind_and_perm(FileType::Directory, 0o755), 0o40755);
    assert_eq!(mode_from_kind_and_perm(FileType::Symlink, 0o777), 0o120777);
    assert_eq!(dirent_type(FileType::NamedPipe), 1);
    assert_eq!(dirent_type(FileType::CharDevice), 2);
    assert_eq!(dirent_type(FileType::Directory), 4);
    assert_eq!(dirent_type(FileType::BlockDevice), 6);
    assert_eq!(dirent_type(FileType::RegularFile), 8);
    assert_eq!(dirent_type(FileType::Symlink), 10);
    assert_eq!(dirent_type(FileType::Socket), 12);
}

#[test]
fn time_granularity_duration_follows_its_nanoseconds() {
    let mut c = KernelConfig::new(0, 0);
    assert_eq!(c.set_time_granularity(Duration::new(1, 0)), Ok(Duration::from_nanos(1)));
    assert_eq!(c.set_time_granularity(Duration::from_millis(10)), Ok(Duration::from_secs(1)));
    assert_eq!(c.set_time_granularity(Duration::new(2, 0)), Err(Duration::from_secs(1)));
    assert_eq!(c.set_time_granularity(Duration::from_micros(1)), Ok(Duration::from_millis(10)));
}

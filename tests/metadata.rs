use os_handles::metadata::{Metadata, MetadataExt, RawStat};

fn sample() -> RawStat {
    RawStat {
        st_dev: 3,
        st_ino: 1234,
        st_mode: 0o100644,
        st_nlink: 2,
        st_uid: 1000,
        st_gid: 100,
        st_rdev: 0,
        st_size: 4096,
        st_atime: 1_600_000_000,
        st_atime_nsec: 5,
        st_mtime: 1_600_000_100,
        st_mtime_nsec: 6,
        st_ctime: -1,
        st_ctime_nsec: 7,
        st_blksize: 512,
        st_blocks: 8,
    }
}

#[test]
fn accessors_read_each_field() {
    let m = Metadata::from_raw_stat(sample());
    assert_eq!(m.st_dev(), 3);
    assert_eq!(m.st_ino(), 1234);
    assert_eq!(m.st_mode(), 0o100644);
    assert_eq!(m.st_nlink(), 2);
    assert_eq!(m.st_uid(), 1000);
    assert_eq!(m.st_gid(), 100);
    assert_eq!(m.st_rdev(), 0);
    assert_eq!(m.st_size(), 4096);
    assert_eq!(m.st_atime(), 1_600_000_000);
    assert_eq!(m.st_atime_nsec(), 5);
    assert_eq!(m.st_mtime(), 1_600_000_100);
    assert_eq!(m.st_mtime_nsec(), 6);
    assert_eq!(m.st_ctime(), -1);
    assert_eq!(m.st_ctime_nsec(), 7);
    assert_eq!(m.st_blksize(), 512);
    assert_eq!(m.st_blocks(), 8);
}

#[test]
fn signed_fields_are_reinterpreted() {
    let mut stat = sample();
    stat.st_dev = -1;
    stat.st_uid = -2;
    stat.st_size = -4096;
    let m = Metadata::from_raw_stat(stat);
    assert_eq!(m.st_dev(), u64::MAX);
    assert_eq!(m.st_uid(), u32::MAX - 1);
    assert_eq!(m.st_size(), (-4096i64) as u64);
}

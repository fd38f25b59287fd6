//! Accessors for the fields of a file's `stat` record.
use vstd::prelude::*;

verus! {

/// The `stat` record that the system fills for a file, each field with the
/// C type that the system gives it.
#[derive(Debug, Clone, Copy, PartialEq, Eq, Structural)]
pub struct RawStat {
    pub st_dev: i64,
    pub st_ino: u64,
    pub st_mode: i32,
    pub st_nlink: u64,
    pub st_uid: i32,
    pub st_gid: i32,
    pub st_rdev: i64,
    pub st_size: i64,
    pub st_atime: i64,
    pub st_atime_nsec: i64,
    pub st_mtime: i64,
    pub st_mtime_nsec: i64,
    pub st_ctime: i64,
    pub st_ctime_nsec: i64,
    pub st_blksize: i64,
    pub st_blocks: u64,
}

/// Metadata of a file, as the system reported it.
#[derive(Debug, Clone, Copy)]
pub struct Metadata {
    stat: RawStat,
}

impl View for Metadata {
    type V = RawStat;

    closed spec fn view(&self) -> RawStat {
        self.stat
    }
}

impl Metadata {
    /// The metadata that `stat` describes.
    pub fn from_raw_stat(stat: RawStat) -> (r: Metadata)
        ensures
            r@ == stat,
    {
        Metadata { stat }
    }
}

/// Field-by-field access to a file's `stat` record, each field widened or
/// reinterpreted to a fixed-size integer.
pub trait MetadataExt {
    /// The record that the accessors read.
    spec fn raw_stat(&self) -> RawStat;

    /// The device on which the file resides.
    fn st_dev(&self) -> (r: u64)
        ensures
            r == self.raw_stat().st_dev as u64,
    ;

    /// The inode number.
    fn st_ino(&self) -> (r: u64)
        ensures
            r == self.raw_stat().st_ino as u64,
    ;

    /// The file type and mode.
    fn st_mode(&self) -> (r: u32)
        ensures
            r == self.raw_stat().st_mode as u32,
    ;

    /// The number of hard links to the file.
    fn st_nlink(&self) -> (r: u64)
        ensures
            r == self.raw_stat().st_nlink as u64,
    ;

    /// The user id of the owner.
    fn st_uid(&self) -> (r: u32)
        ensures
            r == self.raw_stat().st_uid as u32,
    ;

    /// The group id of the owner.
    fn st_gid(&self) -> (r: u32)
        ensures
            r == self.raw_stat().st_gid as u32,
    ;

    /// The device that the file stands for, if it is a special file.
    fn st_rdev(&self) -> (r: u64)
        ensures
            r == self.raw_stat().st_rdev as u64,
    ;

    /// The size in bytes.
    fn st_size(&self) -> (r: u64)
        ensures
            r == self.raw_stat().st_size as u64,
    ;

    /// The last access time, in seconds.
    fn st_atime(&self) -> (r: i64)
        ensures
            r == self.raw_stat().st_atime as i64,
    ;

    /// The nanoseconds of the last access time.
    fn st_atime_nsec(&self) -> (r: i64)
        ensures
            r == self.raw_stat().st_atime_nsec as i64,
    ;

    /// The last modification time, in seconds.
    fn st_mtime(&self) -> (r: i64)
        ensures
            r == self.raw_stat().st_mtime as i64,
    ;

    /// The nanoseconds of the last modification time.
    fn st_mtime_nsec(&self) -> (r: i64)
        ensures
            r == self.raw_stat().st_mtime_nsec as i64,
    ;

    /// The last status change time, in seconds.
    fn st_ctime(&self) -> (r: i64)
        ensures
            r == self.raw_stat().st_ctime as i64,
    ;

    /// The nanoseconds of the last status change time.
    fn st_ctime_nsec(&self) -> (r: i64)
        ensures
            r == self.raw_stat().st_ctime_nsec as i64,
    ;

    /// The preferred block size for I/O.
    fn st_blksize(&self) -> (r: u64)
        ensures
            r == self.raw_stat().st_blksize as u64,
    ;

    /// The number of blocks allocated.
    fn st_blocks(&self) -> (r: u64)
        ensures
            r == self.raw_stat().st_blocks as u64,
    ;
}

impl MetadataExt for Metadata {
    open spec fn raw_stat(&self) -> RawStat {
        self@
    }

    fn st_dev(&self) -> (r: u64) {
        self.stat.st_dev as u64
    }

    fn st_ino(&self) -> (r: u64) {
        self.stat.st_ino as u64
    }

    fn st_mode(&self) -> (r: u32) {
        self.stat.st_mode as u32
    }

    fn st_nlink(&self) -> (r: u64) {
        self.stat.st_nlink as u64
    }

    fn st_uid(&self) -> (r: u32) {
        self.stat.st_uid as u32
    }

    fn st_gid(&self) -> (r: u32) {
        self.stat.st_gid as u32
    }

    fn st_rdev(&self) -> (r: u64) {
        self.stat.st_rdev as u64
    }

    fn st_size(&self) -> (r: u64) {
        self.stat.st_size as u64
    }

    fn st_atime(&self) -> (r: i64) {
        self.stat.st_atime as i64
    }

    fn st_atime_nsec(&self) -> (r: i64) {
        self.stat.st_atime_nsec as i64
    }

    fn st_mtime(&self) -> (r: i64) {
        self.stat.st_mtime as i64
    }

    fn st_mtime_nsec(&self) -> (r: i64) {
        self.stat.st_mtime_nsec as i64
    }

    fn st_ctime(&self) -> (r: i64) {
        self.stat.st_ctime as i64
    }

    fn st_ctime_nsec(&self) -> (r: i64) {
        self.stat.st_ctime_nsec as i64
    }

    fn st_blksize(&self) -> (r: u64) {
        self.stat.st_blksize as u64
    }

    fn st_blocks(&self) -> (r: u64) {
        self.stat.st_blocks as u64
    }
}

} // verus!

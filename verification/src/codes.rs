//! Typed interpretation of the native client's return conventions.
//!
//! Every native call reports through one of a few conventions: a status code
//! where zero is success, a flag where one is true, a size or offset where
//! only a positive value is meaningful, or an I/O length where a negative
//! value reports failure. These functions turn each convention into the typed
//! result the library promises, so no native failure is silently swallowed.

use vstd::prelude::*;

use crate::err::HdfsErr;

verus! {

/// A native status code as a typed result: zero reports success, anything
/// else the unclassified native failure. Used for delete, rename, mkdir,
/// set-replication, close, available and the zero-copy option setters.
pub fn status_result(res: i32) -> (r: Result<bool, HdfsErr>)
    ensures
        res == 0 ==> r == Ok::<bool, HdfsErr>(true),
        res != 0 ==> r == Err::<bool, HdfsErr>(HdfsErr::Unknown),
{
    if res == 0 {
        Ok(true)
    } else {
        Err(HdfsErr::Unknown)
    }
}

/// A native status code as a plain success flag: zero reports success. Used
/// for chmod, chown, flush, hflush, hsync, seek, the existence check and the
/// cluster-up wait.
pub fn status_succeeded(res: i32) -> (b: bool)
    ensures
        b == (res == 0),
{
    res == 0
}

/// A native boolean reply: one means true. Used for the open-for-read and
/// open-for-write queries.
pub fn flag_is_set(res: i32) -> (b: bool)
    ensures
        b == (res == 1),
{
    res == 1
}

/// A native size, offset or count: only a positive value is meaningful,
/// anything else is the unclassified native failure. Used for the default
/// block size, the block size at a path, capacity, used space and the file
/// position.
pub fn size_result(v: i64) -> (r: Result<u64, HdfsErr>)
    ensures
        v > 0 ==> r == Ok::<u64, HdfsErr>(v as u64),
        v <= 0 ==> r == Err::<u64, HdfsErr>(HdfsErr::Unknown),
{
    if v > 0 {
        Ok(v as u64)
    } else {
        Err(HdfsErr::Unknown)
    }
}

/// A native I/O length: the number of bytes read or written when positive,
/// the unclassified native failure otherwise. Used for read, positional read
/// and write.
pub fn io_len_result(v: i32) -> (r: Result<i32, HdfsErr>)
    ensures
        v > 0 ==> r == Ok::<i32, HdfsErr>(v),
        v <= 0 ==> r == Err::<i32, HdfsErr>(HdfsErr::Unknown),
{
    if v > 0 {
        Ok(v)
    } else {
        Err(HdfsErr::Unknown)
    }
}

} // verus!

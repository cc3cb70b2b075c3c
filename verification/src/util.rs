//! Filesystem utility operations.

use vstd::prelude::*;

use crate::codes::status_result;
use crate::err::HdfsErr;

verus! {

/// Turns a boolean into the C convention used by the native client.
pub fn bool_to_c_int(val: bool) -> (r: i32)
    ensures
        r == if val {
            1int
        } else {
            0int
        },
{
    if val {
        1
    } else {
        0
    }
}

/// Utility operations that move data between filesystems.
pub struct HdfsUtil;

impl HdfsUtil {
    /// Interprets the status the native layer returned for copying a file
    /// from one filesystem to another: zero reports success.
    pub fn copy(res: i32) -> (r: Result<bool, HdfsErr>)
        ensures
            res == 0 ==> r == Ok::<bool, HdfsErr>(true),
            res != 0 ==> r == Err::<bool, HdfsErr>(HdfsErr::Unknown),
    {
        status_result(res)
    }

    /// Interprets the status the native layer returned for moving a file
    /// from one filesystem to another: zero reports success.
    pub fn mv(res: i32) -> (r: Result<bool, HdfsErr>)
        ensures
            res == 0 ==> r == Ok::<bool, HdfsErr>(true),
            res != 0 ==> r == Err::<bool, HdfsErr>(HdfsErr::Unknown),
    {
        status_result(res)
    }
}

} // verus!

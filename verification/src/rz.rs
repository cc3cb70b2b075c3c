//! Zero-copy reads: the options handed to the native zero-copy read call and
//! the buffer it returns.
//!
//! The options are plain settings; the caller renders them into the native
//! option object just before the read. The buffer stands for one native
//! buffer tied to the open file that produced it; the raw byte view itself is
//! native memory and stays outside this library.

use vstd::prelude::*;

use crate::dfs::HdfsFile;
use crate::err::HdfsErr;

verus! {

/// Options for a zero-copy read: whether to skip checksum verification, and
/// the byte-buffer pool class to use, if any.
pub struct RzOptions {
    skip_checksum: bool,
    pool_class: Option<String>,
}

impl RzOptions {
    /// Whether checksum verification is to be skipped.
    pub closed spec fn skip_checksum_spec(self) -> bool {
        self.skip_checksum
    }

    /// The byte-buffer pool class chosen, if any.
    pub closed spec fn pool_class_spec(self) -> Option<Seq<char>> {
        match self.pool_class {
            None => None,
            Some(c) => Some(c@),
        }
    }

    /// Default options: verify checksums, no byte-buffer pool class.
    pub fn new() -> (opts: RzOptions)
        ensures
            !opts.skip_checksum_spec(),
            opts.pool_class_spec() is None,
    {
        RzOptions { skip_checksum: false, pool_class: None }
    }

    /// Choose whether the zero-copy read skips checksum verification.
    pub fn skip_checksum(&mut self, skip: bool)
        ensures
            final(self).skip_checksum_spec() == skip,
            final(self).pool_class_spec() == old(self).pool_class_spec(),
    {
        self.skip_checksum = skip;
    }

    /// Choose the byte-buffer pool class for the zero-copy read.
    pub fn set_bytebuffer_pool(&mut self, class_name: &str)
        ensures
            final(self).pool_class_spec() == Some(class_name@),
            final(self).skip_checksum_spec() == old(self).skip_checksum_spec(),
    {
        self.pool_class = Some(class_name.to_owned());
    }

    /// Whether checksum verification is to be skipped, for rendering the
    /// native options.
    pub fn skips_checksum(&self) -> (b: bool)
        ensures
            b == self.skip_checksum_spec(),
    {
        self.skip_checksum
    }

    /// The byte-buffer pool class chosen, for rendering the native options.
    pub fn pool_class(&self) -> (r: &Option<String>)
        ensures
            match r {
                None => self.pool_class_spec() is None,
                Some(c) => self.pool_class_spec() == Some(c@),
            },
    {
        &self.pool_class
    }
}

/// A buffer returned from a zero-copy read: the native buffer handle and its
/// length. The buffer is tied to the file that produced it and must be
/// released through that file.
pub struct RzBuffer {
    buf: u64,
    length: i32,
}

impl RzBuffer {
    /// The native buffer handle.
    pub closed spec fn buf_spec(self) -> u64 {
        self.buf
    }

    /// The length of the buffer.
    pub closed spec fn len_spec(self) -> i32 {
        self.length
    }

    /// Get the length of the raw buffer returned from the zero-copy read.
    pub fn len(&self) -> (r: i32)
        ensures
            r == self.len_spec(),
    {
        self.length
    }

    /// The raw native buffer handle.
    pub fn handle(&self) -> (r: u64)
        ensures
            r == self.buf_spec(),
    {
        self.buf
    }
}

impl HdfsFile {
    /// Interprets what the native zero-copy read returned: `None` for the
    /// native null, otherwise the buffer handle and the length the native
    /// layer reports for it.
    pub fn read_zc(&self, buf: Option<(u64, i32)>) -> (r: Result<RzBuffer, HdfsErr>)
        ensures
            match buf {
                None => r == Err::<RzBuffer, HdfsErr>(HdfsErr::Unknown),
                Some(b) => (r matches Ok(rz) && rz.buf_spec() == b.0 && rz.len_spec() == b.1),
            },
    {
        match buf {
            None => Err(HdfsErr::Unknown),
            Some((b, len)) => Ok(RzBuffer { buf: b, length: len }),
        }
    }
}

} // verus!

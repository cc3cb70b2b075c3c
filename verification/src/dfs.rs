//! Connections and open files.
//!
//! A [`HdfsFs`] stands for one live native client session: the canonical
//! endpoint it serves and the handle the native layer returned for it. The
//! native layer keeps a single session per namenode, so values of this type
//! are only created by the connection cache and shared by cloning.
//!
//! Opening a file happens in two steps. The decision step is verified here:
//! `create`, `append` and `open` perform the documented pre-checks and
//! produce an [`OpenRequest`] that says exactly which native open call is
//! owed (path, flags, sizes). The caller performs that native call and hands
//! the outcome to [`HdfsFs::open_result`], which turns it into a typed
//! [`HdfsFile`] or error.

use vstd::prelude::*;

use crate::err::HdfsErr;

verus! {

/// Native open flag: read-only.
pub const O_RDONLY: i32 = 0;

/// Native open flag: write-only (create or truncate).
pub const O_WRONLY: i32 = 1;

/// Native open flag: write-only, appending to the existing file.
pub const O_APPEND: i32 = 1024;

/// One live connection: the canonical namenode endpoint and the native
/// session handle that serves it.
#[derive(Debug)]
pub struct HdfsFs {
    url: String,
    raw: u64,
}

impl HdfsFs {
    /// The canonical endpoint this connection serves.
    pub closed spec fn url_spec(self) -> Seq<char> {
        self.url@
    }

    /// The native session handle.
    pub closed spec fn raw_spec(self) -> u64 {
        self.raw
    }

    /// Wraps a native session handle. Only the connection cache creates
    /// connections; use the cache to obtain one.
    pub(crate) fn new(url: String, raw: u64) -> (fs: HdfsFs)
        ensures
            fs.url_spec() == url@,
            fs.raw_spec() == raw,
    {
        HdfsFs { url, raw }
    }

    /// The namenode URL of this connection.
    pub fn url(&self) -> (r: &str)
        ensures
            r@ == self.url_spec(),
    {
        self.url.as_str()
    }

    /// The raw native session handle.
    pub fn raw(&self) -> (r: u64)
        ensures
            r == self.raw_spec(),
    {
        self.raw
    }

    /// Whether this connection serves the given endpoint.
    pub fn url_eq(&self, endpoint: &String) -> (b: bool)
        ensures
            b == (self.url_spec() == endpoint@),
    {
        self.url == *endpoint
    }
}

impl Clone for HdfsFs {
    /// A clone is the same connection: both values name one native session.
    fn clone(&self) -> (r: Self)
        ensures
            r == *self,
    {
        HdfsFs { url: self.url.clone(), raw: self.raw }
    }
}

/// The native open call that a planning step decided on: which path to open,
/// with which flags, buffer size, replication count and block size.
pub struct OpenRequest {
    pub path: String,
    pub flags: i32,
    pub buf_size: i32,
    pub replication: i16,
    pub block_size: i32,
}

/// The hostnames storing the blocks of one file region: the handle of the
/// native host array. Due to replication a single block can be present on
/// several hosts; the array itself is native memory, read and released
/// through the native layer.
pub struct BlockHosts {
    ptr: u64,
}

impl BlockHosts {
    /// The native host-array handle.
    pub closed spec fn ptr_spec(self) -> u64 {
        self.ptr
    }

    /// The raw native host-array handle.
    pub fn handle(&self) -> (r: u64)
        ensures
            r == self.ptr_spec(),
    {
        self.ptr
    }
}

/// An open file: the connection it was opened through, its path, and the
/// native file handle.
///
/// The native layer does not make one open file safe for concurrent use by
/// several threads; callers that share a file must synchronize around it.
pub struct HdfsFile {
    fs: HdfsFs,
    path: String,
    file: u64,
}

impl HdfsFile {
    /// The connection this file was opened through.
    pub closed spec fn fs_spec(self) -> HdfsFs {
        self.fs
    }

    /// The path of this file.
    pub closed spec fn path_spec(self) -> Seq<char> {
        self.path@
    }

    /// The native file handle.
    pub closed spec fn file_spec(self) -> u64 {
        self.file
    }

    /// The file path.
    pub fn path(&self) -> (r: &str)
        ensures
            r@ == self.path_spec(),
    {
        self.path.as_str()
    }

    /// The raw native file handle.
    pub fn handle(&self) -> (r: u64)
        ensures
            r == self.file_spec(),
    {
        self.file
    }

    /// The connection this file was opened through.
    pub fn fs(&self) -> (r: &HdfsFs)
        ensures
            *r == self.fs_spec(),
    {
        &self.fs
    }
}

impl HdfsFs {
    /// Plans the open for creating a file without overwriting: once the
    /// existence pre-check answered `exists`, an existing path is refused
    /// before any native open or truncate is requested.
    pub fn create(&self, path: &str, exists: bool) -> (r: Result<OpenRequest, HdfsErr>)
        ensures
            exists ==> (r matches Err(e) && (e matches HdfsErr::FileAlreadyExists(p) && p@
                == path@)),
            !exists ==> (r matches Ok(req) && req.path@ == path@ && req.flags == O_WRONLY
                && req.buf_size == 0 && req.replication == 0 && req.block_size == 0),
    {
        self.create_with_params(path, false, 0, 0, 0, exists)
    }

    /// Plans the open for creating a file, overwriting when asked to.
    pub fn create_with_overwrite(
        &self,
        path: &str,
        overwrite: bool,
        exists: bool,
    ) -> (r: Result<OpenRequest, HdfsErr>)
        ensures
            !overwrite && exists ==> (r matches Err(e) && (e matches HdfsErr::FileAlreadyExists(
                p,
            ) && p@ == path@)),
            overwrite || !exists ==> (r matches Ok(req) && req.path@ == path@ && req.flags
                == O_WRONLY && req.buf_size == 0 && req.replication == 0 && req.block_size == 0),
    {
        self.create_with_params(path, overwrite, 0, 0, 0, exists)
    }

    /// Plans the open for creating a file with explicit buffering,
    /// replication and block-size choices. `exists` is the answer of the
    /// existence pre-check for `path`; without `overwrite`, an existing path
    /// fails with `FileAlreadyExists` and no native open is owed.
    pub fn create_with_params(
        &self,
        path: &str,
        overwrite: bool,
        buf_size: i32,
        replica_num: i16,
        block_size: i32,
        exists: bool,
    ) -> (r: Result<OpenRequest, HdfsErr>)
        ensures
            !overwrite && exists ==> (r matches Err(e) && (e matches HdfsErr::FileAlreadyExists(
                p,
            ) && p@ == path@)),
            overwrite || !exists ==> (r matches Ok(req) && req.path@ == path@ && req.flags
                == O_WRONLY && req.buf_size == buf_size && req.replication == replica_num
                && req.block_size == block_size),
    {
        if !overwrite && exists {
            return Err(HdfsErr::FileAlreadyExists(path.to_owned()));
        }
        Ok(
            OpenRequest {
                path: path.to_owned(),
                flags: O_WRONLY,
                buf_size,
                replication: replica_num,
                block_size,
            },
        )
    }

    /// Plans the open for appending to a file. `exists` is the answer of the
    /// existence pre-check for `path`: a missing path fails with
    /// `FileNotFound` and no native open is owed.
    pub fn append(&self, path: &str, exists: bool) -> (r: Result<OpenRequest, HdfsErr>)
        ensures
            !exists ==> (r matches Err(e) && (e matches HdfsErr::FileNotFound(p) && p@ == path@)),
            exists ==> (r matches Ok(req) && req.path@ == path@ && req.flags == O_APPEND
                && req.buf_size == 0 && req.replication == 0 && req.block_size == 0),
    {
        if !exists {
            return Err(HdfsErr::FileNotFound(path.to_owned()));
        }
        Ok(OpenRequest { path: path.to_owned(), flags: O_APPEND, buf_size: 0, replication: 0, block_size: 0 })
    }

    /// Plans the open of a file for reading.
    pub fn open(&self, path: &str) -> (req: OpenRequest)
        ensures
            req.path@ == path@ && req.flags == O_RDONLY && req.buf_size == 0 && req.replication
                == 0 && req.block_size == 0,
    {
        self.open_with_bufsize(path, 0)
    }

    /// Plans the open of a file for reading with a chosen buffer size.
    pub fn open_with_bufsize(&self, path: &str, buf_size: i32) -> (req: OpenRequest)
        ensures
            req.path@ == path@ && req.flags == O_RDONLY && req.buf_size == buf_size
                && req.replication == 0 && req.block_size == 0,
    {
        OpenRequest { path: path.to_owned(), flags: O_RDONLY, buf_size, replication: 0, block_size: 0 }
    }

    /// Interprets what the native open returned for a planned request: a
    /// null handle is the unclassified native failure, any other handle is
    /// the open file.
    pub fn open_result(&self, req: OpenRequest, file: Option<u64>) -> (r: Result<
        HdfsFile,
        HdfsErr,
    >)
        ensures
            match file {
                None => r == Err::<HdfsFile, HdfsErr>(HdfsErr::Unknown),
                Some(h) => r matches Ok(f) && f.fs_spec() == *self && f.path_spec() == req.path@
                    && f.file_spec() == h,
            },
    {
        match file {
            None => Err(HdfsErr::Unknown),
            Some(h) => Ok(HdfsFile { fs: self.clone(), path: req.path, file: h }),
        }
    }

    /// Interprets what the native block-host query returned: `None` for the
    /// native null, otherwise the handle of the host array.
    pub fn get_hosts(&self, hosts: Option<u64>) -> (r: Result<BlockHosts, HdfsErr>)
        ensures
            match hosts {
                None => r == Err::<BlockHosts, HdfsErr>(HdfsErr::Unknown),
                Some(h) => (r matches Ok(bh) && bh.ptr_spec() == h),
            },
    {
        match hosts {
            None => Err(HdfsErr::Unknown),
            Some(h) => Ok(BlockHosts { ptr: h }),
        }
    }
}

} // verus!

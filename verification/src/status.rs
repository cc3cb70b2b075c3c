//! File and directory metadata.
//!
//! A directory listing comes back from the native layer as one batch
//! allocation holding many entries. [`FileStatus`] mirrors that sharing: each
//! status holds a counted reference to the one shared batch plus its index in
//! it, so the batch lives exactly until the last status referring to it is
//! dropped, whatever order the statuses are dropped in.

use std::rc::Rc;

use vstd::prelude::*;

use crate::dfs::HdfsFs;
use crate::err::HdfsErr;

verus! {

/// Statistics about the reads done through one open file, as the native
/// layer reports them.
#[allow(non_camel_case_types)]
#[allow(non_snake_case)]
pub struct hdfsReadStatistics {
    pub totalBytesRead: u64,
    pub totalLocalBytesRead: u64,
    pub totalShortCircuitBytesRead: u64,
    pub totalZeroCopyBytesRead: u64,
}

impl hdfsReadStatistics {
    /// The bytes read from remote datanodes: all bytes read, less those read
    /// locally. The native layer never reports more local bytes than bytes
    /// in total.
    pub fn remote_bytes_read(&self) -> (r: u64)
        requires
            self.totalLocalBytesRead <= self.totalBytesRead,
        ensures
            r == self.totalBytesRead - self.totalLocalBytesRead,
    {
        self.totalBytesRead - self.totalLocalBytesRead
    }
}

/// What a filesystem entry is: a plain file or a directory.
#[allow(non_camel_case_types)]
#[derive(Clone, Copy, PartialEq, Eq, Structural, Debug)]
pub enum tObjectKind {
    kObjectKindFile,
    kObjectKindDirectory,
}

/// The metadata snapshot of one filesystem entry, as the native layer
/// reports it: kind, full name, times in seconds, replication count, sizes,
/// owner, group and permission bits.
pub struct FileInfo {
    pub kind: tObjectKind,
    pub name: String,
    pub last_mod: i64,
    pub replication: i16,
    pub block_size: u64,
    pub owner: String,
    pub group: String,
    pub permissions: i16,
    pub last_access: i64,
    pub size: u64,
}

/// The client-side view of one file or directory: one entry of a shared
/// metadata batch.
pub struct FileStatus {
    raw: Rc<Vec<FileInfo>>,
    idx: usize,
}

impl FileStatus {
    /// The shared batch this status is part of.
    pub closed spec fn batch(self) -> Seq<FileInfo> {
        self.raw@
    }

    /// Where in the batch this status stands.
    pub closed spec fn index(self) -> int {
        self.idx as int
    }

    /// The metadata entry this status reads.
    pub open spec fn info(self) -> FileInfo {
        self.batch()[self.index()]
    }

    #[verifier::type_invariant]
    spec fn in_batch(self) -> bool {
        0 <= self.index() < self.batch().len()
    }

    /// A status for one entry of a shared batch.
    pub(crate) fn from_batch(raw: Rc<Vec<FileInfo>>, idx: usize) -> (st: FileStatus)
        requires
            idx < raw@.len(),
        ensures
            st.batch() == raw@,
            st.index() == idx as int,
    {
        FileStatus { raw, idx }
    }

    /// The entry itself, read out of the shared batch.
    fn entry(&self) -> (r: &FileInfo)
        ensures
            *r == self.info(),
    {
        proof {
            use_type_invariant(&*self);
        }
        &self.raw[self.idx]
    }

    /// The full name of the entry.
    pub fn name(&self) -> (r: &str)
        ensures
            r@ == self.info().name@,
    {
        self.entry().name.as_str()
    }

    /// Is this a file?
    pub fn is_file(&self) -> (b: bool)
        ensures
            b == (self.info().kind == tObjectKind::kObjectKindFile),
    {
        match self.entry().kind {
            tObjectKind::kObjectKindFile => true,
            tObjectKind::kObjectKindDirectory => false,
        }
    }

    /// Is this a directory?
    pub fn is_directory(&self) -> (b: bool)
        ensures
            b == (self.info().kind == tObjectKind::kObjectKindDirectory),
    {
        match self.entry().kind {
            tObjectKind::kObjectKindFile => false,
            tObjectKind::kObjectKindDirectory => true,
        }
    }

    /// The owner of the entry.
    pub fn owner(&self) -> (r: &str)
        ensures
            r@ == self.info().owner@,
    {
        self.entry().owner.as_str()
    }

    /// The group associated with the entry.
    pub fn group(&self) -> (r: &str)
        ensures
            r@ == self.info().group@,
    {
        self.entry().group.as_str()
    }

    /// The permission bits of the entry.
    pub fn permission(&self) -> (r: i16)
        ensures
            r == self.info().permissions,
    {
        self.entry().permissions
    }

    /// The length of the entry in bytes.
    pub fn len(&self) -> (r: u64)
        ensures
            r == self.info().size,
    {
        self.entry().size
    }

    /// The block size of the entry.
    pub fn block_size(&self) -> (r: u64)
        ensures
            r == self.info().block_size,
    {
        self.entry().block_size
    }

    /// The replication factor of the entry.
    pub fn replica_count(&self) -> (r: i16)
        ensures
            r == self.info().replication,
    {
        self.entry().replication
    }

    /// The last modification time of the entry, in seconds.
    pub fn last_modified(&self) -> (r: i64)
        ensures
            r == self.info().last_mod,
    {
        self.entry().last_mod
    }

    /// The last access time of the entry, in seconds.
    pub fn last_accced(&self) -> (r: i64)
        ensures
            r == self.info().last_access,
    {
        self.entry().last_access
    }
}

impl HdfsFs {
    /// Turns the batch a native directory listing returned (`None` for the
    /// native null) into statuses that all share the one batch allocation:
    /// entry `i` of the result reads entry `i` of the batch.
    pub fn list_status(&self, batch: Option<Vec<FileInfo>>) -> (r: Result<Vec<FileStatus>, HdfsErr>)
        ensures
            match batch {
                None => r == Err::<Vec<FileStatus>, HdfsErr>(HdfsErr::Unknown),
                Some(b) => (r matches Ok(list) && list@.len() == b@.len() && forall|i: int|
                    0 <= i < list@.len() ==> (#[trigger] list@[i]).batch() == b@
                        && list@[i].index() == i),
            },
    {
        match batch {
            None => Err(HdfsErr::Unknown),
            Some(b) => {
                let ghost bview = b@;
                let n = b.len();
                let shared = Rc::new(b);
                let mut list: Vec<FileStatus> = Vec::new();
                let mut i: usize = 0;
                while i < n
                    invariant
                        n == shared@.len(),
                        shared@ == bview,
                        i <= n,
                        list@.len() == i,
                        forall|k: int|
                            0 <= k < i ==> (#[trigger] list@[k]).batch() == bview
                                && list@[k].index() == k,
                    decreases n - i,
                {
                    list.push(FileStatus::from_batch(shared.clone(), i));
                    i = i + 1;
                }
                Ok(list)
            },
        }
    }

    /// Turns the entry a native path lookup returned (`None` for the native
    /// null) into an independently owned status for that one entry.
    pub fn get_file_status(&self, info: Option<FileInfo>) -> (r: Result<FileStatus, HdfsErr>)
        ensures
            match info {
                None => r == Err::<FileStatus, HdfsErr>(HdfsErr::Unknown),
                Some(fi) => (r matches Ok(st) && st.batch().len() == 1 && st.info() == fi),
            },
    {
        match info {
            None => Err(HdfsErr::Unknown),
            Some(fi) => {
                let mut one: Vec<FileInfo> = Vec::new();
                one.push(fi);
                Ok(FileStatus::from_batch(Rc::new(one), 0))
            },
        }
    }
}

} // verus!

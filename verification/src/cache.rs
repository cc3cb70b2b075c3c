//! The connection cache: at most one connection per namenode endpoint.
//!
//! The native client library keeps a single session per namenode, so a
//! process must never connect twice to one endpoint. The cache guards that
//! invariant. Looking a path up ([`HdfsFsCache::get`]) resolves it to its
//! canonical endpoint and either returns the cached connection or reports the
//! endpoint that still has to be connected; [`HdfsFsCache::install`] records
//! the outcome of that one native connect. Both steps go through `&self` /
//! `&mut self`, so Rust's borrowing serializes them: holding the cache behind
//! one process-wide lock makes the check-create-insert sequence atomic.

use vstd::prelude::*;

use crate::dfs::HdfsFs;
use crate::endpoint::get_namenode_uri;
use crate::endpoint::resolve_spec;
use crate::err::HdfsErr;

verus! {

/// What a cache lookup found: the cached connection for the path's endpoint,
/// or the canonical endpoint that is not connected yet.
#[derive(Debug)]
pub enum CacheLookup {
    Hit(HdfsFs),
    Miss(String),
}

/// The cache of connections, keyed by canonical endpoint.
pub struct HdfsFsCache {
    entries: Vec<HdfsFs>,
}

impl View for HdfsFsCache {
    type V = Seq<HdfsFs>;

    closed spec fn view(&self) -> Seq<HdfsFs> {
        self.entries@
    }
}

impl HdfsFsCache {
    /// There is an entry for endpoint `e`.
    pub open spec fn has_endpoint(self, e: Seq<char>) -> bool {
        exists|i: int| 0 <= i < self@.len() && (#[trigger] self@[i]).url_spec() == e
    }

    /// The entry for endpoint `e` (well defined whenever the cache is well
    /// formed and `has_endpoint(e)` holds).
    pub open spec fn entry_at(self, e: Seq<char>) -> HdfsFs {
        self@[choose|i: int| 0 <= i < self@.len() && (#[trigger] self@[i]).url_spec() == e]
    }

    /// Well-formedness: never two connections for one endpoint.
    pub open spec fn wf(self) -> bool {
        forall|i: int, j: int|
            #![trigger self@[i], self@[j]]
            0 <= i < self@.len() && 0 <= j < self@.len() && i != j ==> self@[i].url_spec()
                != self@[j].url_spec()
    }

    /// An empty cache.
    pub fn new() -> (c: HdfsFsCache)
        ensures
            c.wf(),
            c@.len() == 0,
    {
        HdfsFsCache { entries: Vec::new() }
    }

    /// The cached connection for an endpoint, if there is one.
    fn find(&self, endpoint: &String) -> (r: Option<HdfsFs>)
        requires
            self.wf(),
        ensures
            match r {
                Some(fs) => self.has_endpoint(endpoint@) && fs == self.entry_at(endpoint@),
                None => !self.has_endpoint(endpoint@),
            },
    {
        let n = self.entries.len();
        let mut i: usize = 0;
        while i < n
            invariant
                n == self.entries.len(),
                i <= n,
                self.wf(),
                forall|k: int| 0 <= k < i ==> (#[trigger] self@[k]).url_spec() != endpoint@,
            decreases n - i,
        {
            if self.entries[i].url_eq(endpoint) {
                proof {
                    assert(self@[i as int].url_spec() == endpoint@);
                    assert(self.has_endpoint(endpoint@));
                    let j = choose|j: int|
                        0 <= j < self@.len() && (#[trigger] self@[j]).url_spec() == endpoint@;
                    assert(j == i as int);
                }
                return Some(self.entries[i].clone());
            }
            i = i + 1;
        }
        None
    }

    /// Resolves a path and looks its endpoint up: the cached connection if
    /// the endpoint is connected, the endpoint owed a connect if not, and
    /// `InvalidUrl` for a path that resolves to no endpoint. Lookup never
    /// changes the cache.
    pub fn get(&self, path: &str) -> (r: Result<CacheLookup, HdfsErr>)
        requires
            self.wf(),
        ensures
            match resolve_spec(path@) {
                None => r matches Err(e) && (e matches HdfsErr::InvalidUrl(p) && p@ == path@),
                Some(e) => if self.has_endpoint(e) {
                    r matches Ok(l) && (l matches CacheLookup::Hit(fs) && fs == self.entry_at(e))
                } else {
                    r matches Ok(l) && (l matches CacheLookup::Miss(m) && m@ == e)
                },
            },
    {
        match get_namenode_uri(path) {
            Err(e) => Err(e),
            Ok(uri) => match self.find(&uri) {
                Some(fs) => Ok(CacheLookup::Hit(fs)),
                None => Ok(CacheLookup::Miss(uri)),
            },
        }
    }

    /// Records the outcome of the one native connect owed for a missing
    /// endpoint. An endpoint that is already connected keeps its existing
    /// connection, whatever handle is offered, so a second connect can never
    /// be installed; a failed connect (`None`) leaves the cache unchanged and
    /// reports `CannotConnectToNameNode`.
    pub fn install(&mut self, endpoint: String, handle: Option<u64>) -> (r: Result<
        HdfsFs,
        HdfsErr,
    >)
        requires
            old(self).wf(),
        ensures
            final(self).wf(),
            old(self).has_endpoint(endpoint@) ==> (r matches Ok(fs) && fs == old(self).entry_at(
                endpoint@,
            ) && *final(self) == *old(self)),
            !old(self).has_endpoint(endpoint@) ==> match handle {
                None => (r matches Err(e) && (e matches HdfsErr::CannotConnectToNameNode(u) && u@
                    == endpoint@)) && *final(self) == *old(self),
                Some(h) => r matches Ok(fs) && fs.url_spec() == endpoint@ && fs.raw_spec() == h
                    && final(self)@ == old(self)@.push(fs),
            },
    {
        match self.find(&endpoint) {
            Some(fs) => Ok(fs),
            None => match handle {
                None => Err(HdfsErr::CannotConnectToNameNode(endpoint)),
                Some(h) => {
                    let ghost pre = *self;
                    let fs = HdfsFs::new(endpoint, h);
                    let r = fs.clone();
                    self.entries.push(fs);
                    proof {
                        assert forall|i: int, j: int|
                            0 <= i < self@.len() && 0 <= j < self@.len() && i != j implies (
                        #[trigger] self@[i]).url_spec() != (#[trigger] self@[j]).url_spec() by {
                            if i < pre@.len() && j < pre@.len() {
                                assert(pre.wf());
                            } else if i < pre@.len() {
                                assert(self@[i] == pre@[i]);
                                assert(!pre.has_endpoint(self@[j].url_spec()));
                            } else if j < pre@.len() {
                                assert(self@[j] == pre@[j]);
                                assert(!pre.has_endpoint(self@[i].url_spec()));
                            }
                        }
                    }
                    Ok(r)
                },
            },
        }
    }
}

/// Law: a well-formed cache never holds two connections for one endpoint:
/// two entries that serve the same endpoint are one and the same entry.
pub proof fn lemma_one_connection_per_endpoint(c: HdfsFsCache, i: int, j: int)
    requires
        c.wf(),
        0 <= i < c@.len(),
        0 <= j < c@.len(),
        c@[i].url_spec() == c@[j].url_spec(),
    ensures
        i == j,
        c@[i] == c@[j],
{
}

/// Law: two paths that resolve to the same endpoint are served by the same
/// connection: once that endpoint is cached, looking either path up returns
/// the one cached entry and owes no further native connect.
pub proof fn lemma_get_deduplicates(c: HdfsFsCache, p1: Seq<char>, p2: Seq<char>)
    requires
        c.wf(),
        resolve_spec(p1) == resolve_spec(p2),
        resolve_spec(p1) matches Some(e) && c.has_endpoint(e),
    ensures
        c.entry_at(resolve_spec(p1)->Some_0) == c.entry_at(resolve_spec(p2)->Some_0),
{
}

/// Law: installing the one connect for a missing endpoint makes that
/// endpoint cached, and the cached entry is exactly the installed
/// connection; every later lookup of the endpoint returns it unchanged.
pub proof fn lemma_install_then_hit(pre: HdfsFsCache, post: HdfsFsCache, fs: HdfsFs, e: Seq<char>)
    requires
        pre.wf(),
        !pre.has_endpoint(e),
        fs.url_spec() == e,
        post@ == pre@.push(fs),
    ensures
        post.has_endpoint(e),
        post.entry_at(e) == fs,
{
    let n = pre@.len() as int;
    assert(post@[n] == fs);
    assert(post.has_endpoint(e));
    let j = choose|j: int| 0 <= j < post@.len() && (#[trigger] post@[j]).url_spec() == e;
    if j < n {
        assert(post@[j] == pre@[j]);
        assert(pre.has_endpoint(e));
    }
}

} // verus!

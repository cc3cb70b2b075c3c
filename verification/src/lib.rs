//! Client-side logic for a distributed filesystem: endpoint resolution,
//! a connection cache that keeps at most one connection per namenode,
//! and typed interpretation of the native client's return codes.

mod cache;
mod codes;
mod dfs;
mod endpoint;
mod err;
mod minidfs;
mod rz;
mod status;
mod util;

pub use cache::CacheLookup;
pub use cache::HdfsFsCache;
pub use cache::lemma_get_deduplicates;
pub use cache::lemma_install_then_hit;
pub use cache::lemma_one_connection_per_endpoint;
pub use dfs::BlockHosts;
pub use dfs::HdfsFile;
pub use dfs::HdfsFs;
pub use dfs::O_APPEND;
pub use dfs::O_RDONLY;
pub use dfs::O_WRONLY;
pub use dfs::OpenRequest;
pub use endpoint::dec_digit;
pub use endpoint::dec_rep;
pub use endpoint::endpoint_seq;
pub use endpoint::get_namenode_uri;
pub use endpoint::lemma_hostless_does_not_resolve;
pub use endpoint::lemma_local_scheme_is_local_endpoint;
pub use endpoint::lemma_resolve_deterministic;
pub use endpoint::opt_str_view;
pub use endpoint::port_to_string;
pub use endpoint::resolve_spec;
pub use endpoint::uri_parts;
pub use codes::flag_is_set;
pub use codes::io_len_result;
pub use codes::size_result;
pub use codes::status_result;
pub use codes::status_succeeded;
pub use err::HdfsErr;
pub use minidfs::MiniDFS;
pub use minidfs::MiniDfsConf;
pub use rz::RzBuffer;
pub use rz::RzOptions;
pub use status::FileInfo;
pub use status::FileStatus;
pub use status::hdfsReadStatistics;
pub use status::tObjectKind;
pub use util::HdfsUtil;
pub use util::bool_to_c_int;

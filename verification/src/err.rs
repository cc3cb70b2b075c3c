//! Errors that can occur while accessing the cluster.

use vstd::prelude::*;

verus! {

/// Errors which can occur during accessing the filesystem cluster.
///
/// Every fallible operation of this library returns one of these kinds;
/// no native failure is silently swallowed and no expected failure panics.
#[derive(Debug, PartialEq)]
pub enum HdfsErr {
    /// The native layer failed and gave no finer signal.
    Unknown,
    /// file path
    FileNotFound(String),
    /// file path
    FileAlreadyExists(String),
    /// namenode address
    CannotConnectToNameNode(String),
    /// A path that does not resolve to an endpoint: unparseable, or a
    /// non-local URI without a host.
    InvalidUrl(String),
}

} // verus!

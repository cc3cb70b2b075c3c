//! The embedded single-node test cluster: its configuration and the typed
//! interpretation of what its native lifecycle calls return.

use vstd::prelude::*;

verus! {

/// Configuration for the embedded test cluster. The native layer reads the
/// flags in the C convention, one for true and zero for false.
pub struct MiniDfsConf {
    do_format: u8,
    webhdfs_enabled: u8,
    namenode_http_port: i32,
    short_circuit_enabled: u8,
}

impl MiniDfsConf {
    /// The default configuration: format the cluster before startup, no
    /// webhdfs, no fixed http port, no short-circuit reads.
    pub fn new() -> (c: MiniDfsConf)
        ensures
            c.do_format(),
            !c.web_hdfs_enabled(),
            c.http_port() == 0,
            !c.short_circuit_enabled(),
    {
        MiniDfsConf { do_format: 1, webhdfs_enabled: 0, namenode_http_port: 0, short_circuit_enabled: 0 }
    }

    /// Set whether the cluster should be formatted prior to startup.
    pub fn set_do_format(&mut self, on: bool)
        ensures
            final(self).do_format() == on,
            final(self).web_hdfs_enabled() == old(self).web_hdfs_enabled(),
            final(self).http_port() == old(self).http_port(),
            final(self).short_circuit_enabled() == old(self).short_circuit_enabled(),
    {
        self.do_format = if on {
            1
        } else {
            0
        };
    }

    /// The cluster will be formatted prior to startup if true.
    pub closed spec fn spec_do_format(&self) -> bool {
        self.do_format != 0
    }

    /// The cluster will be formatted prior to startup if true.
    #[verifier::when_used_as_spec(spec_do_format)]
    pub fn do_format(&self) -> (b: bool)
        ensures
            b == self.spec_do_format(),
    {
        self.do_format != 0
    }

    /// Set whether webhdfs should be enabled in the cluster.
    pub fn set_web_hdfs(&mut self, enable: bool)
        ensures
            final(self).web_hdfs_enabled() == enable,
            final(self).do_format() == old(self).do_format(),
            final(self).http_port() == old(self).http_port(),
            final(self).short_circuit_enabled() == old(self).short_circuit_enabled(),
    {
        self.webhdfs_enabled = if enable {
            1
        } else {
            0
        };
    }

    /// Webhdfs will be available in the cluster if true.
    pub closed spec fn spec_web_hdfs_enabled(&self) -> bool {
        self.webhdfs_enabled != 0
    }

    /// Webhdfs will be available in the cluster if true.
    #[verifier::when_used_as_spec(spec_web_hdfs_enabled)]
    pub fn web_hdfs_enabled(&self) -> (b: bool)
        ensures
            b == self.spec_web_hdfs_enabled(),
    {
        self.webhdfs_enabled != 0
    }

    /// Set the http port of the namenode in the cluster.
    pub fn set_http_port(&mut self, port: i32)
        ensures
            final(self).http_port() == port,
            final(self).do_format() == old(self).do_format(),
            final(self).web_hdfs_enabled() == old(self).web_hdfs_enabled(),
            final(self).short_circuit_enabled() == old(self).short_circuit_enabled(),
    {
        self.namenode_http_port = port;
    }

    /// The http port of the namenode in the cluster.
    pub closed spec fn spec_http_port(&self) -> i32 {
        self.namenode_http_port
    }

    /// The http port of the namenode in the cluster.
    #[verifier::when_used_as_spec(spec_http_port)]
    pub fn http_port(&self) -> (p: i32)
        ensures
            p == self.spec_http_port(),
    {
        self.namenode_http_port
    }

    /// Set whether short-circuit reads should be configured.
    pub fn set_short_circuit(&mut self, enable: bool)
        ensures
            final(self).short_circuit_enabled() == enable,
            final(self).do_format() == old(self).do_format(),
            final(self).web_hdfs_enabled() == old(self).web_hdfs_enabled(),
            final(self).http_port() == old(self).http_port(),
    {
        self.short_circuit_enabled = if enable {
            1
        } else {
            0
        };
    }

    /// Short-circuit reads will be configured if true.
    pub closed spec fn spec_short_circuit_enabled(&self) -> bool {
        self.short_circuit_enabled != 0
    }

    /// Short-circuit reads will be configured if true.
    #[verifier::when_used_as_spec(spec_short_circuit_enabled)]
    pub fn short_circuit_enabled(&self) -> (b: bool)
        ensures
            b == self.spec_short_circuit_enabled(),
    {
        self.short_circuit_enabled != 0
    }
}

/// A running embedded test cluster: the handle the native layer returned
/// for it.
pub struct MiniDFS {
    cluster: u64,
}

impl MiniDFS {
    /// The native cluster handle.
    pub closed spec fn cluster_spec(self) -> u64 {
        self.cluster
    }

    /// Interprets what the native cluster creation returned: `None` for the
    /// native null, otherwise the running cluster.
    pub fn start(cluster: Option<u64>) -> (r: Option<MiniDFS>)
        ensures
            match cluster {
                None => r is None,
                Some(h) => r matches Some(dfs) && dfs.cluster_spec() == h,
            },
    {
        match cluster {
            None => None,
            Some(h) => Some(MiniDFS { cluster: h }),
        }
    }

    /// The raw native cluster handle.
    pub fn cluster(&self) -> (r: u64)
        ensures
            r == self.cluster_spec(),
    {
        self.cluster
    }

    /// Interprets the status of the native wait for the cluster to come out
    /// of safe mode: zero reports success.
    pub fn wait_for_clusterup(&self, res: i32) -> (b: bool)
        ensures
            b == (res == 0),
    {
        res == 0
    }

    /// Interprets what the native namenode-port query returned: the port
    /// when positive, nothing on a negative error code.
    pub fn namenode_port(&self, port: i32) -> (r: Option<i32>)
        ensures
            port > 0 ==> r == Some(port),
            port <= 0 ==> r is None,
    {
        if port > 0 {
            Some(port)
        } else {
            None
        }
    }

    /// Interprets what the native namenode-http-address query returned: on a
    /// zero status, the hostname and port it filled in.
    pub fn namenode_http_addr(&self, res: i32, hostname: String, port: i32) -> (r: Option<
        (String, i32),
    >)
        ensures
            res == 0 ==> (r matches Some(a) && a.0@ == hostname@ && a.1 == port),
            res != 0 ==> r is None,
    {
        if res == 0 {
            Some((hostname, port))
        } else {
            None
        }
    }

    /// Interprets the status of configuring a native connection builder for
    /// this cluster: zero reports success.
    pub fn set_hdfs_builder(&self, res: i32) -> (b: bool)
        ensures
            b == (res == 0),
    {
        res == 0
    }
}

} // verus!

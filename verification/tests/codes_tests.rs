use hdfs::bool_to_c_int;
use hdfs::flag_is_set;
use hdfs::io_len_result;
use hdfs::size_result;
use hdfs::status_result;
use hdfs::status_succeeded;
use hdfs::CacheLookup;
use hdfs::HdfsErr;
use hdfs::HdfsFsCache;
use hdfs::HdfsUtil;
use hdfs::MiniDFS;
use hdfs::MiniDfsConf;
use hdfs::RzOptions;

#[test]
fn status_codes_map_zero_to_success() {
    assert_eq!(status_result(0).unwrap(), true);
    match status_result(-1) {
        Err(HdfsErr::Unknown) => {},
        other => panic!("expected Unknown, got {:?}", other),
    }
    assert!(status_succeeded(0));
    assert!(!status_succeeded(-1));
    assert!(!status_succeeded(2));
}

#[test]
fn flags_map_one_to_true() {
    assert!(flag_is_set(1));
    assert!(!flag_is_set(0));
    assert!(!flag_is_set(-1));
}

#[test]
fn sizes_must_be_positive() {
    assert_eq!(size_result(134_217_728).unwrap(), 134_217_728);
    assert!(size_result(0).is_err());
    assert!(size_result(-5).is_err());
}

#[test]
fn io_lengths_must_be_positive() {
    assert_eq!(io_len_result(512).unwrap(), 512);
    assert!(io_len_result(0).is_err());
    assert!(io_len_result(-1).is_err());
}

#[test]
fn copy_and_move_report_like_status_codes() {
    assert_eq!(HdfsUtil::copy(0).unwrap(), true);
    assert!(HdfsUtil::copy(1).is_err());
    assert_eq!(HdfsUtil::mv(0).unwrap(), true);
    assert!(HdfsUtil::mv(-1).is_err());
}

#[test]
fn bool_renders_in_the_c_convention() {
    assert_eq!(bool_to_c_int(true), 1);
    assert_eq!(bool_to_c_int(false), 0);
}

#[test]
fn minidfs_conf_starts_with_format_only() {
    let conf = MiniDfsConf::new();
    assert!(conf.do_format());
    assert!(!conf.web_hdfs_enabled());
    assert_eq!(conf.http_port(), 0);
    assert!(!conf.short_circuit_enabled());
}

#[test]
fn minidfs_conf_setters_set_their_field_alone() {
    let mut conf = MiniDfsConf::new();
    conf.set_do_format(false);
    conf.set_web_hdfs(true);
    conf.set_http_port(50070);
    conf.set_short_circuit(true);
    assert!(!conf.do_format());
    assert!(conf.web_hdfs_enabled());
    assert_eq!(conf.http_port(), 50070);
    assert!(conf.short_circuit_enabled());
    conf.set_http_port(0);
    assert!(conf.web_hdfs_enabled());
    assert_eq!(conf.http_port(), 0);
}

#[test]
fn minidfs_start_maps_null_to_none() {
    assert!(MiniDFS::start(None).is_none());
    let dfs = MiniDFS::start(Some(5)).unwrap();
    assert_eq!(dfs.cluster(), 5);
    assert!(dfs.wait_for_clusterup(0));
    assert!(!dfs.wait_for_clusterup(-1));
    assert!(dfs.set_hdfs_builder(0));
}

#[test]
fn minidfs_port_queries_need_positive_answers() {
    let dfs = MiniDFS::start(Some(5)).unwrap();
    assert_eq!(dfs.namenode_port(9000), Some(9000));
    assert_eq!(dfs.namenode_port(0), None);
    assert_eq!(dfs.namenode_port(-1), None);
    let addr = dfs.namenode_http_addr(0, String::from("localhost"), 50070).unwrap();
    assert_eq!(addr.0, "localhost");
    assert_eq!(addr.1, 50070);
    assert!(dfs.namenode_http_addr(-1, String::from("localhost"), 50070).is_none());
}

#[test]
fn rz_options_keep_their_settings() {
    let mut opts = RzOptions::new();
    assert!(!opts.skips_checksum());
    assert!(opts.pool_class().is_none());
    opts.skip_checksum(true);
    opts.set_bytebuffer_pool("org.apache.hadoop.io.ElasticByteBufferPool");
    assert!(opts.skips_checksum());
    assert_eq!(
        opts.pool_class().as_deref(),
        Some("org.apache.hadoop.io.ElasticByteBufferPool")
    );
}

#[test]
fn zero_copy_read_wraps_the_native_buffer() {
    let mut cache = HdfsFsCache::new();
    let endpoint = match cache.get("hdfs://localhost:9000/").unwrap() {
        CacheLookup::Miss(e) => e,
        CacheLookup::Hit(_) => panic!("a fresh cache cannot hit"),
    };
    let fs = cache.install(endpoint, Some(7)).unwrap();
    let req = fs.open("/test_file");
    let file = fs.open_result(req, Some(11)).unwrap();

    match file.read_zc(None) {
        Err(HdfsErr::Unknown) => {},
        other => panic!("expected Unknown, got Ok or {:?}", other.err()),
    }
    let buf = file.read_zc(Some((99, 4096))).unwrap();
    assert_eq!(buf.handle(), 99);
    assert_eq!(buf.len(), 4096);
}

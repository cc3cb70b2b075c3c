use hdfs::tObjectKind;
use hdfs::CacheLookup;
use hdfs::FileInfo;
use hdfs::HdfsErr;
use hdfs::HdfsFs;
use hdfs::HdfsFsCache;

fn connected_fs() -> HdfsFs {
    let mut cache = HdfsFsCache::new();
    let endpoint = match cache.get("hdfs://localhost:9000/").unwrap() {
        CacheLookup::Miss(e) => e,
        CacheLookup::Hit(_) => panic!("a fresh cache cannot hit"),
    };
    cache.install(endpoint, Some(7)).unwrap()
}

fn dir_info(name: &str) -> FileInfo {
    FileInfo {
        kind: tObjectKind::kObjectKindDirectory,
        name: String::from(name),
        last_mod: 1_000,
        replication: 0,
        block_size: 0,
        owner: String::from("test"),
        group: String::from("supergroup"),
        permissions: 0o755,
        last_access: 900,
        size: 0,
    }
}

#[test]
fn get_file_status_reads_every_field() {
    let fs = connected_fs();
    let info = FileInfo {
        kind: tObjectKind::kObjectKindFile,
        name: String::from("hdfs://localhost:9000/test_file"),
        last_mod: 1_234,
        replication: 3,
        block_size: 134_217_728,
        owner: String::from("alice"),
        group: String::from("users"),
        permissions: 0o644,
        last_access: 1_200,
        size: 42,
    };
    let st = fs.get_file_status(Some(info)).unwrap();
    assert_eq!(st.name(), "hdfs://localhost:9000/test_file");
    assert!(st.is_file());
    assert!(!st.is_directory());
    assert_eq!(st.owner(), "alice");
    assert_eq!(st.group(), "users");
    assert_eq!(st.permission(), 0o644);
    assert_eq!(st.len(), 42);
    assert_eq!(st.block_size(), 134_217_728);
    assert_eq!(st.replica_count(), 3);
    assert_eq!(st.last_modified(), 1_234);
    assert_eq!(st.last_accced(), 1_200);
}

#[test]
fn get_file_status_of_a_directory() {
    let fs = connected_fs();
    let st = fs.get_file_status(Some(dir_info("hdfs://localhost:9000/dir1"))).unwrap();
    assert_eq!(st.name(), "hdfs://localhost:9000/dir1");
    assert!(!st.is_file());
    assert!(st.is_directory());
}

#[test]
fn get_file_status_maps_null_to_unknown() {
    let fs = connected_fs();
    match fs.get_file_status(None) {
        Err(HdfsErr::Unknown) => {},
        other => panic!("expected Unknown, got Ok or {:?}", other.err()),
    }
}

#[test]
fn list_status_maps_null_to_unknown() {
    let fs = connected_fs();
    match fs.list_status(None) {
        Err(HdfsErr::Unknown) => {},
        other => panic!("expected Unknown, got Ok or {:?}", other.err()),
    }
}

#[test]
fn list_status_returns_every_created_entry() {
    let fs = connected_fs();
    let sub_dir_num = 3;
    let mut expected_list = Vec::new();
    let mut batch = Vec::new();
    for x in 0..sub_dir_num {
        let name = format!("hdfs://localhost:9000/dir1/{}", x);
        expected_list.push(name.clone());
        batch.push(dir_info(&name));
    }
    // The native layer reports entries in no promised order.
    batch.reverse();

    let mut list = fs.list_status(Some(batch)).unwrap();
    assert_eq!(sub_dir_num, list.len());

    list.sort_by(|a, b| Ord::cmp(a.name(), b.name()));
    for (expected, status) in expected_list.iter().zip(list.iter()) {
        assert_eq!(expected, status.name());
        assert!(status.is_directory());
    }
}

#[test]
fn entries_outlive_their_siblings() {
    let fs = connected_fs();
    let batch = vec![
        dir_info("hdfs://localhost:9000/dir1/a"),
        dir_info("hdfs://localhost:9000/dir1/b"),
        dir_info("hdfs://localhost:9000/dir1/c"),
    ];
    let mut list = fs.list_status(Some(batch)).unwrap();

    // Drop the entries in an order other than the one they were made in:
    // the shared batch must stay valid for the survivors.
    let last = list.pop().unwrap();
    let first = list.remove(0);
    drop(list);
    assert_eq!(last.name(), "hdfs://localhost:9000/dir1/c");
    drop(first);
    assert_eq!(last.owner(), "test");
    assert_eq!(last.name(), "hdfs://localhost:9000/dir1/c");
}

#[test]
fn read_statistics_report_remote_bytes() {
    let stats = hdfs::hdfsReadStatistics {
        totalBytesRead: 100,
        totalLocalBytesRead: 60,
        totalShortCircuitBytesRead: 10,
        totalZeroCopyBytesRead: 5,
    };
    assert_eq!(stats.remote_bytes_read(), 40);
}

use hdfs::CacheLookup;
use hdfs::HdfsErr;
use hdfs::HdfsFsCache;

#[test]
fn miss_then_install_then_hit() {
    let mut cache = HdfsFsCache::new();
    let endpoint = match cache.get("hdfs://localhost:9000/users/test").unwrap() {
        CacheLookup::Miss(e) => e,
        CacheLookup::Hit(_) => panic!("a fresh cache cannot hit"),
    };
    assert_eq!(endpoint, "hdfs://localhost:9000");

    let fs = cache.install(endpoint, Some(7)).unwrap();
    assert_eq!(fs.url(), "hdfs://localhost:9000");
    assert_eq!(fs.raw(), 7);

    match cache.get("hdfs://localhost:9000/other/path").unwrap() {
        CacheLookup::Hit(cached) => {
            assert_eq!(cached.raw(), fs.raw());
            assert_eq!(cached.url(), fs.url());
        },
        CacheLookup::Miss(_) => panic!("the endpoint was installed, so the lookup must hit"),
    }
}

#[test]
fn same_endpoint_gets_same_connection() {
    let mut cache = HdfsFsCache::new();
    let endpoint = match cache.get("hdfs://nn:8020/a").unwrap() {
        CacheLookup::Miss(e) => e,
        CacheLookup::Hit(_) => panic!("a fresh cache cannot hit"),
    };
    cache.install(endpoint, Some(41)).unwrap();

    let h1 = match cache.get("hdfs://nn:8020/a").unwrap() {
        CacheLookup::Hit(fs) => fs.raw(),
        CacheLookup::Miss(_) => panic!("expected a hit"),
    };
    let h2 = match cache.get("hdfs://nn:8020/some/very/different/path").unwrap() {
        CacheLookup::Hit(fs) => fs.raw(),
        CacheLookup::Miss(_) => panic!("expected a hit"),
    };
    assert_eq!(h1, 41);
    assert_eq!(h1, h2);
}

#[test]
fn install_keeps_the_first_connection() {
    let mut cache = HdfsFsCache::new();
    let first = cache.install(String::from("hdfs://nn:8020"), Some(1)).unwrap();
    let second = cache.install(String::from("hdfs://nn:8020"), Some(2)).unwrap();
    assert_eq!(first.raw(), 1);
    assert_eq!(second.raw(), 1);
}

#[test]
fn failed_connect_leaves_cache_unchanged() {
    let mut cache = HdfsFsCache::new();
    match cache.install(String::from("hdfs://nn:8020"), None) {
        Err(HdfsErr::CannotConnectToNameNode(e)) => assert_eq!(e, "hdfs://nn:8020"),
        other => panic!("expected CannotConnectToNameNode, got {:?}", other),
    }
    match cache.get("hdfs://nn:8020/x").unwrap() {
        CacheLookup::Miss(e) => assert_eq!(e, "hdfs://nn:8020"),
        CacheLookup::Hit(_) => panic!("a failed connect must not be cached"),
    }
}

#[test]
fn invalid_path_fails_and_does_not_touch_the_cache() {
    let mut cache = HdfsFsCache::new();
    match cache.get("hdfs:/users/test") {
        Err(HdfsErr::InvalidUrl(p)) => assert_eq!(p, "hdfs:/users/test"),
        other => panic!("expected InvalidUrl, got {:?}", other),
    }
    match cache.get("hdfs://localhost:9000/users/test").unwrap() {
        CacheLookup::Miss(e) => assert_eq!(e, "hdfs://localhost:9000"),
        CacheLookup::Hit(_) => panic!("nothing was installed, so the lookup must miss"),
    }
}

#[test]
fn local_paths_share_the_local_endpoint() {
    let mut cache = HdfsFsCache::new();
    let endpoint = match cache.get("file:/blah").unwrap() {
        CacheLookup::Miss(e) => e,
        CacheLookup::Hit(_) => panic!("a fresh cache cannot hit"),
    };
    assert_eq!(endpoint, "file:///");
    cache.install(endpoint, Some(3)).unwrap();
    match cache.get("file:///an/entirely/other/path").unwrap() {
        CacheLookup::Hit(fs) => {
            assert_eq!(fs.url(), "file:///");
            assert_eq!(fs.raw(), 3);
        },
        CacheLookup::Miss(_) => panic!("every local path must hit the local endpoint"),
    }
}

#[test]
fn distinct_endpoints_get_distinct_entries() {
    let mut cache = HdfsFsCache::new();
    cache.install(String::from("hdfs://a:1"), Some(10)).unwrap();
    cache.install(String::from("hdfs://b:2"), Some(20)).unwrap();
    match cache.get("hdfs://a:1/x").unwrap() {
        CacheLookup::Hit(fs) => assert_eq!(fs.raw(), 10),
        CacheLookup::Miss(_) => panic!("expected a hit"),
    }
    match cache.get("hdfs://b:2/x").unwrap() {
        CacheLookup::Hit(fs) => assert_eq!(fs.raw(), 20),
        CacheLookup::Miss(_) => panic!("expected a hit"),
    }
}

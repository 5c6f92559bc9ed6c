use storage_config::errors::StorageError;
use storage_config::kind::ObjectStoreKind;
use storage_config::urlinfo::StorageUrl;
use url::Url;

fn surl(text: &str) -> StorageUrl {
    let u = Url::parse(text).unwrap();
    StorageUrl {
        scheme: u.scheme().to_string(),
        host: u.host_str().unwrap_or_default().to_string(),
        path: u.path().to_string(),
        raw: u.as_str().to_string(),
    }
}

#[test]
fn scheme_table_yields_listed_kinds() {
    let cases = vec![
        ("file:///tmp/data", ObjectStoreKind::Local),
        ("memory:///", ObjectStoreKind::InMemory),
        ("az://container/path", ObjectStoreKind::Azure),
        ("abfs://container/path", ObjectStoreKind::Azure),
        ("abfss://container/path", ObjectStoreKind::Azure),
        ("azure://container/path", ObjectStoreKind::Azure),
        ("wasb://container/path", ObjectStoreKind::Azure),
        ("adl://container/path", ObjectStoreKind::Azure),
        ("s3://bucket/path", ObjectStoreKind::S3),
        ("s3a://bucket/path", ObjectStoreKind::S3),
        ("gs://bucket/path", ObjectStoreKind::Google),
        ("hdfs://namenode/path", ObjectStoreKind::Hdfs),
    ];
    for (text, expected) in cases {
        let got = ObjectStoreKind::parse_url(&surl(text)).unwrap();
        assert_eq!(got, expected, "classifying {}", text);
    }
}

#[test]
fn unknown_scheme_is_unsupported_with_url_text() {
    match ObjectStoreKind::parse_url(&surl("ftp://x")) {
        Err(StorageError::UnsupportedUrl(u)) => {
            assert!(u.contains("ftp://x"), "error carries the url, got {}", u);
        }
        other => panic!("expected UnsupportedUrl, got {:?}", other),
    }
}

#[test]
fn https_amazon_host_is_s3() {
    let got = ObjectStoreKind::parse_url(&surl("https://bucket.s3.amazonaws.com/p")).unwrap();
    assert_eq!(got, ObjectStoreKind::S3);
}

#[test]
fn https_azure_hosts_are_azure() {
    let got = ObjectStoreKind::parse_url(&surl("https://acct.dfs.core.windows.net/p")).unwrap();
    assert_eq!(got, ObjectStoreKind::Azure);
    let got = ObjectStoreKind::parse_url(&surl("https://acct.blob.core.windows.net/p")).unwrap();
    assert_eq!(got, ObjectStoreKind::Azure);
}

#[test]
fn https_other_host_is_unsupported() {
    match ObjectStoreKind::parse_url(&surl("https://example.com/")) {
        Err(StorageError::UnsupportedUrl(u)) => {
            assert!(u.contains("example.com"));
        }
        other => panic!("expected UnsupportedUrl, got {:?}", other),
    }
}

#[test]
fn host_match_is_substring_containment() {
    // Deliberately broad: the pattern may appear anywhere in the host.
    let got = ObjectStoreKind::parse_url(&surl("https://amazonaws.com.evil.example/p")).unwrap();
    assert_eq!(got, ObjectStoreKind::S3);
}

use std::str::FromStr;
use storage_config::options::{EnvOverrides, StorageOptions};

fn no_env() -> EnvOverrides {
    EnvOverrides {
        azure_storage_allow_http: None,
        azure_storage_use_http: None,
        aws_storage_allow_http: None,
    }
}

fn bag(pairs: &[(&str, &str)]) -> Vec<(String, String)> {
    pairs.iter().map(|(k, v)| (k.to_string(), v.to_string())).collect()
}

fn lookup(opts: &StorageOptions, key: &str) -> Option<String> {
    opts.0.iter().find(|(k, _)| k == key).map(|(_, v)| v.clone())
}

#[test]
fn allow_http_is_case_insensitive_and_truthy() {
    let opts = StorageOptions::new(bag(&[("ALLOW_HTTP", "true")]), &no_env());
    assert!(opts.allow_http());
    let opts = StorageOptions::new(bag(&[("allow_http", "0")]), &no_env());
    assert!(!opts.allow_http());
}

#[test]
fn allow_http_matches_substring_keys() {
    let opts = StorageOptions::new(bag(&[("my_allow_http_flag", "yes")]), &no_env());
    assert!(opts.allow_http());
    let opts = StorageOptions::new(bag(&[("unrelated", "true")]), &no_env());
    assert!(!opts.allow_http());
}

#[test]
fn allow_http_on_empty_bag_is_false() {
    let opts = StorageOptions::new(Vec::new(), &no_env());
    assert!(!opts.allow_http());
}

#[test]
fn aws_env_variable_turns_allow_http_on() {
    let env = EnvOverrides {
        azure_storage_allow_http: None,
        azure_storage_use_http: None,
        aws_storage_allow_http: Some("1".to_string()),
    };
    let opts = StorageOptions::new(Vec::new(), &env);
    assert!(opts.allow_http());
    assert_eq!(lookup(&opts, "allow_http"), Some("1".to_string()));
}

#[test]
fn conflicting_env_variables_let_aws_win() {
    let env = EnvOverrides {
        azure_storage_allow_http: Some("true".to_string()),
        azure_storage_use_http: Some("yes".to_string()),
        aws_storage_allow_http: Some("0".to_string()),
    };
    let opts = StorageOptions::new(bag(&[("allow_http", "on")]), &env);
    assert_eq!(lookup(&opts, "allow_http"), Some("0".to_string()));
    assert!(!opts.allow_http());
}

#[test]
fn azure_use_http_wins_when_aws_is_unset() {
    let env = EnvOverrides {
        azure_storage_allow_http: Some("0".to_string()),
        azure_storage_use_http: Some("true".to_string()),
        aws_storage_allow_http: None,
    };
    let opts = StorageOptions::new(bag(&[("allow_http", "0")]), &env);
    assert_eq!(lookup(&opts, "allow_http"), Some("true".to_string()));
    assert!(opts.allow_http());
}

#[test]
fn env_overlay_appends_when_key_absent_and_overwrites_in_place() {
    let env = EnvOverrides {
        azure_storage_allow_http: None,
        azure_storage_use_http: None,
        aws_storage_allow_http: Some("1".to_string()),
    };
    let opts = StorageOptions::new(bag(&[("a", "x"), ("allow_http", "0"), ("b", "y")]), &env);
    let keys: Vec<&str> = opts.0.iter().map(|(k, _)| k.as_str()).collect();
    assert_eq!(keys, vec!["a", "allow_http", "b"]);
    assert_eq!(lookup(&opts, "allow_http"), Some("1".to_string()));
}

#[test]
fn s3_view_keeps_recognized_keys_and_drops_the_rest() {
    let opts = StorageOptions::new(bag(&[("AWS_ACCESS_KEY_ID", "k"), ("bogus_key", "v")]), &no_env());
    let view = opts.as_s3_options();
    assert_eq!(view, vec![("aws_access_key_id".to_string(), "k".to_string())]);
}

#[test]
fn s3_view_keys_parse_into_the_provider_vocabulary() {
    let opts = StorageOptions::new(
        bag(&[("AWS_ACCESS_KEY_ID", "k"), ("aws_region", "eu-west-1")]),
        &no_env(),
    );
    for (key, _) in opts.as_s3_options() {
        assert!(object_store::aws::AmazonS3ConfigKey::from_str(&key).is_ok());
    }
    assert_eq!(
        object_store::aws::AmazonS3ConfigKey::from_str("aws_access_key_id").unwrap(),
        object_store::aws::AmazonS3ConfigKey::AccessKeyId,
    );
}

#[test]
fn s3_view_deduplicates_aliases_last_value_wins() {
    let opts = StorageOptions::new(bag(&[("aws_region", "eu"), ("region", "us")]), &no_env());
    let view = opts.as_s3_options();
    assert_eq!(view, vec![("aws_region".to_string(), "us".to_string())]);
}

#[test]
fn azure_view_recognizes_azure_keys_only() {
    let opts = StorageOptions::new(
        bag(&[("azure_storage_account_name", "acct"), ("bogus", "v")]),
        &no_env(),
    );
    let view = opts.as_azure_options();
    assert_eq!(view.len(), 1);
    assert_eq!(view[0].1, "acct");
    assert!(object_store::azure::AzureConfigKey::from_str(&view[0].0).is_ok());
}

#[test]
fn gcs_view_recognizes_google_keys_only() {
    let opts = StorageOptions::new(
        bag(&[("google_service_account", "sa.json"), ("bogus", "v")]),
        &no_env(),
    );
    let view = opts.as_gcs_options();
    assert_eq!(view.len(), 1);
    assert_eq!(view[0].1, "sa.json");
    assert!(object_store::gcp::GoogleConfigKey::from_str(&view[0].0).is_ok());
}

#[test]
fn truthiness_accepts_documented_spellings_only() {
    for v in ["1", "true", "TRUE", "on", "On", "yes", "YES", "y", "Y"] {
        let opts = StorageOptions::new(bag(&[("allow_http", v)]), &no_env());
        assert!(opts.allow_http(), "{} should be truthy", v);
    }
    for v in ["0", "false", "off", "no", "", "2", "truthy"] {
        let opts = StorageOptions::new(bag(&[("allow_http", v)]), &no_env());
        assert!(!opts.allow_http(), "{} should not be truthy", v);
    }
}

#[test]
fn set_key_overwrites_in_place_or_appends() {
    let v = storage_config::options::set_key(bag(&[("a", "1"), ("b", "2")]), "b", "9");
    assert_eq!(v, bag(&[("a", "1"), ("b", "9")]));
    let v = storage_config::options::set_key(bag(&[("a", "1")]), "c", "3");
    assert_eq!(v, bag(&[("a", "1"), ("c", "3")]));
}

use r2_upload::health;
use r2_upload::storage::{ConfigVar, StartupError, Storage, StorageConfig, StorageObject};

fn some(s: &str) -> Option<String> {
    Some(s.to_string())
}

fn full_config() -> StorageConfig {
    StorageConfig::load(some("id"), some("secret"), some("acct01"), some("assets"), some("auto"))
        .unwrap()
}

#[test]
fn load_takes_every_value() {
    let c = full_config();
    assert_eq!(c.access_id, "id");
    assert_eq!(c.access_secret, "secret");
    assert_eq!(c.account_id, "acct01");
    assert_eq!(c.bucket_name, "assets");
    assert_eq!(c.region, "auto");
}

#[test]
fn load_reports_each_missing_variable() {
    let vals = ["id", "secret", "acct01", "assets", "auto"];
    let vars = [
        ConfigVar::AccessId,
        ConfigVar::AccessSecret,
        ConfigVar::AccountId,
        ConfigVar::BucketName,
        ConfigVar::Region,
    ];
    for missing in 0..5 {
        let v: Vec<Option<String>> =
            (0..5).map(|i| if i == missing { None } else { some(vals[i]) }).collect();
        let r = StorageConfig::load(
            v[0].clone(),
            v[1].clone(),
            v[2].clone(),
            v[3].clone(),
            v[4].clone(),
        );
        assert!(matches!(r, Err(StartupError::Configuration(var)) if var == vars[missing]));
    }
}

#[test]
fn load_reports_first_missing_in_order() {
    let r = StorageConfig::load(some("id"), None, some("acct"), None, None);
    assert!(matches!(r, Err(StartupError::Configuration(ConfigVar::AccessSecret))));
    let r = StorageConfig::load(None, None, None, None, None);
    assert!(matches!(r, Err(StartupError::Configuration(ConfigVar::AccessId))));
}

#[test]
fn variable_names() {
    assert_eq!(ConfigVar::AccessId.name(), "ACCESS_ID");
    assert_eq!(ConfigVar::AccessSecret.name(), "ACCESS_SECRET");
    assert_eq!(ConfigVar::AccountId.name(), "ACCOUNT_ID");
    assert_eq!(ConfigVar::BucketName.name(), "BUCKET_NAME");
    assert_eq!(ConfigVar::Region.name(), "REGION");
}

#[test]
fn initialize_builds_endpoint_and_keeps_settings() {
    let s = Storage::builder().initialize(full_config()).unwrap();
    assert_eq!(s.endpoint_url(), "https://acct01.r2.cloudflarestorage.com");
    assert_eq!(s.region(), "auto");
    assert_eq!(s.access_id(), "id");
    assert_eq!(s.access_secret(), "secret");
    assert_eq!(s.bucket_name(), "assets");
}

#[test]
fn initialize_rejects_bad_account_or_region() {
    let bad_account = ["", "acct.evil", "a/b", "acc t", "é"];
    for a in bad_account {
        let c = StorageConfig::load(some("id"), some("s"), some(a), some("b"), some("auto"))
            .unwrap();
        assert!(matches!(
            Storage::builder().initialize(c),
            Err(StartupError::ConnectionSetup)
        ));
    }
    let c = StorageConfig::load(some("id"), some("s"), some("acct"), some("b"), some(""))
        .unwrap();
    assert!(matches!(Storage::builder().initialize(c), Err(StartupError::ConnectionSetup)));
}

#[test]
fn initialize_accepts_hyphen_and_digits() {
    let c = StorageConfig::load(some("id"), some("s"), some("Ab-09"), some("b"), some("auto"))
        .unwrap();
    let s = Storage::builder().initialize(c).unwrap();
    assert_eq!(s.endpoint_url(), "https://Ab-09.r2.cloudflarestorage.com");
}

#[test]
fn put_request_targets_bucket_and_key() {
    let s = Storage::builder().initialize(full_config()).unwrap();
    let r = s.put_request(StorageObject { key: "dir/a.png".to_string(), data: vec![1, 2, 3] });
    assert_eq!(r.bucket, "assets");
    assert_eq!(r.key, "dir/a.png");
    assert_eq!(r.body, vec![1, 2, 3]);
}

#[test]
fn health_answers_healthy() {
    assert_eq!(health(), "healthy");
}

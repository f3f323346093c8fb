//! Tests of the derived-spec builder: schedules, paths, backup blocks and
//! the storage-configuration merge.

use conductor::builder::{
    effective_write_path, generate_cron_expression, include_storage_configuration,
    s3_destination, stack_type_of, with_cloud_stack_backup, with_custom_s3_backup,
};
use conductor::config::CustomS3Config;
use conductor::coredb::{CoreDbSpec, DedicatedNetworking, PgConfig};

fn bare_spec() -> CoreDbSpec {
    CoreDbSpec {
        stack_name: None,
        backup: None,
        service_account_annotations: vec![],
        dedicated_networking: None,
        runtime_config: None,
    }
}

#[test]
fn cron_expression_is_deterministic_and_spread() {
    assert_eq!(generate_cron_expression("org-a-inst-1"), "27 7 * * *");
    assert_eq!(generate_cron_expression("sample"), "42 8 * * *");
    assert_eq!(generate_cron_expression(""), "0 0 * * *");
    assert_eq!(
        generate_cron_expression("org-a-inst-1"),
        generate_cron_expression("org-a-inst-1")
    );
}

#[test]
fn write_path_defaults_to_namespace_prefix() {
    assert_eq!(effective_write_path(&None, "ns-1"), "v2/ns-1");
    assert_eq!(effective_write_path(&Some("given/path".to_string()), "ns-1"), "given/path");
}

#[test]
fn destination_joins_bucket_and_path() {
    assert_eq!(s3_destination("bkt", "v2/ns-1"), "s3://bkt/v2/ns-1");
}

#[test]
fn stack_type_falls_back_to_na() {
    assert_eq!(stack_type_of(&None), "NA");
    assert_eq!(stack_type_of(&Some("standard".to_string())), "standard");
}

#[test]
fn cloud_stack_mutation_builds_the_backup_block() {
    let mut spec = bare_spec();
    spec.dedicated_networking = Some(DedicatedNetworking { public: false });
    let out = with_cloud_stack_backup(
        spec,
        "arn:aws:iam::123:role/ns-1".to_string(),
        "backup-bkt",
        &None,
        "ns-1",
        true,
    );
    let backup = out.backup.expect("backup block");
    assert_eq!(backup.destination_path.as_deref(), Some("s3://backup-bkt/v2/ns-1"));
    assert_eq!(backup.encryption.as_deref(), Some("AES256"));
    assert_eq!(backup.retention_policy.as_deref(), Some("30"));
    assert_eq!(backup.schedule.as_deref(), Some(generate_cron_expression("ns-1").as_str()));
    assert_eq!(backup.s3_credentials.unwrap().inherit_from_iam_role, Some(true));
    assert_eq!(backup.endpoint_url, None);
    assert_eq!(out.service_account_annotations.len(), 1);
    assert_eq!(out.service_account_annotations[0].key, "eks.amazonaws.com/role-arn");
    assert_eq!(out.service_account_annotations[0].value, "arn:aws:iam::123:role/ns-1");
    // The public flag is forced when dedicated networking is configured.
    assert_eq!(out.dedicated_networking, Some(DedicatedNetworking { public: true }));
}

#[test]
fn cloud_stack_mutation_leaves_missing_networking_alone() {
    let out = with_cloud_stack_backup(
        bare_spec(),
        "arn:x".to_string(),
        "backup-bkt",
        &Some("w/p".to_string()),
        "ns-1",
        true,
    );
    assert_eq!(out.dedicated_networking, None);
    assert_eq!(
        out.backup.unwrap().destination_path.as_deref(),
        Some("s3://backup-bkt/w/p")
    );
}

#[test]
fn custom_s3_mutation_references_the_credentials_secret() {
    let custom = CustomS3Config {
        bucket: "custom-bkt".to_string(),
        endpoint: "https://s3.example".to_string(),
        access_key_id: "AK".to_string(),
        secret_access_key: "SK".to_string(),
    };
    let out = with_custom_s3_backup(bare_spec(), &custom, &None, "ns-1");
    let backup = out.backup.expect("backup block");
    assert_eq!(backup.destination_path.as_deref(), Some("s3://custom-bkt/v2/ns-1"));
    assert_eq!(backup.encryption.as_deref(), Some(""));
    assert_eq!(backup.endpoint_url.as_deref(), Some("https://s3.example"));
    let creds = backup.s3_credentials.expect("credential references");
    assert_eq!(creds.inherit_from_iam_role, Some(false));
    let ak = creds.access_key_id.expect("access key reference");
    assert_eq!((ak.key.as_str(), ak.name.as_str()), ("ACCESS_KEY_ID", "custom-s3-creds"));
    let sk = creds.secret_access_key.expect("secret key reference");
    assert_eq!((sk.key.as_str(), sk.name.as_str()), ("SECRET_ACCESS_KEY", "custom-s3-creds"));
}

#[test]
fn storage_merge_appends_once_and_only_once() {
    let wp = Some("writes".to_string());
    let once = include_storage_configuration(bare_spec(), "storage-bkt", &wp);
    let rc = once.runtime_config.clone().expect("runtime config");
    assert_eq!(rc.len(), 1);
    assert_eq!(rc[0].name, "tembo.storage_bucket_and_path");
    assert_eq!(rc[0].value, "storage-bkt/writes");

    // Applying the merge a second time changes nothing.
    let twice = include_storage_configuration(once.clone(), "storage-bkt", &wp);
    assert_eq!(twice, once);
}

#[test]
fn storage_merge_keeps_a_pre_existing_entry() {
    let mut spec = bare_spec();
    spec.runtime_config = Some(vec![PgConfig {
        name: "tembo.storage_bucket_and_path".to_string(),
        value: "already/set".to_string(),
    }]);
    let out = include_storage_configuration(spec, "storage-bkt", &Some("writes".to_string()));
    let rc = out.runtime_config.expect("runtime config");
    assert_eq!(rc.len(), 1);
    assert_eq!(rc[0].value, "already/set");
}

#[test]
fn storage_merge_without_write_path_is_a_no_op() {
    let mut spec = bare_spec();
    spec.runtime_config = Some(vec![PgConfig {
        name: "shared_preload_libraries".to_string(),
        value: "pg_stat_statements".to_string(),
    }]);
    let out = include_storage_configuration(spec.clone(), "storage-bkt", &None);
    assert_eq!(out, spec);
}

//! Tests of the startup configuration checks and the process-level
//! decisions around the reconciler.

use conductor::config::{
    BackupTarget, CloudStackConfig, ConfigError, CustomS3Config, resolve_backup_target,
};
use conductor::reconciler::MetricsDelta;
use conductor::supervisor::{Metrics, WorkerFailure, all_workers_alive, worker_should_restart};

fn cloud() -> CloudStackConfig {
    CloudStackConfig {
        backup_archive_bucket: "backup-bkt".to_string(),
        loadbalancer_public: true,
    }
}

fn custom() -> CustomS3Config {
    CustomS3Config {
        bucket: "custom-bkt".to_string(),
        endpoint: "https://s3.example".to_string(),
        access_key_id: "AK".to_string(),
        secret_access_key: "SK".to_string(),
    }
}

#[test]
fn cloud_stack_requires_a_template_bucket() {
    let r = resolve_backup_target(Some(cloud()), &"".to_string(), None);
    assert_eq!(r, Err(ConfigError::TemplateBucketRequired));
}

#[test]
fn both_backup_modes_at_once_are_refused() {
    let r = resolve_backup_target(Some(cloud()), &"tpl-bkt".to_string(), Some(custom()));
    assert_eq!(r, Err(ConfigError::ConflictingBackupModes));
}

#[test]
fn single_modes_are_accepted() {
    assert_eq!(
        resolve_backup_target(Some(cloud()), &"tpl-bkt".to_string(), None),
        Ok(BackupTarget::CloudStack(cloud()))
    );
    assert_eq!(
        resolve_backup_target(None, &"".to_string(), Some(custom())),
        Ok(BackupTarget::CustomS3(custom()))
    );
    assert_eq!(
        resolve_backup_target(None, &"".to_string(), None),
        Ok(BackupTarget::Disabled)
    );
}

#[test]
fn counters_follow_the_deltas() {
    let mut m = Metrics::new();
    m.record(MetricsDelta {
        total: true,
        errors: false,
        requeues_short: true,
        requeues_long: false,
        completed: false,
    });
    m.record(MetricsDelta {
        total: true,
        errors: true,
        requeues_short: false,
        requeues_long: false,
        completed: false,
    });
    m.record(MetricsDelta {
        total: true,
        errors: false,
        requeues_short: false,
        requeues_long: false,
        completed: true,
    });
    assert_eq!(
        (m.total, m.errors, m.requeues_short, m.requeues_long, m.completed),
        (3, 1, 1, 0, 1)
    );
}

#[test]
fn counters_saturate_at_the_bound() {
    let mut m = Metrics::new();
    m.total = u64::MAX;
    m.record(MetricsDelta {
        total: true,
        errors: true,
        requeues_short: false,
        requeues_long: false,
        completed: false,
    });
    assert_eq!(m.total, u64::MAX);
    assert_eq!(m.errors, 1);
}

#[test]
fn only_a_pool_timeout_stops_a_worker() {
    assert!(!worker_should_restart(WorkerFailure::PoolTimedOut));
    assert!(worker_should_restart(WorkerFailure::Other));
}

#[test]
fn liveness_requires_every_worker() {
    assert!(all_workers_alive(&vec![]));
    assert!(all_workers_alive(&vec![true, true, true]));
    assert!(!all_workers_alive(&vec![true, false, true]));
}

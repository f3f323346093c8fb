//! Scenario tests driving the reconciliation state machine end to end.

use conductor::config::{BackupTarget, CloudStackConfig, Config, CustomS3Config};
use conductor::coredb::CoreDbSpec;
use conductor::events::{ConnectionInfo, CrudEvent, Envelope, Event, InstanceStatus};
use conductor::reconciler::{
    terminal_event, Action, Disposition, EffectRequest, Machine, Observation, RequeueKind,
};

fn cloud_cfg() -> Config {
    Config {
        max_read_ct: 100,
        backup_target: BackupTarget::CloudStack(CloudStackConfig {
            backup_archive_bucket: "backup-bkt".to_string(),
            loadbalancer_public: false,
        }),
        storage_archive_bucket: "storage-bkt".to_string(),
        storage_class_name: "".to_string(),
    }
}

fn custom_s3_cfg() -> Config {
    Config {
        max_read_ct: 100,
        backup_target: BackupTarget::CustomS3(CustomS3Config {
            bucket: "custom-bkt".to_string(),
            endpoint: "https://s3.example".to_string(),
            access_key_id: "AK".to_string(),
            secret_access_key: "SK".to_string(),
        }),
        storage_archive_bucket: "storage-bkt".to_string(),
        storage_class_name: "".to_string(),
    }
}

fn bare_spec() -> CoreDbSpec {
    CoreDbSpec {
        stack_name: Some("standard".to_string()),
        backup: None,
        service_account_annotations: vec![],
        dedicated_networking: None,
        runtime_config: None,
    }
}

fn envelope(event_type: Event, read_ct: i32, spec: Option<CoreDbSpec>) -> Envelope {
    Envelope {
        msg_id: 7,
        read_ct,
        enqueued_at: 1000,
        message: CrudEvent {
            event_type,
            org_id: "org-a".to_string(),
            inst_id: "1".to_string(),
            data_plane_id: "dp-1".to_string(),
            namespace: "org-a-inst-1".to_string(),
            spec,
            backups_read_path: None,
            backups_write_path: None,
        },
    }
}

fn conn_info() -> ConnectionInfo {
    ConnectionInfo {
        host: "org-a-inst-1.example.com".to_string(),
        port: 5432,
        user: "postgres".to_string(),
        password: "SECRET-REDACTED".to_string(),
    }
}

fn expect_effect(a: Action) -> EffectRequest {
    match a {
        Action::Perform(e) => e,
        other => panic!("expected an effect request, got {:?}", other),
    }
}

#[test]
fn create_happy_path() {
    let (m, a) = Machine::start(cloud_cfg(), envelope(Event::Create, 1, Some(bare_spec())));
    assert_eq!(
        expect_effect(a),
        EffectRequest::QueryTombstone { namespace: "org-a-inst-1".to_string() }
    );

    let (m, a) = m.step(Observation::TombstoneAbsent);
    assert_eq!(
        expect_effect(a),
        EffectRequest::EnsureCloudStack {
            namespace: "org-a-inst-1".to_string(),
            read_path: None,
            write_path: None,
            backup_bucket: "backup-bkt".to_string(),
            storage_bucket: "storage-bkt".to_string(),
        }
    );

    let arn = "arn:aws:iam::123:role/org-a-inst-1".to_string();
    let (m, a) = m.step(Observation::StackReady { role_arn: arn.clone() });
    assert_eq!(
        expect_effect(a),
        EffectRequest::CreateNamespace {
            namespace: "org-a-inst-1".to_string(),
            org_id: "org-a".to_string(),
            inst_id: "1".to_string(),
        }
    );

    let (m, a) = m.step(Observation::Completed);
    let resource = match expect_effect(a) {
        EffectRequest::ApplyResource { resource } => resource,
        other => panic!("expected the desired resource, got {:?}", other),
    };
    assert_eq!(resource.namespace, "org-a-inst-1");
    assert_eq!(resource.stack_type, "standard");
    let backup = resource.spec.backup.clone().expect("backup block");
    assert_eq!(
        backup.destination_path.as_deref(),
        Some("s3://backup-bkt/v2/org-a-inst-1")
    );
    assert_eq!(backup.encryption.as_deref(), Some("AES256"));
    assert_eq!(backup.retention_policy.as_deref(), Some("30"));
    assert_eq!(backup.schedule.as_deref(), Some("27 7 * * *"));
    assert_eq!(
        backup.s3_credentials.unwrap().inherit_from_iam_role,
        Some(true)
    );
    let anns = &resource.spec.service_account_annotations;
    assert_eq!(anns.len(), 1);
    assert_eq!(anns[0].key, "eks.amazonaws.com/role-arn");
    assert_eq!(anns[0].value, arn);

    let (m, a) = m.step(Observation::Completed);
    assert_eq!(
        expect_effect(a),
        EffectRequest::FetchConnection { namespace: "org-a-inst-1".to_string() }
    );

    let (m, a) = m.step(Observation::Connection { info: conn_info() });
    assert_eq!(
        expect_effect(a),
        EffectRequest::FetchState { namespace: "org-a-inst-1".to_string() }
    );

    let observed = bare_spec();
    let (m, a) = m.step(Observation::Observed {
        spec: observed.clone(),
        status: Some(InstanceStatus { running: true }),
    });
    match a {
        Action::Finish { disposition: Disposition::Publish { report }, metrics } => {
            assert_eq!(report.event_type, Event::Created);
            assert_eq!(report.org_id, "org-a");
            assert_eq!(report.inst_id, "1");
            assert_eq!(report.data_plane_id, "dp-1");
            assert_eq!(report.spec, Some(observed));
            assert_eq!(report.status, Some(InstanceStatus { running: true }));
            assert_eq!(report.connection, Some(conn_info()));
            assert!(metrics.total && metrics.completed);
            assert!(!metrics.errors && !metrics.requeues_short && !metrics.requeues_long);
        }
        other => panic!("expected a published report, got {:?}", other),
    }
    assert!(m.is_settled());
}

#[test]
fn create_with_deferred_stack_outputs() {
    let (m, _) = Machine::start(cloud_cfg(), envelope(Event::Create, 1, Some(bare_spec())));
    let (m, _) = m.step(Observation::TombstoneAbsent);
    let (m, a) = m.step(Observation::StackPending);
    match a {
        Action::Finish { disposition: Disposition::Requeue { vt_seconds, kind }, metrics } => {
            assert_eq!(vt_seconds, 5);
            assert_eq!(kind, RequeueKind::Short);
            assert!(metrics.requeues_short && metrics.total);
            assert!(!metrics.errors && !metrics.completed);
        }
        other => panic!("expected a short requeue, got {:?}", other),
    }
    assert!(m.is_settled());

    // The redelivery finds the outputs ready and completes as the happy path.
    let (m, _) = Machine::start(cloud_cfg(), envelope(Event::Create, 2, Some(bare_spec())));
    let (m, _) = m.step(Observation::TombstoneAbsent);
    let (_, a) = m.step(Observation::StackReady { role_arn: "arn:x".to_string() });
    assert!(matches!(a, Action::Perform(EffectRequest::CreateNamespace { .. })));
}

#[test]
fn delete_after_partial() {
    // Two deliveries find the deletion incomplete and requeue for 60 s.
    for read_ct in [1, 2] {
        let (m, a) = Machine::start(cloud_cfg(), envelope(Event::Delete, read_ct, None));
        assert_eq!(
            expect_effect(a),
            EffectRequest::DeleteInstance { namespace: "org-a-inst-1".to_string() }
        );
        let (m, a) = m.step(Observation::DeleteProgress { complete: false });
        match a {
            Action::Finish { disposition: Disposition::Requeue { vt_seconds, kind }, metrics } => {
                assert_eq!(vt_seconds, 60);
                assert_eq!(kind, RequeueKind::Deletion);
                assert!(metrics.total);
                assert!(!metrics.errors && !metrics.requeues_short && !metrics.requeues_long);
            }
            other => panic!("expected the deletion requeue, got {:?}", other),
        }
        assert!(m.is_settled());
    }

    // The third delivery completes: stack teardown, tombstone, report.
    let (m, _) = Machine::start(cloud_cfg(), envelope(Event::Delete, 3, None));
    let (m, a) = m.step(Observation::DeleteProgress { complete: true });
    assert_eq!(
        expect_effect(a),
        EffectRequest::DeleteCloudStack { namespace: "org-a-inst-1".to_string() }
    );
    let (m, a) = m.step(Observation::Completed);
    assert_eq!(
        expect_effect(a),
        EffectRequest::MarkDeleted { namespace: "org-a-inst-1".to_string() }
    );
    let (m, a) = m.step(Observation::Completed);
    match a {
        Action::Finish { disposition: Disposition::Publish { report }, metrics } => {
            assert_eq!(report.event_type, Event::Deleted);
            assert_eq!(report.spec, None);
            assert_eq!(report.status, None);
            assert_eq!(report.connection, None);
            assert!(metrics.total && metrics.completed);
        }
        other => panic!("expected the deletion report, got {:?}", other),
    }
    assert!(m.is_settled());
}

#[test]
fn tombstoned_replay() {
    let (m, a) = Machine::start(cloud_cfg(), envelope(Event::Update, 1, Some(bare_spec())));
    assert_eq!(
        expect_effect(a),
        EffectRequest::QueryTombstone { namespace: "org-a-inst-1".to_string() }
    );
    let (m, a) = m.step(Observation::TombstonePresent);
    match a {
        Action::Finish { disposition, metrics } => {
            assert_eq!(disposition, Disposition::ArchiveSilent);
            assert!(!metrics.total && !metrics.errors && !metrics.completed);
            assert!(!metrics.requeues_short && !metrics.requeues_long);
        }
        other => panic!("expected a silent archive, got {:?}", other),
    }
    assert!(m.is_settled());
}

#[test]
fn age_out() {
    let (m, _) = Machine::start(cloud_cfg(), envelope(Event::Create, 100, Some(bare_spec())));
    let (m, a) = m.step(Observation::TombstoneAbsent);
    match a {
        Action::Finish { disposition: Disposition::ArchiveFailed { report }, metrics } => {
            let report = report.expect("an error report is owed on age-out");
            assert_eq!(report.event_type, Event::Error);
            assert_eq!(report.org_id, "org-a");
            assert_eq!(report.inst_id, "1");
            assert_eq!(report.data_plane_id, "dp-1");
            assert_eq!(report.spec, None);
            assert_eq!(report.status, None);
            assert_eq!(report.connection, None);
            assert!(metrics.total && metrics.errors);
            assert!(!metrics.completed && !metrics.requeues_short && !metrics.requeues_long);
        }
        other => panic!("expected the age-out archive, got {:?}", other),
    }
    assert!(m.is_settled());
}

#[test]
fn stop_with_running_cluster() {
    let run_to_state = |read_ct: i32| {
        let (m, _) = Machine::start(cloud_cfg(), envelope(Event::Stop, read_ct, Some(bare_spec())));
        let (m, _) = m.step(Observation::TombstoneAbsent);
        let (m, _) = m.step(Observation::StackReady { role_arn: "arn:x".to_string() });
        let (m, _) = m.step(Observation::Completed);
        let (m, _) = m.step(Observation::Completed);
        let (m, a) = m.step(Observation::Connection { info: conn_info() });
        assert!(matches!(a, Action::Perform(EffectRequest::FetchState { .. })));
        m
    };

    // Still running: requeue shortly, no stack teardown.
    let m = run_to_state(1);
    let (m, a) = m.step(Observation::Observed {
        spec: bare_spec(),
        status: Some(InstanceStatus { running: true }),
    });
    match a {
        Action::Finish { disposition: Disposition::Requeue { vt_seconds, kind }, metrics } => {
            assert_eq!(vt_seconds, 5);
            assert_eq!(kind, RequeueKind::Short);
            assert!(metrics.requeues_short);
        }
        other => panic!("expected a short requeue, got {:?}", other),
    }
    assert!(m.is_settled());

    // Observed stopped: tear the stack down, then report completion.
    let m = run_to_state(2);
    let (m, a) = m.step(Observation::Observed {
        spec: bare_spec(),
        status: Some(InstanceStatus { running: false }),
    });
    assert_eq!(
        expect_effect(a),
        EffectRequest::DeleteCloudStack { namespace: "org-a-inst-1".to_string() }
    );
    let (m, a) = m.step(Observation::Completed);
    match a {
        Action::Finish { disposition: Disposition::Publish { report }, metrics } => {
            assert_eq!(report.event_type, Event::StopComplete);
            assert_eq!(report.spec, Some(bare_spec()));
            assert_eq!(report.status, Some(InstanceStatus { running: false }));
            assert_eq!(report.connection, Some(conn_info()));
            assert!(metrics.completed);
        }
        other => panic!("expected the stop report, got {:?}", other),
    }
    assert!(m.is_settled());
}

#[test]
fn custom_s3_path_upserts_secret_and_references_it() {
    let mut env = envelope(Event::Create, 1, Some(bare_spec()));
    env.message.backups_write_path = Some("writes/here".to_string());
    let (m, _) = Machine::start(custom_s3_cfg(), env);
    let (m, a) = m.step(Observation::TombstoneAbsent);
    // No provisioning stack in custom object-store mode.
    assert!(matches!(a, Action::Perform(EffectRequest::CreateNamespace { .. })));
    let (m, a) = m.step(Observation::Completed);
    assert_eq!(
        expect_effect(a),
        EffectRequest::UpsertSecret {
            namespace: "org-a-inst-1".to_string(),
            name: "custom-s3-creds".to_string(),
            access_key_id: "AK".to_string(),
            secret_access_key: "SK".to_string(),
        }
    );
    let (_, a) = m.step(Observation::Completed);
    let resource = match expect_effect(a) {
        EffectRequest::ApplyResource { resource } => resource,
        other => panic!("expected the desired resource, got {:?}", other),
    };
    let backup = resource.spec.backup.clone().expect("backup block");
    assert_eq!(backup.destination_path.as_deref(), Some("s3://custom-bkt/writes/here"));
    assert_eq!(backup.encryption.as_deref(), Some(""));
    assert_eq!(backup.endpoint_url.as_deref(), Some("https://s3.example"));
    let creds = backup.s3_credentials.expect("credential references");
    assert_eq!(creds.inherit_from_iam_role, Some(false));
    assert_eq!(creds.access_key_id.unwrap().name, "custom-s3-creds");
    assert_eq!(creds.secret_access_key.unwrap().key, "SECRET_ACCESS_KEY");
    // The storage merge appended its runtime-configuration entry.
    let rc = resource.spec.runtime_config.expect("runtime config");
    assert_eq!(rc.len(), 1);
    assert_eq!(rc[0].name, "tembo.storage_bucket_and_path");
    assert_eq!(rc[0].value, "storage-bkt/writes/here");
}

#[test]
fn restart_tolerates_missing_connection() {
    let (m, a) = Machine::start(cloud_cfg(), envelope(Event::Restart, 1, None));
    assert_eq!(
        expect_effect(a),
        EffectRequest::QueryTombstone { namespace: "org-a-inst-1".to_string() }
    );
    let (m, a) = m.step(Observation::TombstoneAbsent);
    assert_eq!(
        expect_effect(a),
        EffectRequest::RestartInstance {
            namespace: "org-a-inst-1".to_string(),
            enqueued_at: 1000,
        }
    );
    let (m, a) = m.step(Observation::Completed);
    assert_eq!(
        expect_effect(a),
        EffectRequest::FetchStateLenient { namespace: "org-a-inst-1".to_string() }
    );
    let (m, a) = m.step(Observation::Observed { spec: bare_spec(), status: None });
    assert_eq!(
        expect_effect(a),
        EffectRequest::FetchConnection { namespace: "org-a-inst-1".to_string() }
    );
    let (m, a) = m.step(Observation::ConnectionFailed);
    match a {
        Action::Finish { disposition: Disposition::Publish { report }, metrics } => {
            assert_eq!(report.event_type, Event::Restarted);
            assert_eq!(report.spec, Some(bare_spec()));
            assert_eq!(report.connection, None);
            assert!(metrics.completed);
        }
        other => panic!("expected the restart report, got {:?}", other),
    }
    assert!(m.is_settled());
}

#[test]
fn restart_failure_requeues_shortly() {
    let (m, _) = Machine::start(cloud_cfg(), envelope(Event::Restart, 1, None));
    let (m, _) = m.step(Observation::TombstoneAbsent);
    let (_, a) = m.step(Observation::Failed);
    match a {
        Action::Finish { disposition: Disposition::Requeue { vt_seconds, kind }, metrics } => {
            assert_eq!(vt_seconds, 5);
            assert_eq!(kind, RequeueKind::Short);
            assert!(metrics.requeues_short);
        }
        other => panic!("expected a short requeue, got {:?}", other),
    }
}

#[test]
fn missing_spec_is_archived_as_malformed() {
    let (m, _) = Machine::start(cloud_cfg(), envelope(Event::Create, 1, None));
    let (m, a) = m.step(Observation::TombstoneAbsent);
    match a {
        Action::Finish { disposition: Disposition::ArchiveFailed { report }, metrics } => {
            assert_eq!(report, None);
            assert!(metrics.total && metrics.errors);
        }
        other => panic!("expected the malformed archive, got {:?}", other),
    }
    assert!(m.is_settled());
}

#[test]
fn unhandled_event_type_is_left_in_flight() {
    let (m, _) = Machine::start(cloud_cfg(), envelope(Event::Created, 1, None));
    let (m, a) = m.step(Observation::TombstoneAbsent);
    match a {
        Action::Finish { disposition, metrics } => {
            assert_eq!(disposition, Disposition::LeaveInFlight);
            assert!(metrics.total && metrics.errors);
        }
        other => panic!("expected the message to be left in flight, got {:?}", other),
    }
    assert!(m.is_settled());
}

#[test]
fn tombstone_read_failure_skips_the_message() {
    let (m, _) = Machine::start(cloud_cfg(), envelope(Event::Create, 1, Some(bare_spec())));
    let (m, a) = m.step(Observation::TombstoneUnknown);
    match a {
        Action::Finish { disposition, metrics } => {
            assert_eq!(disposition, Disposition::SkipMessage);
            assert!(!metrics.total && !metrics.errors);
        }
        other => panic!("expected the message to be skipped, got {:?}", other),
    }
    assert!(m.is_settled());
}

#[test]
fn stack_failure_requeues_long() {
    let (m, _) = Machine::start(cloud_cfg(), envelope(Event::Create, 1, Some(bare_spec())));
    let (m, _) = m.step(Observation::TombstoneAbsent);
    let (_, a) = m.step(Observation::StackFailed);
    match a {
        Action::Finish { disposition: Disposition::Requeue { vt_seconds, kind }, metrics } => {
            assert_eq!(vt_seconds, 300);
            assert_eq!(kind, RequeueKind::Long);
            assert!(metrics.requeues_long && !metrics.errors);
        }
        other => panic!("expected a long requeue, got {:?}", other),
    }
}

#[test]
fn connection_outcomes_follow_the_error_taxonomy() {
    let run_to_connection = || {
        let (m, _) = Machine::start(cloud_cfg(), envelope(Event::Update, 1, Some(bare_spec())));
        let (m, _) = m.step(Observation::TombstoneAbsent);
        let (m, _) = m.step(Observation::StackReady { role_arn: "arn:x".to_string() });
        let (m, _) = m.step(Observation::Completed);
        let (m, _) = m.step(Observation::Completed);
        m
    };

    // The managed secret not being ready is an expected transient state.
    let (_, a) = run_to_connection().step(Observation::ConnectionPending);
    match a {
        Action::Finish { disposition: Disposition::Requeue { vt_seconds, kind }, metrics } => {
            assert_eq!(vt_seconds, 5);
            assert_eq!(kind, RequeueKind::Short);
            assert!(metrics.requeues_short && !metrics.errors);
        }
        other => panic!("expected a short requeue, got {:?}", other),
    }

    // Any other secret failure is counted as an error and retried late.
    let (_, a) = run_to_connection().step(Observation::ConnectionFailed);
    match a {
        Action::Finish { disposition: Disposition::Requeue { vt_seconds, kind }, metrics } => {
            assert_eq!(vt_seconds, 300);
            assert_eq!(kind, RequeueKind::Long);
            assert!(metrics.errors && !metrics.requeues_long && !metrics.requeues_short);
        }
        other => panic!("expected a long requeue, got {:?}", other),
    }
}

#[test]
fn terminal_events_mirror_the_inbound_intents() {
    assert_eq!(terminal_event(Event::Create), Event::Created);
    assert_eq!(terminal_event(Event::Update), Event::Updated);
    assert_eq!(terminal_event(Event::Restore), Event::Restored);
    assert_eq!(terminal_event(Event::Start), Event::Started);
    assert_eq!(terminal_event(Event::Stop), Event::StopComplete);
    assert_eq!(terminal_event(Event::Restart), Event::Restarted);
    assert_eq!(terminal_event(Event::Delete), Event::Deleted);
}

#[test]
fn replaying_a_handled_message_yields_the_same_actions() {
    let run = || {
        let (m, a0) = Machine::start(cloud_cfg(), envelope(Event::Create, 1, Some(bare_spec())));
        let (m, a1) = m.step(Observation::TombstoneAbsent);
        let (m, a2) = m.step(Observation::StackReady { role_arn: "arn:x".to_string() });
        let (m, a3) = m.step(Observation::Completed);
        let (m, a4) = m.step(Observation::Completed);
        let (m, a5) = m.step(Observation::Connection { info: conn_info() });
        let (_, a6) = m.step(Observation::Observed { spec: bare_spec(), status: None });
        vec![a0, a1, a2, a3, a4, a5, a6]
    };
    assert_eq!(run(), run());
}

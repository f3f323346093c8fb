//! The agent-side model of the PostgreSQL custom-resource spec: exactly the
//! fields the reconciliation logic reads or writes. The cluster's operator
//! owns everything else.

use vstd::prelude::*;

verus! {

/// Mathematical model of a runtime-configuration entry.
pub struct PgConfigView {
    pub name: Seq<char>,
    pub value: Seq<char>,
}

/// A single `name = value` runtime-configuration entry.
#[derive(Clone, Debug, PartialEq)]
pub struct PgConfig {
    pub name: String,
    pub value: String,
}

impl View for PgConfig {
    type V = PgConfigView;

    open spec fn view(&self) -> PgConfigView {
        PgConfigView { name: self.name@, value: self.value@ }
    }
}

impl DeepView for PgConfig {
    type V = PgConfigView;

    open spec fn deep_view(&self) -> PgConfigView {
        self.view()
    }
}

/// Mathematical model of a secret-key reference.
pub struct SecretKeyRefView {
    pub key: Seq<char>,
    pub name: Seq<char>,
}

/// A reference to one key of a named namespace-local secret.
#[derive(Clone, Debug, PartialEq)]
pub struct SecretKeyRef {
    pub key: String,
    pub name: String,
}

impl View for SecretKeyRef {
    type V = SecretKeyRefView;

    open spec fn view(&self) -> SecretKeyRefView {
        SecretKeyRefView { key: self.key@, name: self.name@ }
    }
}

impl DeepView for SecretKeyRef {
    type V = SecretKeyRefView;

    open spec fn deep_view(&self) -> SecretKeyRefView {
        self.view()
    }
}

/// Mathematical model of the object-store credential configuration.
pub struct S3CredentialsView {
    pub inherit_from_iam_role: Option<bool>,
    pub access_key_id: Option<SecretKeyRefView>,
    pub secret_access_key: Option<SecretKeyRefView>,
}

/// How backups authenticate against the object store: either inherited from
/// the instance's IAM role, or explicit key references into a secret.
#[derive(Clone, Debug, PartialEq)]
pub struct S3Credentials {
    pub inherit_from_iam_role: Option<bool>,
    pub access_key_id: Option<SecretKeyRef>,
    pub secret_access_key: Option<SecretKeyRef>,
}

impl View for S3Credentials {
    type V = S3CredentialsView;

    open spec fn view(&self) -> S3CredentialsView {
        S3CredentialsView {
            inherit_from_iam_role: self.inherit_from_iam_role,
            access_key_id: self.access_key_id.deep_view(),
            secret_access_key: self.secret_access_key.deep_view(),
        }
    }
}

impl DeepView for S3Credentials {
    type V = S3CredentialsView;

    open spec fn deep_view(&self) -> S3CredentialsView {
        self.view()
    }
}

/// Volume-snapshot toggle on the backup block.
#[derive(Clone, Copy, Debug, PartialEq, Eq, Structural)]
pub struct VolumeSnapshot {
    pub enabled: bool,
}

/// Mathematical model of a backup block.
pub struct BackupConfigView {
    pub destination_path: Option<Seq<char>>,
    pub encryption: Option<Seq<char>>,
    pub retention_policy: Option<Seq<char>>,
    pub schedule: Option<Seq<char>>,
    pub s3_credentials: Option<S3CredentialsView>,
    pub endpoint_url: Option<Seq<char>>,
    pub volume_snapshot: Option<VolumeSnapshot>,
}

/// The backup block attached to a desired spec: where backups go, how they
/// are encrypted and retained, on what schedule they run, and how they
/// authenticate.
#[derive(Clone, Debug, PartialEq)]
pub struct BackupConfig {
    pub destination_path: Option<String>,
    pub encryption: Option<String>,
    pub retention_policy: Option<String>,
    pub schedule: Option<String>,
    pub s3_credentials: Option<S3Credentials>,
    pub endpoint_url: Option<String>,
    pub volume_snapshot: Option<VolumeSnapshot>,
}

impl View for BackupConfig {
    type V = BackupConfigView;

    open spec fn view(&self) -> BackupConfigView {
        BackupConfigView {
            destination_path: self.destination_path.deep_view(),
            encryption: self.encryption.deep_view(),
            retention_policy: self.retention_policy.deep_view(),
            schedule: self.schedule.deep_view(),
            s3_credentials: self.s3_credentials.deep_view(),
            endpoint_url: self.endpoint_url.deep_view(),
            volume_snapshot: self.volume_snapshot,
        }
    }
}

impl DeepView for BackupConfig {
    type V = BackupConfigView;

    open spec fn deep_view(&self) -> BackupConfigView {
        self.view()
    }
}

/// Mathematical model of a service-account annotation.
pub struct AnnotationView {
    pub key: Seq<char>,
    pub value: Seq<char>,
}

/// One annotation on the instance's service-account template.
#[derive(Clone, Debug, PartialEq)]
pub struct Annotation {
    pub key: String,
    pub value: String,
}

impl View for Annotation {
    type V = AnnotationView;

    open spec fn view(&self) -> AnnotationView {
        AnnotationView { key: self.key@, value: self.value@ }
    }
}

impl DeepView for Annotation {
    type V = AnnotationView;

    open spec fn deep_view(&self) -> AnnotationView {
        self.view()
    }
}

/// Dedicated-networking settings, as far as the agent touches them.
#[derive(Clone, Copy, Debug, PartialEq, Eq, Structural)]
pub struct DedicatedNetworking {
    pub public: bool,
}

/// Mathematical model of the desired spec.
pub struct CoreDbSpecView {
    pub stack_name: Option<Seq<char>>,
    pub backup: Option<BackupConfigView>,
    pub service_account_annotations: Seq<AnnotationView>,
    pub dedicated_networking: Option<DedicatedNetworking>,
    pub runtime_config: Option<Seq<PgConfigView>>,
}

/// The desired PostgreSQL custom-resource spec, restricted to the fields this
/// agent derives or inspects: the stack name, the backup block, the
/// service-account annotations, the dedicated-networking flag and the runtime
/// configuration entries.
#[derive(Clone, Debug, PartialEq)]
pub struct CoreDbSpec {
    pub stack_name: Option<String>,
    pub backup: Option<BackupConfig>,
    pub service_account_annotations: Vec<Annotation>,
    pub dedicated_networking: Option<DedicatedNetworking>,
    pub runtime_config: Option<Vec<PgConfig>>,
}

impl View for CoreDbSpec {
    type V = CoreDbSpecView;

    open spec fn view(&self) -> CoreDbSpecView {
        CoreDbSpecView {
            stack_name: self.stack_name.deep_view(),
            backup: self.backup.deep_view(),
            service_account_annotations: self.service_account_annotations.deep_view(),
            dedicated_networking: self.dedicated_networking,
            runtime_config: self.runtime_config.deep_view(),
        }
    }
}

impl DeepView for CoreDbSpec {
    type V = CoreDbSpecView;

    open spec fn deep_view(&self) -> CoreDbSpecView {
        self.view()
    }
}

} // verus!

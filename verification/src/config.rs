//! Agent configuration: which backup mode is active, the buckets involved,
//! and the age-out threshold. The two backup modes are mutually exclusive and
//! the choice is made once, at startup.

use vstd::prelude::*;

verus! {

/// Mathematical model of the cloud-stack settings.
pub struct CloudStackConfigView {
    pub backup_archive_bucket: Seq<char>,
    pub loadbalancer_public: bool,
}

/// Settings for cloud-stack provisioning: the archive bucket that backups
/// land in, and whether the dedicated-networking flag is forced public.
#[derive(Clone, Debug, PartialEq)]
pub struct CloudStackConfig {
    pub backup_archive_bucket: String,
    pub loadbalancer_public: bool,
}

impl View for CloudStackConfig {
    type V = CloudStackConfigView;

    open spec fn view(&self) -> CloudStackConfigView {
        CloudStackConfigView {
            backup_archive_bucket: self.backup_archive_bucket@,
            loadbalancer_public: self.loadbalancer_public,
        }
    }
}

/// Mathematical model of the custom object-store settings.
pub struct CustomS3ConfigView {
    pub bucket: Seq<char>,
    pub endpoint: Seq<char>,
    pub access_key_id: Seq<char>,
    pub secret_access_key: Seq<char>,
}

/// Settings for the custom object-store backup mode: target bucket and
/// endpoint, and the credential material placed into a namespace-local
/// secret.
#[derive(Clone, Debug, PartialEq)]
pub struct CustomS3Config {
    pub bucket: String,
    pub endpoint: String,
    pub access_key_id: String,
    pub secret_access_key: String,
}

impl View for CustomS3Config {
    type V = CustomS3ConfigView;

    open spec fn view(&self) -> CustomS3ConfigView {
        CustomS3ConfigView {
            bucket: self.bucket@,
            endpoint: self.endpoint@,
            access_key_id: self.access_key_id@,
            secret_access_key: self.secret_access_key@,
        }
    }
}

/// Mathematical model of the backup target.
pub enum BackupTargetView {
    Disabled,
    CloudStack(CloudStackConfigView),
    CustomS3(CustomS3ConfigView),
}

/// The backup mode chosen at startup: no derived backup configuration,
/// cloud-stack provisioning, or a custom object store.
#[derive(Clone, Debug, PartialEq)]
pub enum BackupTarget {
    Disabled,
    CloudStack(CloudStackConfig),
    CustomS3(CustomS3Config),
}

impl View for BackupTarget {
    type V = BackupTargetView;

    open spec fn view(&self) -> BackupTargetView {
        match self {
            BackupTarget::Disabled => BackupTargetView::Disabled,
            BackupTarget::CloudStack(c) => BackupTargetView::CloudStack(c@),
            BackupTarget::CustomS3(c) => BackupTargetView::CustomS3(c@),
        }
    }
}

/// Mathematical model of the agent configuration.
pub struct ConfigView {
    pub max_read_ct: int,
    pub backup_target: BackupTargetView,
    pub storage_archive_bucket: Seq<char>,
    pub storage_class_name: Seq<char>,
}

impl ConfigView {
    /// True when cloud-stack provisioning is active.
    pub open spec fn cloud_stack_enabled(self) -> bool {
        self.backup_target is CloudStack
    }

    /// True when the custom object-store mode is active.
    pub open spec fn custom_s3_enabled(self) -> bool {
        self.backup_target is CustomS3
    }
}

/// The reconciler's configuration: the delivery-count circuit breaker, the
/// backup mode, and the bucket for storage tiering.
#[derive(Clone, Debug, PartialEq)]
pub struct Config {
    pub max_read_ct: i32,
    pub backup_target: BackupTarget,
    pub storage_archive_bucket: String,
    pub storage_class_name: String,
}

impl View for Config {
    type V = ConfigView;

    open spec fn view(&self) -> ConfigView {
        ConfigView {
            max_read_ct: self.max_read_ct as int,
            backup_target: self.backup_target@,
            storage_archive_bucket: self.storage_archive_bucket@,
            storage_class_name: self.storage_class_name@,
        }
    }
}

/// A rejected startup configuration.
#[derive(Clone, Copy, Debug, PartialEq, Eq, Structural)]
pub enum ConfigError {
    /// Cloud-stack provisioning is enabled but no template bucket was given.
    TemplateBucketRequired,
    /// Both backup modes were enabled; at most one may be.
    ConflictingBackupModes,
}

/// Chooses the backup target from the raw startup switches, rejecting the
/// combinations the agent refuses to run with: cloud-stack mode without a
/// template bucket, and both backup modes enabled at once (checked in that
/// order).
pub fn resolve_backup_target(
    cloud_stack: Option<CloudStackConfig>,
    cf_template_bucket: &String,
    custom_s3: Option<CustomS3Config>,
) -> (r: Result<BackupTarget, ConfigError>)
    ensures
        cloud_stack is Some && cf_template_bucket@.len() == 0 ==> r == Result::<
            BackupTarget,
            ConfigError,
        >::Err(ConfigError::TemplateBucketRequired),
        cloud_stack is Some && cf_template_bucket@.len() > 0 && custom_s3 is Some ==> r
            == Result::<BackupTarget, ConfigError>::Err(ConfigError::ConflictingBackupModes),
        cloud_stack is Some && cf_template_bucket@.len() > 0 && custom_s3 is None ==> r is Ok
            && r.unwrap()@ == BackupTargetView::CloudStack(cloud_stack.unwrap()@),
        cloud_stack is None && custom_s3 is Some ==> r is Ok && r.unwrap()@
            == BackupTargetView::CustomS3(custom_s3.unwrap()@),
        cloud_stack is None && custom_s3 is None ==> r is Ok && r.unwrap()@
            == BackupTargetView::Disabled,
{
    match cloud_stack {
        Option::Some(cs) => {
            if cf_template_bucket.as_str().unicode_len() == 0 {
                Result::Err(ConfigError::TemplateBucketRequired)
            } else if custom_s3.is_some() {
                Result::Err(ConfigError::ConflictingBackupModes)
            } else {
                Result::Ok(BackupTarget::CloudStack(cs))
            }
        },
        Option::None => {
            match custom_s3 {
                Option::Some(c) => Result::Ok(BackupTarget::CustomS3(c)),
                Option::None => Result::Ok(BackupTarget::Disabled),
            }
        },
    }
}

} // verus!

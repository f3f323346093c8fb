//! Derivation of the desired spec: the backup block for either backup mode,
//! the service-account annotation carrying the provisioned role, the
//! storage-configuration merge, and the deterministic backup cron schedule.

use vstd::prelude::*;

use crate::config::CustomS3Config;
use crate::config::CustomS3ConfigView;
use crate::coredb::Annotation;
use crate::coredb::AnnotationView;
use crate::coredb::BackupConfig;
use crate::coredb::BackupConfigView;
use crate::coredb::CoreDbSpec;
use crate::coredb::CoreDbSpecView;
use crate::coredb::DedicatedNetworking;
use crate::coredb::PgConfig;
use crate::coredb::PgConfigView;
use crate::coredb::S3Credentials;
use crate::coredb::S3CredentialsView;
use crate::coredb::SecretKeyRef;
use crate::coredb::SecretKeyRefView;
use crate::coredb::VolumeSnapshot;

verus! {

// --- Backup cron schedule ---------------------------------------------------

/// The decimal digit character for `d`.
pub open spec fn spec_digit(d: int) -> char {
    if d == 0 {
        '0'
    } else if d == 1 {
        '1'
    } else if d == 2 {
        '2'
    } else if d == 3 {
        '3'
    } else if d == 4 {
        '4'
    } else if d == 5 {
        '5'
    } else if d == 6 {
        '6'
    } else if d == 7 {
        '7'
    } else if d == 8 {
        '8'
    } else {
        '9'
    }
}

/// Decimal rendering of `n`, for `n < 100`.
pub open spec fn spec_decimal(n: int) -> Seq<char> {
    if n < 10 {
        seq![spec_digit(n)]
    } else {
        seq![spec_digit(n / 10), spec_digit(n % 10)]
    }
}

/// One step of the schedule hash: fold a character into the accumulator,
/// kept below 2^32.
pub open spec fn spec_hash_step(h: int, c: char) -> int {
    (h * 31 + c as int) % 0x1_0000_0000
}

/// The schedule hash of a namespace: a left fold of [`spec_hash_step`] over
/// its characters.
pub open spec fn spec_hash(s: Seq<char>) -> int
    decreases s.len(),
{
    if s.len() == 0 {
        0
    } else {
        spec_hash_step(spec_hash(s.drop_last()), s.last())
    }
}

/// The backup minute derived from a namespace.
pub open spec fn spec_minute_of(s: Seq<char>) -> int {
    spec_hash(s) % 60
}

/// The backup hour derived from a namespace.
pub open spec fn spec_hour_of(s: Seq<char>) -> int {
    (spec_hash(s) / 60) % 24
}

/// The cron expression derived from a namespace: a stable minute and hour
/// within the day, so instances spread their backup load.
pub open spec fn cron_of(s: Seq<char>) -> Seq<char> {
    spec_decimal(spec_minute_of(s)) + " "@ + spec_decimal(spec_hour_of(s)) + " * * *"@
}

/// The single decimal digit `d` as a string slice.
fn digit_str(d: u64) -> (s: &'static str)
    requires
        d < 10,
    ensures
        s@ == seq![spec_digit(d as int)],
{
    let s: &'static str = if d == 0 {
        "0"
    } else if d == 1 {
        "1"
    } else if d == 2 {
        "2"
    } else if d == 3 {
        "3"
    } else if d == 4 {
        "4"
    } else if d == 5 {
        "5"
    } else if d == 6 {
        "6"
    } else if d == 7 {
        "7"
    } else if d == 8 {
        "8"
    } else {
        "9"
    };
    proof {
        reveal_strlit("0");
        reveal_strlit("1");
        reveal_strlit("2");
        reveal_strlit("3");
        reveal_strlit("4");
        reveal_strlit("5");
        reveal_strlit("6");
        reveal_strlit("7");
        reveal_strlit("8");
        reveal_strlit("9");
        assert(s@ =~= seq![spec_digit(d as int)]);
    }
    s
}

/// Renders `n < 100` in decimal.
fn decimal_str(n: u64) -> (s: String)
    requires
        n < 100,
    ensures
        s@ == spec_decimal(n as int),
{
    if n < 10 {
        let s = String::from_str(digit_str(n));
        proof {
            assert(s@ =~= spec_decimal(n as int));
        }
        s
    } else {
        let mut s = String::from_str(digit_str(n / 10));
        s.append(digit_str(n % 10));
        proof {
            assert(s@ =~= spec_decimal(n as int));
        }
        s
    }
}

/// Derives the deterministic backup cron expression for a namespace:
/// `"M H * * *"` where minute and hour are a stable function of the
/// namespace's characters alone.
pub fn generate_cron_expression(namespace: &str) -> (r: String)
    ensures
        r@ == cron_of(namespace@),
{
    let n: usize = namespace.unicode_len();
    let mut h: u64 = 0;
    let mut i: usize = 0;
    while i < n
        invariant
            i <= n,
            n == namespace@.len(),
            h < 0x1_0000_0000,
            h as int == spec_hash(namespace@.subrange(0, i as int)),
        decreases n - i,
    {
        let c = namespace.get_char(i);
        proof {
            let pre = namespace@.subrange(0, i as int + 1);
            assert(pre.drop_last() =~= namespace@.subrange(0, i as int));
            assert(pre.last() == namespace@[i as int]);
        }
        h = (h * 31 + (c as u32) as u64) % 0x1_0000_0000;
        i = i + 1;
    }
    proof {
        assert(namespace@.subrange(0, n as int) =~= namespace@);
    }
    let minute: u64 = h % 60;
    let hour: u64 = (h / 60) % 24;
    let mut r = decimal_str(minute);
    r.append(" ");
    let hour_str = decimal_str(hour);
    r.append(hour_str.as_str());
    r.append(" * * *");
    r
}

// --- Object-store paths -------------------------------------------------------

/// The write path for an instance's backups: the inbound path when one was
/// given, otherwise `v2/<namespace>`.
pub open spec fn effective_write_path_view(wp: Option<Seq<char>>, ns: Seq<char>) -> Seq<char> {
    match wp {
        Option::Some(p) => p,
        Option::None => "v2/"@ + ns,
    }
}

/// The object-store destination `s3://<bucket>/<path>`.
pub open spec fn s3_destination_view(bucket: Seq<char>, path: Seq<char>) -> Seq<char> {
    "s3://"@ + bucket + "/"@ + path
}

/// Executable twin of [`effective_write_path_view`].
pub fn effective_write_path(wp: &Option<String>, namespace: &str) -> (r: String)
    ensures
        r@ == effective_write_path_view(wp.deep_view(), namespace@),
{
    match wp {
        Option::Some(p) => p.clone(),
        Option::None => {
            let mut r = String::from_str("v2/");
            r.append(namespace);
            r
        },
    }
}

/// Executable twin of [`s3_destination_view`].
pub fn s3_destination(bucket: &str, path: &str) -> (r: String)
    ensures
        r@ == s3_destination_view(bucket@, path@),
{
    let mut r = String::from_str("s3://");
    r.append(bucket);
    r.append("/");
    r.append(path);
    r
}

// --- Cloud-stack backup configuration ----------------------------------------

/// The service-account annotation key that carries the provisioned role.
pub open spec fn role_arn_annotation_key() -> Seq<char> {
    "eks.amazonaws.com/role-arn"@
}

/// The backup block attached in cloud-stack mode: archive-bucket
/// destination, `AES256` encryption, default retention of 30, the derived
/// cron schedule, and credentials inherited from the provisioned role.
pub open spec fn cloud_stack_backup_view(
    backup_bucket: Seq<char>,
    wp: Option<Seq<char>>,
    ns: Seq<char>,
) -> BackupConfigView {
    BackupConfigView {
        destination_path: Option::Some(
            s3_destination_view(backup_bucket, effective_write_path_view(wp, ns)),
        ),
        encryption: Option::Some("AES256"@),
        retention_policy: Option::Some("30"@),
        schedule: Option::Some(cron_of(ns)),
        s3_credentials: Option::Some(
            S3CredentialsView {
                inherit_from_iam_role: Option::Some(true),
                access_key_id: Option::None,
                secret_access_key: Option::None,
            },
        ),
        endpoint_url: Option::None,
        volume_snapshot: Option::Some(VolumeSnapshot { enabled: false }),
    }
}

/// The spec after the cloud-stack mutation: the derived backup block, a
/// service-account annotation bearing the role, and optionally the
/// dedicated-networking flag forced public.
pub open spec fn cloud_stack_applied(
    s: CoreDbSpecView,
    role_arn: Seq<char>,
    backup_bucket: Seq<char>,
    wp: Option<Seq<char>>,
    ns: Seq<char>,
    loadbalancer_public: bool,
) -> CoreDbSpecView {
    let mutated = CoreDbSpecView {
        backup: Option::Some(cloud_stack_backup_view(backup_bucket, wp, ns)),
        service_account_annotations: seq![
            AnnotationView { key: role_arn_annotation_key(), value: role_arn },
        ],
        ..s
    };
    if loadbalancer_public && s.dedicated_networking is Some {
        CoreDbSpecView {
            dedicated_networking: Option::Some(DedicatedNetworking { public: true }),
            ..mutated
        }
    } else {
        mutated
    }
}

/// Applies the cloud-stack mutation to a desired spec, given the role the
/// provisioning stack resolved to.
pub fn with_cloud_stack_backup(
    spec: CoreDbSpec,
    role_arn: String,
    backup_bucket: &str,
    write_path: &Option<String>,
    namespace: &str,
    loadbalancer_public: bool,
) -> (r: CoreDbSpec)
    ensures
        r@ == cloud_stack_applied(
            spec@,
            role_arn@,
            backup_bucket@,
            write_path.deep_view(),
            namespace@,
            loadbalancer_public,
        ),
{
    let ghost old_spec = spec@;
    let CoreDbSpec {
        stack_name,
        backup: _,
        service_account_annotations: _,
        dedicated_networking,
        runtime_config,
    } = spec;
    let path = effective_write_path(write_path, namespace);
    let backup = BackupConfig {
        destination_path: Option::Some(s3_destination(backup_bucket, path.as_str())),
        encryption: Option::Some(String::from_str("AES256")),
        retention_policy: Option::Some(String::from_str("30")),
        schedule: Option::Some(generate_cron_expression(namespace)),
        s3_credentials: Option::Some(
            S3Credentials {
                inherit_from_iam_role: Option::Some(true),
                access_key_id: Option::None,
                secret_access_key: Option::None,
            },
        ),
        endpoint_url: Option::None,
        volume_snapshot: Option::Some(VolumeSnapshot { enabled: false }),
    };
    let mut annotations: Vec<Annotation> = Vec::new();
    annotations.push(
        Annotation { key: String::from_str("eks.amazonaws.com/role-arn"), value: role_arn },
    );
    let new_networking = match dedicated_networking {
        Option::Some(d) => {
            if loadbalancer_public {
                Option::Some(DedicatedNetworking { public: true })
            } else {
                Option::Some(d)
            }
        },
        Option::None => Option::None,
    };
    let r = CoreDbSpec {
        stack_name,
        backup: Option::Some(backup),
        service_account_annotations: annotations,
        dedicated_networking: new_networking,
        runtime_config,
    };
    proof {
        assert(r.service_account_annotations.deep_view() =~= cloud_stack_applied(
            old_spec,
            role_arn@,
            backup_bucket@,
            write_path.deep_view(),
            namespace@,
            loadbalancer_public,
        ).service_account_annotations);
        assert(r@ =~= cloud_stack_applied(
            old_spec,
            role_arn@,
            backup_bucket@,
            write_path.deep_view(),
            namespace@,
            loadbalancer_public,
        ));
    }
    r
}

// --- Custom object-store backup configuration --------------------------------

/// The name of the namespace-local secret that carries the custom
/// object-store credentials.
pub open spec fn custom_s3_secret_name() -> Seq<char> {
    "custom-s3-creds"@
}

/// The backup block attached in custom object-store mode: custom-bucket
/// destination, empty encryption field, default retention of 30, the derived
/// cron schedule, the custom endpoint, and key references into the
/// namespace-local credentials secret.
pub open spec fn custom_s3_backup_view(
    c: CustomS3ConfigView,
    wp: Option<Seq<char>>,
    ns: Seq<char>,
) -> BackupConfigView {
    BackupConfigView {
        destination_path: Option::Some(
            s3_destination_view(c.bucket, effective_write_path_view(wp, ns)),
        ),
        encryption: Option::Some(Seq::empty()),
        retention_policy: Option::Some("30"@),
        schedule: Option::Some(cron_of(ns)),
        s3_credentials: Option::Some(
            S3CredentialsView {
                inherit_from_iam_role: Option::Some(false),
                access_key_id: Option::Some(
                    SecretKeyRefView { key: "ACCESS_KEY_ID"@, name: custom_s3_secret_name() },
                ),
                secret_access_key: Option::Some(
                    SecretKeyRefView { key: "SECRET_ACCESS_KEY"@, name: custom_s3_secret_name() },
                ),
            },
        ),
        endpoint_url: Option::Some(c.endpoint),
        volume_snapshot: Option::Some(VolumeSnapshot { enabled: false }),
    }
}

/// The spec after the custom object-store mutation: only the backup block is
/// replaced.
pub open spec fn custom_s3_applied(
    s: CoreDbSpecView,
    c: CustomS3ConfigView,
    wp: Option<Seq<char>>,
    ns: Seq<char>,
) -> CoreDbSpecView {
    CoreDbSpecView { backup: Option::Some(custom_s3_backup_view(c, wp, ns)), ..s }
}

/// Applies the custom object-store mutation to a desired spec. The
/// credentials secret itself is written by the driver; the spec only
/// references it by name and key.
pub fn with_custom_s3_backup(
    spec: CoreDbSpec,
    custom: &CustomS3Config,
    write_path: &Option<String>,
    namespace: &str,
) -> (r: CoreDbSpec)
    ensures
        r@ == custom_s3_applied(spec@, custom@, write_path.deep_view(), namespace@),
{
    let ghost old_spec = spec@;
    let CoreDbSpec {
        stack_name,
        backup: _,
        service_account_annotations,
        dedicated_networking,
        runtime_config,
    } = spec;
    let path = effective_write_path(write_path, namespace);
    let encryption = String::new();
    let backup = BackupConfig {
        destination_path: Option::Some(s3_destination(custom.bucket.as_str(), path.as_str())),
        encryption: Option::Some(encryption),
        retention_policy: Option::Some(String::from_str("30")),
        schedule: Option::Some(generate_cron_expression(namespace)),
        s3_credentials: Option::Some(
            S3Credentials {
                inherit_from_iam_role: Option::Some(false),
                access_key_id: Option::Some(
                    SecretKeyRef {
                        key: String::from_str("ACCESS_KEY_ID"),
                        name: String::from_str("custom-s3-creds"),
                    },
                ),
                secret_access_key: Option::Some(
                    SecretKeyRef {
                        key: String::from_str("SECRET_ACCESS_KEY"),
                        name: String::from_str("custom-s3-creds"),
                    },
                ),
            },
        ),
        endpoint_url: Option::Some(custom.endpoint.clone()),
        volume_snapshot: Option::Some(VolumeSnapshot { enabled: false }),
    };
    let r = CoreDbSpec {
        stack_name,
        backup: Option::Some(backup),
        service_account_annotations,
        dedicated_networking,
        runtime_config,
    };
    proof {
        assert(r@ =~= custom_s3_applied(old_spec, custom@, write_path.deep_view(), namespace@));
    }
    r
}

// --- Storage-configuration merge ----------------------------------------------

/// The runtime-configuration entry name owned by the storage merge.
pub open spec fn storage_entry_name() -> Seq<char> {
    "tembo.storage_bucket_and_path"@
}

/// True when some entry of `cfgs` is named `name`.
pub open spec fn has_config_named(cfgs: Seq<PgConfigView>, name: Seq<char>) -> bool {
    exists|i: int| 0 <= i < cfgs.len() && cfgs[i].name == name
}

/// The storage entry for a given bucket and write path.
pub open spec fn storage_entry_view(bucket: Seq<char>, wp: Seq<char>) -> PgConfigView {
    PgConfigView { name: storage_entry_name(), value: bucket + "/"@ + wp }
}

/// The spec after the storage-configuration merge: when a write path is
/// present, a single `tembo.storage_bucket_and_path` entry is appended,
/// unless an entry of that name is already there — a pre-existing entry
/// wins.
pub open spec fn storage_merged(
    s: CoreDbSpecView,
    bucket: Seq<char>,
    wp: Option<Seq<char>>,
) -> CoreDbSpecView {
    match wp {
        Option::None => s,
        Option::Some(p) => {
            let current = match s.runtime_config {
                Option::Some(c) => c,
                Option::None => Seq::empty(),
            };
            if has_config_named(current, storage_entry_name()) {
                s
            } else {
                CoreDbSpecView {
                    runtime_config: Option::Some(current.push(storage_entry_view(bucket, p))),
                    ..s
                }
            }
        },
    }
}

/// Merges the storage-configuration entry into a desired spec, keyed by
/// entry name: a pre-existing entry wins.
pub fn include_storage_configuration(
    spec: CoreDbSpec,
    storage_bucket: &str,
    write_path: &Option<String>,
) -> (r: CoreDbSpec)
    ensures
        r@ == storage_merged(spec@, storage_bucket@, write_path.deep_view()),
{
    let ghost old_spec = spec@;
    match write_path {
        Option::None => spec,
        Option::Some(wp) => {
            let CoreDbSpec {
                stack_name,
                backup,
                service_account_annotations,
                dedicated_networking,
                runtime_config,
            } = spec;
            let mut current: Vec<PgConfig> = match runtime_config {
                Option::Some(c) => c,
                Option::None => Vec::new(),
            };
            let ghost current0 = current.deep_view();
            proof {
                if old_spec.runtime_config is None {
                    assert(current0 =~= Seq::<PgConfigView>::empty());
                }
            }
            let needle = String::from_str("tembo.storage_bucket_and_path");
            let mut contains = false;
            let mut i: usize = 0;
            while i < current.len()
                invariant
                    i <= current.len(),
                    current.deep_view() == current0,
                    needle@ == storage_entry_name(),
                    contains == has_config_named(
                        current0.subrange(0, i as int),
                        storage_entry_name(),
                    ),
                decreases current.len() - i,
            {
                if current[i].name == needle {
                    contains = true;
                    proof {
                        let pre = current0.subrange(0, i as int + 1);
                        assert(pre[i as int].name == storage_entry_name());
                        assert(has_config_named(pre, storage_entry_name()));
                    }
                } else {
                    proof {
                        let pre = current0.subrange(0, i as int + 1);
                        assert forall|j: int|
                            0 <= j < pre.len() && pre[j].name
                                == storage_entry_name() implies has_config_named(
                            current0.subrange(0, i as int),
                            storage_entry_name(),
                        ) by {
                            if j < i {
                                assert(current0.subrange(0, i as int)[j].name
                                    == storage_entry_name());
                            }
                        }
                    }
                }
                i = i + 1;
            }
            proof {
                assert(current0.subrange(0, current0.len() as int) =~= current0);
            }
            if contains {
                let r = CoreDbSpec {
                    stack_name,
                    backup,
                    service_account_annotations,
                    dedicated_networking,
                    runtime_config: Option::Some(current),
                };
                proof {
                    assert(r@ =~= storage_merged(
                        old_spec,
                        storage_bucket@,
                        write_path.deep_view(),
                    ));
                }
                r
            } else {
                let mut value = String::from_str(storage_bucket);
                value.append("/");
                value.append(wp.as_str());
                current.push(PgConfig { name: needle, value });
                let r = CoreDbSpec {
                    stack_name,
                    backup,
                    service_account_annotations,
                    dedicated_networking,
                    runtime_config: Option::Some(current),
                };
                proof {
                    assert(r.runtime_config.deep_view() is Some);
                    assert(r.runtime_config.deep_view().unwrap() =~= current0.push(
                        storage_entry_view(storage_bucket@, wp@),
                    ));
                    assert(r@ =~= storage_merged(
                        old_spec,
                        storage_bucket@,
                        write_path.deep_view(),
                    ));
                }
                r
            }
        },
    }
}

// --- The canonical desired resource -------------------------------------------

/// The stack type recorded on the desired resource: the spec's stack name,
/// or `NA` when none was given.
pub open spec fn stack_type_view(stack_name: Option<Seq<char>>) -> Seq<char> {
    match stack_name {
        Option::Some(n) => n,
        Option::None => "NA"@,
    }
}

/// Executable twin of [`stack_type_view`].
pub fn stack_type_of(stack_name: &Option<String>) -> (r: String)
    ensures
        r@ == stack_type_view(stack_name.deep_view()),
{
    match stack_name {
        Option::Some(n) => n.clone(),
        Option::None => String::from_str("NA"),
    }
}

/// Mathematical model of the canonical desired resource.
pub struct DesiredResourceView {
    pub namespace: Seq<char>,
    pub org_id: Seq<char>,
    pub inst_id: Seq<char>,
    pub data_plane_id: Seq<char>,
    pub stack_type: Seq<char>,
    pub storage_class_name: Seq<char>,
    pub spec: CoreDbSpecView,
}

/// The canonical desired resource handed to the cluster: the fully derived
/// spec together with the identity and scheduling metadata recorded on it.
#[derive(Clone, Debug, PartialEq)]
pub struct DesiredResource {
    pub namespace: String,
    pub org_id: String,
    pub inst_id: String,
    pub data_plane_id: String,
    pub stack_type: String,
    pub storage_class_name: String,
    pub spec: CoreDbSpec,
}

impl View for DesiredResource {
    type V = DesiredResourceView;

    open spec fn view(&self) -> DesiredResourceView {
        DesiredResourceView {
            namespace: self.namespace@,
            org_id: self.org_id@,
            inst_id: self.inst_id@,
            data_plane_id: self.data_plane_id@,
            stack_type: self.stack_type@,
            storage_class_name: self.storage_class_name@,
            spec: self.spec@,
        }
    }
}

impl DeepView for DesiredResource {
    type V = DesiredResourceView;

    open spec fn deep_view(&self) -> DesiredResourceView {
        self.view()
    }
}

/// Applying the storage-configuration merge twice yields the same spec as
/// applying it once: the first application leaves an entry under the storage
/// name, and a pre-existing entry wins on the second.
pub proof fn lemma_storage_merge_idempotent(
    s: CoreDbSpecView,
    bucket: Seq<char>,
    wp: Option<Seq<char>>,
)
    ensures
        storage_merged(storage_merged(s, bucket, wp), bucket, wp) == storage_merged(s, bucket, wp),
{
    match wp {
        Option::None => {},
        Option::Some(p) => {
            let current = match s.runtime_config {
                Option::Some(c) => c,
                Option::None => Seq::empty(),
            };
            if has_config_named(current, storage_entry_name()) {
            } else {
                let once = storage_merged(s, bucket, wp);
                let appended = current.push(storage_entry_view(bucket, p));
                assert(appended[current.len() as int].name == storage_entry_name());
                assert(has_config_named(appended, storage_entry_name()));
            }
        },
    }
}

} // verus!

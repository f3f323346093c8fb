//! The per-message reconciliation state machine. Each dequeued envelope is
//! handled by a `Machine` that alternates between requesting one outside
//! effect (a queue, cluster, cloud or store interaction, performed by a thin
//! driver) and deciding, from the observed outcome, the next effect or the
//! final disposition of the message: archive, requeue with a fixed
//! visibility timeout, publish a terminal report, or leave the message to
//! redelivery.
//!
//! Every decision is specified by a mathematical model (`spec_start` /
//! `spec_step`): the executable machine returns exactly what the model says,
//! for every state and every observation.

use vstd::prelude::*;

use crate::builder::DesiredResource;
use crate::builder::DesiredResourceView;
use crate::builder::cloud_stack_applied;
use crate::builder::custom_s3_applied;
use crate::builder::custom_s3_secret_name;
use crate::builder::include_storage_configuration;
use crate::builder::stack_type_of;
use crate::builder::stack_type_view;
use crate::builder::storage_merged;
use crate::builder::with_cloud_stack_backup;
use crate::builder::with_custom_s3_backup;
use crate::config::BackupTarget;
use crate::config::BackupTargetView;
use crate::config::Config;
use crate::config::ConfigView;
use crate::coredb::CoreDbSpec;
use crate::coredb::CoreDbSpecView;
use crate::events::ConnectionInfo;
use crate::events::ConnectionInfoView;
use crate::events::CrudEvent;
use crate::events::Envelope;
use crate::events::EnvelopeView;
use crate::events::Event;
use crate::events::InstanceStatus;
use crate::events::StateReport;
use crate::events::StateReportView;

verus! {

/// Visibility timeout, in seconds, for an expected transient condition that
/// should be re-checked soon.
pub const REQUEUE_VT_SEC_SHORT: i32 = 5;

/// Visibility timeout, in seconds, for an unexpected transient failure that
/// should be retried after a while.
pub const REQUEUE_VT_SEC_LONG: i32 = 300;

/// Visibility timeout, in seconds, after an incomplete instance deletion.
pub const REQUEUE_DELETE_VT_SEC: i32 = 60;

/// Why a message was requeued.
#[derive(Clone, Copy, Debug, PartialEq, Eq, Structural)]
pub enum RequeueKind {
    /// An expected transient condition: check again shortly.
    Short,
    /// An unexpected transient failure: retry after a while.
    Long,
    /// An instance deletion that has not completed yet.
    Deletion,
}

/// How one handled delivery changes the agent's counters. Every field is a
/// zero-or-one increment.
#[derive(Clone, Copy, Debug, PartialEq, Eq, Structural)]
pub struct MetricsDelta {
    /// The delivery passed the tombstone gate and was looked at.
    pub total: bool,
    /// The delivery ended in an error condition.
    pub errors: bool,
    /// The delivery was requeued with the short timeout.
    pub requeues_short: bool,
    /// The delivery was requeued with the long timeout.
    pub requeues_long: bool,
    /// The delivery was handled to completion.
    pub completed: bool,
}

/// Where the machine stands within one message's handling: which requested
/// effect it is waiting on.
#[derive(Clone, Copy, Debug, PartialEq, Eq, Structural)]
pub enum Phase {
    AwaitTombstone,
    AwaitStack,
    AwaitNamespace,
    AwaitSecret,
    AwaitApply,
    AwaitConnection,
    AwaitState,
    AwaitStackTeardown,
    AwaitDeletion,
    AwaitDeletionStackTeardown,
    AwaitTombstoneWrite,
    AwaitRestart,
    AwaitRestartState,
    AwaitRestartConnection,
    Done,
}

/// Mathematical model of an effect request.
pub enum EffectRequestView {
    QueryTombstone { namespace: Seq<char> },
    EnsureCloudStack {
        namespace: Seq<char>,
        read_path: Option<Seq<char>>,
        write_path: Option<Seq<char>>,
        backup_bucket: Seq<char>,
        storage_bucket: Seq<char>,
    },
    CreateNamespace { namespace: Seq<char>, org_id: Seq<char>, inst_id: Seq<char> },
    UpsertSecret {
        namespace: Seq<char>,
        name: Seq<char>,
        access_key_id: Seq<char>,
        secret_access_key: Seq<char>,
    },
    ApplyResource { resource: DesiredResourceView },
    FetchConnection { namespace: Seq<char> },
    FetchState { namespace: Seq<char> },
    FetchStateLenient { namespace: Seq<char> },
    DeleteCloudStack { namespace: Seq<char> },
    DeleteInstance { namespace: Seq<char> },
    RestartInstance { namespace: Seq<char>, enqueued_at: int },
    MarkDeleted { namespace: Seq<char> },
}

/// One outside interaction the driver must perform on the machine's behalf.
/// The outcome comes back as an [`Observation`].
#[derive(Clone, Debug, PartialEq)]
pub enum EffectRequest {
    /// Ask the tombstone store whether this namespace was deleted.
    QueryTombstone { namespace: String },
    /// Create the provisioning stack if needed and resolve its role.
    EnsureCloudStack {
        namespace: String,
        read_path: Option<String>,
        write_path: Option<String>,
        backup_bucket: String,
        storage_bucket: String,
    },
    /// Create the instance's namespace, labelled with its identity.
    CreateNamespace { namespace: String, org_id: String, inst_id: String },
    /// Create or replace the namespace-local credentials secret.
    UpsertSecret {
        namespace: String,
        name: String,
        access_key_id: String,
        secret_access_key: String,
    },
    /// Server-side upsert of the canonical desired resource.
    ApplyResource { resource: DesiredResource },
    /// Extract connection information from the managed secret.
    FetchConnection { namespace: String },
    /// Read the instance's current spec and status.
    FetchState { namespace: String },
    /// Read the instance's current spec, tolerating a missing status.
    FetchStateLenient { namespace: String },
    /// Tear down the provisioning stack.
    DeleteCloudStack { namespace: String },
    /// Delete the custom resource and its namespace.
    DeleteInstance { namespace: String },
    /// Annotate the custom resource with a restart token derived from the
    /// original submission time.
    RestartInstance { namespace: String, enqueued_at: i64 },
    /// Record the namespace in the deleted-instances set.
    MarkDeleted { namespace: String },
}

impl View for EffectRequest {
    type V = EffectRequestView;

    open spec fn view(&self) -> EffectRequestView {
        match self {
            EffectRequest::QueryTombstone { namespace } => EffectRequestView::QueryTombstone {
                namespace: namespace@,
            },
            EffectRequest::EnsureCloudStack {
                namespace,
                read_path,
                write_path,
                backup_bucket,
                storage_bucket,
            } => EffectRequestView::EnsureCloudStack {
                namespace: namespace@,
                read_path: read_path.deep_view(),
                write_path: write_path.deep_view(),
                backup_bucket: backup_bucket@,
                storage_bucket: storage_bucket@,
            },
            EffectRequest::CreateNamespace { namespace, org_id, inst_id } => {
                EffectRequestView::CreateNamespace {
                    namespace: namespace@,
                    org_id: org_id@,
                    inst_id: inst_id@,
                }
            },
            EffectRequest::UpsertSecret { namespace, name, access_key_id, secret_access_key } => {
                EffectRequestView::UpsertSecret {
                    namespace: namespace@,
                    name: name@,
                    access_key_id: access_key_id@,
                    secret_access_key: secret_access_key@,
                }
            },
            EffectRequest::ApplyResource { resource } => EffectRequestView::ApplyResource {
                resource: resource@,
            },
            EffectRequest::FetchConnection { namespace } => EffectRequestView::FetchConnection {
                namespace: namespace@,
            },
            EffectRequest::FetchState { namespace } => EffectRequestView::FetchState {
                namespace: namespace@,
            },
            EffectRequest::FetchStateLenient { namespace } => EffectRequestView::FetchStateLenient {
                namespace: namespace@,
            },
            EffectRequest::DeleteCloudStack { namespace } => EffectRequestView::DeleteCloudStack {
                namespace: namespace@,
            },
            EffectRequest::DeleteInstance { namespace } => EffectRequestView::DeleteInstance {
                namespace: namespace@,
            },
            EffectRequest::RestartInstance { namespace, enqueued_at } => {
                EffectRequestView::RestartInstance {
                    namespace: namespace@,
                    enqueued_at: *enqueued_at as int,
                }
            },
            EffectRequest::MarkDeleted { namespace } => EffectRequestView::MarkDeleted {
                namespace: namespace@,
            },
        }
    }
}

/// Mathematical model of an observation.
pub enum ObservationView {
    TombstonePresent,
    TombstoneAbsent,
    TombstoneUnknown,
    StackReady { role_arn: Seq<char> },
    StackPending,
    StackFailed,
    Completed,
    Failed,
    Connection { info: ConnectionInfoView },
    ConnectionPending,
    ConnectionFailed,
    Observed { spec: CoreDbSpecView, status: Option<InstanceStatus> },
    DeleteProgress { complete: bool },
}

/// The observed outcome of a requested effect, fed back into the machine.
#[derive(Clone, Debug, PartialEq)]
pub enum Observation {
    /// The namespace is recorded as deleted.
    TombstonePresent,
    /// The namespace is not recorded as deleted.
    TombstoneAbsent,
    /// The tombstone store could not be read.
    TombstoneUnknown,
    /// The provisioning stack's outputs resolved to this role.
    StackReady { role_arn: String },
    /// The stack exists but its outputs are not available yet — a normal
    /// transient state.
    StackPending,
    /// The provisioning call failed.
    StackFailed,
    /// The requested effect succeeded.
    Completed,
    /// The requested effect failed.
    Failed,
    /// Connection information was extracted from the managed secret.
    Connection { info: ConnectionInfo },
    /// The managed secret is not ready yet — a normal transient state.
    ConnectionPending,
    /// Extracting connection information failed.
    ConnectionFailed,
    /// The instance's current spec and status.
    Observed { spec: CoreDbSpec, status: Option<InstanceStatus> },
    /// Whether the instance deletion has fully completed.
    DeleteProgress { complete: bool },
}

impl View for Observation {
    type V = ObservationView;

    open spec fn view(&self) -> ObservationView {
        match self {
            Observation::TombstonePresent => ObservationView::TombstonePresent,
            Observation::TombstoneAbsent => ObservationView::TombstoneAbsent,
            Observation::TombstoneUnknown => ObservationView::TombstoneUnknown,
            Observation::StackReady { role_arn } => ObservationView::StackReady {
                role_arn: role_arn@,
            },
            Observation::StackPending => ObservationView::StackPending,
            Observation::StackFailed => ObservationView::StackFailed,
            Observation::Completed => ObservationView::Completed,
            Observation::Failed => ObservationView::Failed,
            Observation::Connection { info } => ObservationView::Connection { info: info@ },
            Observation::ConnectionPending => ObservationView::ConnectionPending,
            Observation::ConnectionFailed => ObservationView::ConnectionFailed,
            Observation::Observed { spec, status } => ObservationView::Observed {
                spec: spec@,
                status: *status,
            },
            Observation::DeleteProgress { complete } => ObservationView::DeleteProgress {
                complete: *complete,
            },
        }
    }
}

/// Mathematical model of a disposition.
pub enum DispositionView {
    Requeue { vt_seconds: int, kind: RequeueKind },
    ArchiveSilent,
    ArchiveFailed { report: Option<StateReportView> },
    Publish { report: StateReportView },
    LeaveInFlight,
    SkipMessage,
    FailWorker,
}

/// The final fate of one delivery, carried by the machine's last action.
#[derive(Clone, Debug, PartialEq)]
pub enum Disposition {
    /// Reset the message's visibility timeout to `vt_seconds`.
    Requeue { vt_seconds: i32, kind: RequeueKind },
    /// Archive the message with no outbound report (a tombstoned replay).
    ArchiveSilent,
    /// Archive the message as failed, reporting back when identity is known.
    ArchiveFailed { report: Option<StateReport> },
    /// Send the terminal report, then archive the message.
    Publish { report: StateReport },
    /// Leave the message in flight for operator triage; redelivery will age
    /// it out eventually.
    LeaveInFlight,
    /// Leave the message alone and continue with the next one (the tombstone
    /// store could not be read).
    SkipMessage,
    /// Abort this worker pass; the message stays in flight and the
    /// supervisor counts the error.
    FailWorker,
}

impl View for Disposition {
    type V = DispositionView;

    open spec fn view(&self) -> DispositionView {
        match self {
            Disposition::Requeue { vt_seconds, kind } => DispositionView::Requeue {
                vt_seconds: *vt_seconds as int,
                kind: *kind,
            },
            Disposition::ArchiveSilent => DispositionView::ArchiveSilent,
            Disposition::ArchiveFailed { report } => DispositionView::ArchiveFailed {
                report: report.deep_view(),
            },
            Disposition::Publish { report } => DispositionView::Publish { report: report@ },
            Disposition::LeaveInFlight => DispositionView::LeaveInFlight,
            Disposition::SkipMessage => DispositionView::SkipMessage,
            Disposition::FailWorker => DispositionView::FailWorker,
        }
    }
}

/// Mathematical model of an action.
pub enum ActionView {
    Perform(EffectRequestView),
    Finish { disposition: DispositionView, metrics: MetricsDelta },
}

/// What the driver must do next: perform one effect and feed the outcome
/// back, or finish the message with the given disposition and counter
/// increments.
#[derive(Clone, Debug, PartialEq)]
pub enum Action {
    /// Perform this effect and call `step` with the observed outcome.
    Perform(EffectRequest),
    /// The message's handling is over: apply the disposition and counters.
    Finish { disposition: Disposition, metrics: MetricsDelta },
}

impl View for Action {
    type V = ActionView;

    open spec fn view(&self) -> ActionView {
        match self {
            Action::Perform(e) => ActionView::Perform(e@),
            Action::Finish { disposition, metrics } => ActionView::Finish {
                disposition: disposition@,
                metrics: *metrics,
            },
        }
    }
}

/// Mathematical model of the machine.
pub struct MachineView {
    pub cfg: ConfigView,
    pub msg_id: int,
    pub read_ct: int,
    pub enqueued_at: int,
    pub event_type: Event,
    pub org_id: Seq<char>,
    pub inst_id: Seq<char>,
    pub data_plane_id: Seq<char>,
    pub namespace: Seq<char>,
    pub read_path: Option<Seq<char>>,
    pub write_path: Option<Seq<char>>,
    pub work_spec: Option<CoreDbSpecView>,
    pub phase: Phase,
    pub conn: Option<ConnectionInfoView>,
    pub observed_spec: Option<CoreDbSpecView>,
    pub observed_status: Option<InstanceStatus>,
}

/// The state machine for one dequeued message: the configuration, the
/// envelope's identity and payload, the phase, and the working data
/// accumulated along the way.
#[derive(Clone, Debug, PartialEq)]
pub struct Machine {
    pub cfg: Config,
    pub msg_id: i64,
    pub read_ct: i32,
    pub enqueued_at: i64,
    pub event_type: Event,
    pub org_id: String,
    pub inst_id: String,
    pub data_plane_id: String,
    pub namespace: String,
    pub read_path: Option<String>,
    pub write_path: Option<String>,
    pub work_spec: Option<CoreDbSpec>,
    pub phase: Phase,
    pub conn: Option<ConnectionInfo>,
    pub observed_spec: Option<CoreDbSpec>,
    pub observed_status: Option<InstanceStatus>,
}

impl View for Machine {
    type V = MachineView;

    open spec fn view(&self) -> MachineView {
        MachineView {
            cfg: self.cfg@,
            msg_id: self.msg_id as int,
            read_ct: self.read_ct as int,
            enqueued_at: self.enqueued_at as int,
            event_type: self.event_type,
            org_id: self.org_id@,
            inst_id: self.inst_id@,
            data_plane_id: self.data_plane_id@,
            namespace: self.namespace@,
            read_path: self.read_path.deep_view(),
            write_path: self.write_path.deep_view(),
            work_spec: self.work_spec.deep_view(),
            phase: self.phase,
            conn: self.conn.deep_view(),
            observed_spec: self.observed_spec.deep_view(),
            observed_status: self.observed_status,
        }
    }
}

// --- The model ---------------------------------------------------------------

/// The machine state for a freshly dequeued envelope.
pub open spec fn machine_view_of(cfg: ConfigView, env: EnvelopeView, phase: Phase) -> MachineView {
    MachineView {
        cfg,
        msg_id: env.msg_id,
        read_ct: env.read_ct,
        enqueued_at: env.enqueued_at,
        event_type: env.message.event_type,
        org_id: env.message.org_id,
        inst_id: env.message.inst_id,
        data_plane_id: env.message.data_plane_id,
        namespace: env.message.namespace,
        read_path: env.message.backups_read_path,
        write_path: env.message.backups_write_path,
        work_spec: env.message.spec,
        phase,
        conn: Option::None,
        observed_spec: Option::None,
        observed_status: Option::None,
    }
}

/// The terminal state: the handler is finished and its working data is
/// dropped.
pub open spec fn settled(m: MachineView) -> MachineView {
    MachineView {
        phase: Phase::Done,
        work_spec: Option::None,
        conn: Option::None,
        observed_spec: Option::None,
        observed_status: Option::None,
        ..m
    }
}

/// An outbound report carrying the message's identity fields.
pub open spec fn report_view(
    m: MachineView,
    ev: Event,
    spec: Option<CoreDbSpecView>,
    status: Option<InstanceStatus>,
    conn: Option<ConnectionInfoView>,
) -> StateReportView {
    StateReportView {
        data_plane_id: m.data_plane_id,
        org_id: m.org_id,
        inst_id: m.inst_id,
        event_type: ev,
        spec,
        status,
        connection: conn,
    }
}

/// The identity-only `Error` report sent on age-out.
pub open spec fn error_report_view(m: MachineView) -> StateReportView {
    report_view(m, Event::Error, Option::None, Option::None, Option::None)
}

/// The terminal event reported for each inbound intent. Kinds that have no
/// terminal counterpart map to `Error`; the machine never publishes them.
pub open spec fn terminal_of(e: Event) -> Event {
    if e == Event::Create {
        Event::Created
    } else if e == Event::Update {
        Event::Updated
    } else if e == Event::Restore {
        Event::Restored
    } else if e == Event::Start {
        Event::Started
    } else if e == Event::Stop {
        Event::StopComplete
    } else if e == Event::Restart {
        Event::Restarted
    } else if e == Event::Delete {
        Event::Deleted
    } else {
        Event::Error
    }
}

/// An aborted handler pass: the message stays in flight and the error is
/// counted.
pub open spec fn fail_step(m: MachineView) -> (MachineView, ActionView) {
    (
        settled(m),
        ActionView::Finish {
            disposition: DispositionView::FailWorker,
            metrics: MetricsDelta {
                total: true,
                errors: true,
                requeues_short: false,
                requeues_long: false,
                completed: false,
            },
        },
    )
}

/// The transition into the apply phase: merge the storage configuration,
/// record the stack type, and hand the canonical desired resource to the
/// cluster.
pub open spec fn spec_enter_apply(m: MachineView) -> (MachineView, ActionView) {
    match m.work_spec {
        Option::Some(ws) => {
            let merged = storage_merged(ws, m.cfg.storage_archive_bucket, m.write_path);
            let resource = DesiredResourceView {
                namespace: m.namespace,
                org_id: m.org_id,
                inst_id: m.inst_id,
                data_plane_id: m.data_plane_id,
                stack_type: stack_type_view(ws.stack_name),
                storage_class_name: m.cfg.storage_class_name,
                spec: merged,
            };
            (
                MachineView { work_spec: Option::None, phase: Phase::AwaitApply, ..m },
                ActionView::Perform(EffectRequestView::ApplyResource { resource }),
            )
        },
        Option::None => fail_step(m),
    }
}

/// The decisions taken after the tombstone gate: age out a message that has
/// been delivered too often, reject a provisioning event without a spec,
/// and otherwise dispatch on the event type.
pub open spec fn spec_after_gate(m: MachineView) -> (MachineView, ActionView) {
    if m.read_ct >= m.cfg.max_read_ct {
        (
            settled(m),
            ActionView::Finish {
                disposition: DispositionView::ArchiveFailed {
                    report: Option::Some(error_report_view(m)),
                },
                metrics: MetricsDelta {
                    total: true,
                    errors: true,
                    requeues_short: false,
                    requeues_long: false,
                    completed: false,
                },
            },
        )
    } else if m.event_type.spec_is_provisioning() {
        match m.work_spec {
            Option::None => (
                settled(m),
                ActionView::Finish {
                    disposition: DispositionView::ArchiveFailed { report: Option::None },
                    metrics: MetricsDelta {
                        total: true,
                        errors: true,
                        requeues_short: false,
                        requeues_long: false,
                        completed: false,
                    },
                },
            ),
            Option::Some(_) => match m.cfg.backup_target {
                BackupTargetView::CloudStack(cs) => (
                    MachineView { phase: Phase::AwaitStack, ..m },
                    ActionView::Perform(
                        EffectRequestView::EnsureCloudStack {
                            namespace: m.namespace,
                            read_path: m.read_path,
                            write_path: m.write_path,
                            backup_bucket: cs.backup_archive_bucket,
                            storage_bucket: m.cfg.storage_archive_bucket,
                        },
                    ),
                ),
                _ => (
                    MachineView { phase: Phase::AwaitNamespace, ..m },
                    ActionView::Perform(
                        EffectRequestView::CreateNamespace {
                            namespace: m.namespace,
                            org_id: m.org_id,
                            inst_id: m.inst_id,
                        },
                    ),
                ),
            },
        }
    } else if m.event_type == Event::Delete {
        (
            MachineView { phase: Phase::AwaitDeletion, ..m },
            ActionView::Perform(EffectRequestView::DeleteInstance { namespace: m.namespace }),
        )
    } else if m.event_type == Event::Restart {
        (
            MachineView { phase: Phase::AwaitRestart, ..m },
            ActionView::Perform(
                EffectRequestView::RestartInstance {
                    namespace: m.namespace,
                    enqueued_at: m.enqueued_at,
                },
            ),
        )
    } else {
        (
            settled(m),
            ActionView::Finish {
                disposition: DispositionView::LeaveInFlight,
                metrics: MetricsDelta {
                    total: true,
                    errors: true,
                    requeues_short: false,
                    requeues_long: false,
                    completed: false,
                },
            },
        )
    }
}

/// The first decision for a freshly dequeued envelope: every event type but
/// `Delete` must pass the tombstone gate first.
pub open spec fn spec_start(cfg: ConfigView, env: EnvelopeView) -> (MachineView, ActionView) {
    let m = machine_view_of(cfg, env, Phase::AwaitTombstone);
    if env.message.event_type != Event::Delete {
        (
            m,
            ActionView::Perform(
                EffectRequestView::QueryTombstone { namespace: env.message.namespace },
            ),
        )
    } else {
        spec_after_gate(m)
    }
}

/// A short requeue of an expected transient condition.
pub open spec fn requeue_short_step(m: MachineView) -> (MachineView, ActionView) {
    (
        settled(m),
        ActionView::Finish {
            disposition: DispositionView::Requeue {
                vt_seconds: REQUEUE_VT_SEC_SHORT as int,
                kind: RequeueKind::Short,
            },
            metrics: MetricsDelta {
                total: true,
                errors: false,
                requeues_short: true,
                requeues_long: false,
                completed: false,
            },
        },
    )
}

pub open spec fn spec_step_tombstone(m: MachineView, obs: ObservationView) -> (
    MachineView,
    ActionView,
) {
    match obs {
        ObservationView::TombstonePresent => (
            settled(m),
            ActionView::Finish {
                disposition: DispositionView::ArchiveSilent,
                metrics: MetricsDelta {
                    total: false,
                    errors: false,
                    requeues_short: false,
                    requeues_long: false,
                    completed: false,
                },
            },
        ),
        ObservationView::TombstoneAbsent => spec_after_gate(m),
        _ => (
            settled(m),
            ActionView::Finish {
                disposition: DispositionView::SkipMessage,
                metrics: MetricsDelta {
                    total: false,
                    errors: false,
                    requeues_short: false,
                    requeues_long: false,
                    completed: false,
                },
            },
        ),
    }
}

pub open spec fn spec_step_stack(m: MachineView, obs: ObservationView) -> (
    MachineView,
    ActionView,
) {
    match obs {
        ObservationView::StackReady { role_arn } => match (m.work_spec, m.cfg.backup_target) {
            (Option::Some(ws), BackupTargetView::CloudStack(cs)) => {
                let mutated = cloud_stack_applied(
                    ws,
                    role_arn,
                    cs.backup_archive_bucket,
                    m.write_path,
                    m.namespace,
                    cs.loadbalancer_public,
                );
                (
                    MachineView {
                        work_spec: Option::Some(mutated),
                        phase: Phase::AwaitNamespace,
                        ..m
                    },
                    ActionView::Perform(
                        EffectRequestView::CreateNamespace {
                            namespace: m.namespace,
                            org_id: m.org_id,
                            inst_id: m.inst_id,
                        },
                    ),
                )
            },
            _ => fail_step(m),
        },
        ObservationView::StackPending => requeue_short_step(m),
        _ => (
            settled(m),
            ActionView::Finish {
                disposition: DispositionView::Requeue {
                    vt_seconds: REQUEUE_VT_SEC_LONG as int,
                    kind: RequeueKind::Long,
                },
                metrics: MetricsDelta {
                    total: true,
                    errors: false,
                    requeues_short: false,
                    requeues_long: true,
                    completed: false,
                },
            },
        ),
    }
}

pub open spec fn spec_step_namespace(m: MachineView, obs: ObservationView) -> (
    MachineView,
    ActionView,
) {
    match obs {
        ObservationView::Completed => match m.cfg.backup_target {
            BackupTargetView::CustomS3(c) => (
                MachineView { phase: Phase::AwaitSecret, ..m },
                ActionView::Perform(
                    EffectRequestView::UpsertSecret {
                        namespace: m.namespace,
                        name: custom_s3_secret_name(),
                        access_key_id: c.access_key_id,
                        secret_access_key: c.secret_access_key,
                    },
                ),
            ),
            _ => spec_enter_apply(m),
        },
        _ => fail_step(m),
    }
}

pub open spec fn spec_step_secret(m: MachineView, obs: ObservationView) -> (
    MachineView,
    ActionView,
) {
    match obs {
        ObservationView::Completed => match (m.work_spec, m.cfg.backup_target) {
            (Option::Some(ws), BackupTargetView::CustomS3(c)) => spec_enter_apply(
                MachineView {
                    work_spec: Option::Some(custom_s3_applied(ws, c, m.write_path, m.namespace)),
                    ..m
                },
            ),
            _ => fail_step(m),
        },
        _ => fail_step(m),
    }
}

pub open spec fn spec_step_apply(m: MachineView, obs: ObservationView) -> (
    MachineView,
    ActionView,
) {
    match obs {
        ObservationView::Completed => (
            MachineView { phase: Phase::AwaitConnection, ..m },
            ActionView::Perform(EffectRequestView::FetchConnection { namespace: m.namespace }),
        ),
        _ => fail_step(m),
    }
}

pub open spec fn spec_step_connection(m: MachineView, obs: ObservationView) -> (
    MachineView,
    ActionView,
) {
    match obs {
        ObservationView::Connection { info } => (
            MachineView { conn: Option::Some(info), phase: Phase::AwaitState, ..m },
            ActionView::Perform(EffectRequestView::FetchState { namespace: m.namespace }),
        ),
        ObservationView::ConnectionPending => requeue_short_step(m),
        _ => (
            settled(m),
            ActionView::Finish {
                disposition: DispositionView::Requeue {
                    vt_seconds: REQUEUE_VT_SEC_LONG as int,
                    kind: RequeueKind::Long,
                },
                metrics: MetricsDelta {
                    total: true,
                    errors: true,
                    requeues_short: false,
                    requeues_long: false,
                    completed: false,
                },
            },
        ),
    }
}

pub open spec fn spec_step_state(m: MachineView, obs: ObservationView) -> (
    MachineView,
    ActionView,
) {
    match obs {
        ObservationView::Observed { spec, status } => {
            if m.cfg.cloud_stack_enabled() && m.event_type == Event::Stop && status is Some {
                if status.unwrap().running {
                    requeue_short_step(m)
                } else {
                    (
                        MachineView {
                            observed_spec: Option::Some(spec),
                            observed_status: status,
                            phase: Phase::AwaitStackTeardown,
                            ..m
                        },
                        ActionView::Perform(
                            EffectRequestView::DeleteCloudStack { namespace: m.namespace },
                        ),
                    )
                }
            } else {
                (
                    settled(m),
                    ActionView::Finish {
                        disposition: DispositionView::Publish {
                            report: report_view(
                                m,
                                terminal_of(m.event_type),
                                Option::Some(spec),
                                status,
                                m.conn,
                            ),
                        },
                        metrics: MetricsDelta {
                            total: true,
                            errors: false,
                            requeues_short: false,
                            requeues_long: false,
                            completed: true,
                        },
                    },
                )
            }
        },
        _ => fail_step(m),
    }
}

pub open spec fn spec_step_stack_teardown(m: MachineView, obs: ObservationView) -> (
    MachineView,
    ActionView,
) {
    match obs {
        ObservationView::Completed => match m.observed_spec {
            Option::Some(os) => (
                settled(m),
                ActionView::Finish {
                    disposition: DispositionView::Publish {
                        report: report_view(
                            m,
                            terminal_of(m.event_type),
                            Option::Some(os),
                            m.observed_status,
                            m.conn,
                        ),
                    },
                    metrics: MetricsDelta {
                        total: true,
                        errors: false,
                        requeues_short: false,
                        requeues_long: false,
                        completed: true,
                    },
                },
            ),
            Option::None => fail_step(m),
        },
        _ => fail_step(m),
    }
}

pub open spec fn spec_step_deletion(m: MachineView, obs: ObservationView) -> (
    MachineView,
    ActionView,
) {
    match obs {
        ObservationView::DeleteProgress { complete } => {
            if !complete {
                (
                    settled(m),
                    ActionView::Finish {
                        disposition: DispositionView::Requeue {
                            vt_seconds: REQUEUE_DELETE_VT_SEC as int,
                            kind: RequeueKind::Deletion,
                        },
                        metrics: MetricsDelta {
                            total: true,
                            errors: false,
                            requeues_short: false,
                            requeues_long: false,
                            completed: false,
                        },
                    },
                )
            } else if m.cfg.cloud_stack_enabled() {
                (
                    MachineView { phase: Phase::AwaitDeletionStackTeardown, ..m },
                    ActionView::Perform(
                        EffectRequestView::DeleteCloudStack { namespace: m.namespace },
                    ),
                )
            } else {
                (
                    MachineView { phase: Phase::AwaitTombstoneWrite, ..m },
                    ActionView::Perform(EffectRequestView::MarkDeleted { namespace: m.namespace }),
                )
            }
        },
        _ => fail_step(m),
    }
}

pub open spec fn spec_step_deletion_teardown(m: MachineView, obs: ObservationView) -> (
    MachineView,
    ActionView,
) {
    match obs {
        ObservationView::Completed => (
            MachineView { phase: Phase::AwaitTombstoneWrite, ..m },
            ActionView::Perform(EffectRequestView::MarkDeleted { namespace: m.namespace }),
        ),
        _ => fail_step(m),
    }
}

/// The tombstone write is best-effort: whatever its outcome, the deletion is
/// reported and the message archived.
pub open spec fn spec_step_tombstone_write(m: MachineView, obs: ObservationView) -> (
    MachineView,
    ActionView,
) {
    (
        settled(m),
        ActionView::Finish {
            disposition: DispositionView::Publish {
                report: report_view(m, Event::Deleted, Option::None, Option::None, Option::None),
            },
            metrics: MetricsDelta {
                total: true,
                errors: false,
                requeues_short: false,
                requeues_long: false,
                completed: true,
            },
        },
    )
}

pub open spec fn spec_step_restart(m: MachineView, obs: ObservationView) -> (
    MachineView,
    ActionView,
) {
    match obs {
        ObservationView::Completed => (
            MachineView { phase: Phase::AwaitRestartState, ..m },
            ActionView::Perform(EffectRequestView::FetchStateLenient { namespace: m.namespace }),
        ),
        _ => requeue_short_step(m),
    }
}

pub open spec fn spec_step_restart_state(m: MachineView, obs: ObservationView) -> (
    MachineView,
    ActionView,
) {
    match obs {
        ObservationView::Observed { spec, status } => (
            MachineView {
                observed_spec: Option::Some(spec),
                observed_status: status,
                phase: Phase::AwaitRestartConnection,
                ..m
            },
            ActionView::Perform(EffectRequestView::FetchConnection { namespace: m.namespace }),
        ),
        _ => requeue_short_step(m),
    }
}

/// A restart tolerates a missing connection secret: the report goes out with
/// whatever was found.
pub open spec fn spec_step_restart_connection(m: MachineView, obs: ObservationView) -> (
    MachineView,
    ActionView,
) {
    match m.observed_spec {
        Option::Some(os) => {
            let conn = match obs {
                ObservationView::Connection { info } => Option::Some(info),
                _ => Option::None,
            };
            (
                settled(m),
                ActionView::Finish {
                    disposition: DispositionView::Publish {
                        report: report_view(
                            m,
                            Event::Restarted,
                            Option::Some(os),
                            m.observed_status,
                            conn,
                        ),
                    },
                    metrics: MetricsDelta {
                        total: true,
                        errors: false,
                        requeues_short: false,
                        requeues_long: false,
                        completed: true,
                    },
                },
            )
        },
        Option::None => fail_step(m),
    }
}

/// A finished machine acknowledges nothing further.
pub open spec fn spec_step_done(m: MachineView, obs: ObservationView) -> (
    MachineView,
    ActionView,
) {
    (
        m,
        ActionView::Finish {
            disposition: DispositionView::SkipMessage,
            metrics: MetricsDelta {
                total: false,
                errors: false,
                requeues_short: false,
                requeues_long: false,
                completed: false,
            },
        },
    )
}

/// The machine's transition relation: what the next state and action are,
/// for every phase and every observation.
pub open spec fn spec_step(m: MachineView, obs: ObservationView) -> (MachineView, ActionView) {
    match m.phase {
        Phase::AwaitTombstone => spec_step_tombstone(m, obs),
        Phase::AwaitStack => spec_step_stack(m, obs),
        Phase::AwaitNamespace => spec_step_namespace(m, obs),
        Phase::AwaitSecret => spec_step_secret(m, obs),
        Phase::AwaitApply => spec_step_apply(m, obs),
        Phase::AwaitConnection => spec_step_connection(m, obs),
        Phase::AwaitState => spec_step_state(m, obs),
        Phase::AwaitStackTeardown => spec_step_stack_teardown(m, obs),
        Phase::AwaitDeletion => spec_step_deletion(m, obs),
        Phase::AwaitDeletionStackTeardown => spec_step_deletion_teardown(m, obs),
        Phase::AwaitTombstoneWrite => spec_step_tombstone_write(m, obs),
        Phase::AwaitRestart => spec_step_restart(m, obs),
        Phase::AwaitRestartState => spec_step_restart_state(m, obs),
        Phase::AwaitRestartConnection => spec_step_restart_connection(m, obs),
        Phase::Done => spec_step_done(m, obs),
    }
}

// --- The executable machine ---------------------------------------------------

/// Executable twin of [`terminal_of`].
pub fn terminal_event(e: Event) -> (r: Event)
    ensures
        r == terminal_of(e),
{
    match e {
        Event::Create => Event::Created,
        Event::Update => Event::Updated,
        Event::Restore => Event::Restored,
        Event::Start => Event::Started,
        Event::Stop => Event::StopComplete,
        Event::Restart => Event::Restarted,
        Event::Delete => Event::Deleted,
        _ => Event::Error,
    }
}

/// Clones an optional string, preserving its contents.
fn clone_opt_string(s: &Option<String>) -> (r: Option<String>)
    ensures
        r.deep_view() == s.deep_view(),
{
    match s {
        Option::Some(x) => Option::Some(x.clone()),
        Option::None => Option::None,
    }
}

impl Machine {
    /// Drops the working data and marks the handler finished.
    fn settle(self) -> (m: Machine)
        ensures
            m@ == settled(self@),
    {
        Machine {
            phase: Phase::Done,
            work_spec: Option::None,
            conn: Option::None,
            observed_spec: Option::None,
            observed_status: Option::None,
            ..self
        }
    }

    /// Ends the handler with the given disposition and counter increments.
    fn finish(self, disposition: Disposition, metrics: MetricsDelta) -> (r: (Machine, Action))
        ensures
            r.0@ == settled(self@),
            r.1@ == (ActionView::Finish { disposition: disposition@, metrics }),
    {
        let m = self.settle();
        (m, Action::Finish { disposition, metrics })
    }

    /// Aborts the handler pass: the message stays in flight.
    fn fail(self) -> (r: (Machine, Action))
        ensures
            (r.0@, r.1@) == fail_step(self@),
    {
        self.finish(
            Disposition::FailWorker,
            MetricsDelta {
                total: true,
                errors: true,
                requeues_short: false,
                requeues_long: false,
                completed: false,
            },
        )
    }

    /// Requeues the message shortly, for an expected transient condition.
    fn requeue_short(self) -> (r: (Machine, Action))
        ensures
            (r.0@, r.1@) == requeue_short_step(self@),
    {
        self.finish(
            Disposition::Requeue { vt_seconds: REQUEUE_VT_SEC_SHORT, kind: RequeueKind::Short },
            MetricsDelta {
                total: true,
                errors: false,
                requeues_short: true,
                requeues_long: false,
                completed: false,
            },
        )
    }

    /// The identity-only `Error` report for this message.
    fn error_report(&self) -> (r: StateReport)
        ensures
            r@ == error_report_view(self@),
    {
        StateReport {
            data_plane_id: self.data_plane_id.clone(),
            org_id: self.org_id.clone(),
            inst_id: self.inst_id.clone(),
            event_type: Event::Error,
            spec: Option::None,
            status: Option::None,
            connection: Option::None,
        }
    }

    /// True once the handler has decided the message's fate.
    pub fn is_settled(&self) -> (r: bool)
        ensures
            r == (self@.phase == Phase::Done),
    {
        match self.phase {
            Phase::Done => true,
            _ => false,
        }
    }

    /// Begins handling a freshly dequeued envelope: every event type but
    /// `Delete` must pass the tombstone gate first.
    pub fn start(cfg: Config, env: Envelope) -> (r: (Machine, Action))
        ensures
            (r.0@, r.1@) == spec_start(cfg@, env@),
    {
        let Envelope { msg_id, read_ct, enqueued_at, message } = env;
        let CrudEvent {
            event_type,
            org_id,
            inst_id,
            data_plane_id,
            namespace,
            spec,
            backups_read_path,
            backups_write_path,
        } = message;
        let m = Machine {
            cfg,
            msg_id,
            read_ct,
            enqueued_at,
            event_type,
            org_id,
            inst_id,
            data_plane_id,
            namespace,
            read_path: backups_read_path,
            write_path: backups_write_path,
            work_spec: spec,
            phase: Phase::AwaitTombstone,
            conn: Option::None,
            observed_spec: Option::None,
            observed_status: Option::None,
        };
        if m.event_type != Event::Delete {
            let eff = EffectRequest::QueryTombstone { namespace: m.namespace.clone() };
            (m, Action::Perform(eff))
        } else {
            m.proceed_after_gate()
        }
    }

    /// The decisions after the tombstone gate: age-out, the missing-spec
    /// check, and the dispatch on the event type.
    fn proceed_after_gate(self) -> (r: (Machine, Action))
        ensures
            (r.0@, r.1@) == spec_after_gate(self@),
    {
        if self.read_ct >= self.cfg.max_read_ct {
            let report = self.error_report();
            self.finish(
                Disposition::ArchiveFailed { report: Option::Some(report) },
                MetricsDelta {
                    total: true,
                    errors: true,
                    requeues_short: false,
                    requeues_long: false,
                    completed: false,
                },
            )
        } else if self.event_type.is_provisioning() {
            if self.work_spec.is_none() {
                self.finish(
                    Disposition::ArchiveFailed { report: Option::None },
                    MetricsDelta {
                        total: true,
                        errors: true,
                        requeues_short: false,
                        requeues_long: false,
                        completed: false,
                    },
                )
            } else {
                match &self.cfg.backup_target {
                    BackupTarget::CloudStack(cs) => {
                        let eff = EffectRequest::EnsureCloudStack {
                            namespace: self.namespace.clone(),
                            read_path: clone_opt_string(&self.read_path),
                            write_path: clone_opt_string(&self.write_path),
                            backup_bucket: cs.backup_archive_bucket.clone(),
                            storage_bucket: self.cfg.storage_archive_bucket.clone(),
                        };
                        let m = Machine { phase: Phase::AwaitStack, ..self };
                        (m, Action::Perform(eff))
                    },
                    _ => {
                        let eff = EffectRequest::CreateNamespace {
                            namespace: self.namespace.clone(),
                            org_id: self.org_id.clone(),
                            inst_id: self.inst_id.clone(),
                        };
                        let m = Machine { phase: Phase::AwaitNamespace, ..self };
                        (m, Action::Perform(eff))
                    },
                }
            }
        } else if self.event_type == Event::Delete {
            let eff = EffectRequest::DeleteInstance { namespace: self.namespace.clone() };
            let m = Machine { phase: Phase::AwaitDeletion, ..self };
            (m, Action::Perform(eff))
        } else if self.event_type == Event::Restart {
            let eff = EffectRequest::RestartInstance {
                namespace: self.namespace.clone(),
                enqueued_at: self.enqueued_at,
            };
            let m = Machine { phase: Phase::AwaitRestart, ..self };
            (m, Action::Perform(eff))
        } else {
            self.finish(
                Disposition::LeaveInFlight,
                MetricsDelta {
                    total: true,
                    errors: true,
                    requeues_short: false,
                    requeues_long: false,
                    completed: false,
                },
            )
        }
    }

    /// Merges the storage configuration and hands the canonical desired
    /// resource to the cluster.
    fn enter_apply(self) -> (r: (Machine, Action))
        ensures
            (r.0@, r.1@) == spec_enter_apply(self@),
    {
        let Machine {
            cfg,
            msg_id,
            read_ct,
            enqueued_at,
            event_type,
            org_id,
            inst_id,
            data_plane_id,
            namespace,
            read_path,
            write_path,
            work_spec,
            phase: _,
            conn,
            observed_spec,
            observed_status,
        } = self;
        match work_spec {
            Option::Some(ws) => {
                let stack_type = stack_type_of(&ws.stack_name);
                let merged = include_storage_configuration(
                    ws,
                    cfg.storage_archive_bucket.as_str(),
                    &write_path,
                );
                let resource = DesiredResource {
                    namespace: namespace.clone(),
                    org_id: org_id.clone(),
                    inst_id: inst_id.clone(),
                    data_plane_id: data_plane_id.clone(),
                    stack_type,
                    storage_class_name: cfg.storage_class_name.clone(),
                    spec: merged,
                };
                let m = Machine {
                    cfg,
                    msg_id,
                    read_ct,
                    enqueued_at,
                    event_type,
                    org_id,
                    inst_id,
                    data_plane_id,
                    namespace,
                    read_path,
                    write_path,
                    work_spec: Option::None,
                    phase: Phase::AwaitApply,
                    conn,
                    observed_spec,
                    observed_status,
                };
                (m, Action::Perform(EffectRequest::ApplyResource { resource }))
            },
            Option::None => {
                let m = Machine {
                    cfg,
                    msg_id,
                    read_ct,
                    enqueued_at,
                    event_type,
                    org_id,
                    inst_id,
                    data_plane_id,
                    namespace,
                    read_path,
                    write_path,
                    work_spec: Option::None,
                    phase: Phase::Done,
                    conn: Option::None,
                    observed_spec: Option::None,
                    observed_status: Option::None,
                };
                (
                    m,
                    Action::Finish {
                        disposition: Disposition::FailWorker,
                        metrics: MetricsDelta {
                            total: true,
                            errors: true,
                            requeues_short: false,
                            requeues_long: false,
                            completed: false,
                        },
                    },
                )
            },
        }
    }

    /// Feeds the observed outcome of the last requested effect into the
    /// machine, yielding the next state and action exactly as the model's
    /// transition relation [`spec_step`] says.
    pub fn step(self, obs: Observation) -> (r: (Machine, Action))
        ensures
            (r.0@, r.1@) == spec_step(self@, obs@),
    {
        match self.phase {
            Phase::AwaitTombstone => self.step_tombstone(obs),
            Phase::AwaitStack => self.step_stack(obs),
            Phase::AwaitNamespace => self.step_namespace(obs),
            Phase::AwaitSecret => self.step_secret(obs),
            Phase::AwaitApply => self.step_apply(obs),
            Phase::AwaitConnection => self.step_connection(obs),
            Phase::AwaitState => self.step_state(obs),
            Phase::AwaitStackTeardown => self.step_stack_teardown(obs),
            Phase::AwaitDeletion => self.step_deletion(obs),
            Phase::AwaitDeletionStackTeardown => self.step_deletion_teardown(obs),
            Phase::AwaitTombstoneWrite => self.step_tombstone_write(obs),
            Phase::AwaitRestart => self.step_restart(obs),
            Phase::AwaitRestartState => self.step_restart_state(obs),
            Phase::AwaitRestartConnection => self.step_restart_connection(obs),
            Phase::Done => (
                self,
                Action::Finish {
                    disposition: Disposition::SkipMessage,
                    metrics: MetricsDelta {
                        total: false,
                        errors: false,
                        requeues_short: false,
                        requeues_long: false,
                        completed: false,
                    },
                },
            ),
        }
    }

    fn step_tombstone(self, obs: Observation) -> (r: (Machine, Action))
        ensures
            (r.0@, r.1@) == spec_step_tombstone(self@, obs@),
    {
        match obs {
            Observation::TombstonePresent => self.finish(
                Disposition::ArchiveSilent,
                MetricsDelta {
                    total: false,
                    errors: false,
                    requeues_short: false,
                    requeues_long: false,
                    completed: false,
                },
            ),
            Observation::TombstoneAbsent => self.proceed_after_gate(),
            _ => self.finish(
                Disposition::SkipMessage,
                MetricsDelta {
                    total: false,
                    errors: false,
                    requeues_short: false,
                    requeues_long: false,
                    completed: false,
                },
            ),
        }
    }

    fn step_stack(self, obs: Observation) -> (r: (Machine, Action))
        ensures
            (r.0@, r.1@) == spec_step_stack(self@, obs@),
    {
        match obs {
            Observation::StackReady { role_arn } => {
                let Machine {
                    cfg,
                    msg_id,
                    read_ct,
                    enqueued_at,
                    event_type,
                    org_id,
                    inst_id,
                    data_plane_id,
                    namespace,
                    read_path,
                    write_path,
                    work_spec,
                    phase: _,
                    conn,
                    observed_spec,
                    observed_status,
                } = self;
                match (work_spec, &cfg.backup_target) {
                    (Option::Some(ws), BackupTarget::CloudStack(cs)) => {
                        let mutated = with_cloud_stack_backup(
                            ws,
                            role_arn,
                            cs.backup_archive_bucket.as_str(),
                            &write_path,
                            namespace.as_str(),
                            cs.loadbalancer_public,
                        );
                        let eff = EffectRequest::CreateNamespace {
                            namespace: namespace.clone(),
                            org_id: org_id.clone(),
                            inst_id: inst_id.clone(),
                        };
                        let m = Machine {
                            cfg,
                            msg_id,
                            read_ct,
                            enqueued_at,
                            event_type,
                            org_id,
                            inst_id,
                            data_plane_id,
                            namespace,
                            read_path,
                            write_path,
                            work_spec: Option::Some(mutated),
                            phase: Phase::AwaitNamespace,
                            conn,
                            observed_spec,
                            observed_status,
                        };
                        (m, Action::Perform(eff))
                    },
                    _ => {
                        let m = Machine {
                            cfg,
                            msg_id,
                            read_ct,
                            enqueued_at,
                            event_type,
                            org_id,
                            inst_id,
                            data_plane_id,
                            namespace,
                            read_path,
                            write_path,
                            work_spec: Option::None,
                            phase: Phase::Done,
                            conn: Option::None,
                            observed_spec: Option::None,
                            observed_status: Option::None,
                        };
                        (
                            m,
                            Action::Finish {
                                disposition: Disposition::FailWorker,
                                metrics: MetricsDelta {
                                    total: true,
                                    errors: true,
                                    requeues_short: false,
                                    requeues_long: false,
                                    completed: false,
                                },
                            },
                        )
                    },
                }
            },
            Observation::StackPending => self.requeue_short(),
            _ => self.finish(
                Disposition::Requeue { vt_seconds: REQUEUE_VT_SEC_LONG, kind: RequeueKind::Long },
                MetricsDelta {
                    total: true,
                    errors: false,
                    requeues_short: false,
                    requeues_long: true,
                    completed: false,
                },
            ),
        }
    }

    fn step_namespace(self, obs: Observation) -> (r: (Machine, Action))
        ensures
            (r.0@, r.1@) == spec_step_namespace(self@, obs@),
    {
        match obs {
            Observation::Completed => match &self.cfg.backup_target {
                BackupTarget::CustomS3(c) => {
                    let eff = EffectRequest::UpsertSecret {
                        namespace: self.namespace.clone(),
                        name: String::from_str("custom-s3-creds"),
                        access_key_id: c.access_key_id.clone(),
                        secret_access_key: c.secret_access_key.clone(),
                    };
                    let m = Machine { phase: Phase::AwaitSecret, ..self };
                    (m, Action::Perform(eff))
                },
                _ => self.enter_apply(),
            },
            _ => self.fail(),
        }
    }

    fn step_secret(self, obs: Observation) -> (r: (Machine, Action))
        ensures
            (r.0@, r.1@) == spec_step_secret(self@, obs@),
    {
        match obs {
            Observation::Completed => {
                let Machine {
                    cfg,
                    msg_id,
                    read_ct,
                    enqueued_at,
                    event_type,
                    org_id,
                    inst_id,
                    data_plane_id,
                    namespace,
                    read_path,
                    write_path,
                    work_spec,
                    phase,
                    conn,
                    observed_spec,
                    observed_status,
                } = self;
                match (work_spec, &cfg.backup_target) {
                    (Option::Some(ws), BackupTarget::CustomS3(c)) => {
                        let mutated = with_custom_s3_backup(ws, c, &write_path, namespace.as_str());
                        let m = Machine {
                            cfg,
                            msg_id,
                            read_ct,
                            enqueued_at,
                            event_type,
                            org_id,
                            inst_id,
                            data_plane_id,
                            namespace,
                            read_path,
                            write_path,
                            work_spec: Option::Some(mutated),
                            phase,
                            conn,
                            observed_spec,
                            observed_status,
                        };
                        m.enter_apply()
                    },
                    _ => {
                        let m = Machine {
                            cfg,
                            msg_id,
                            read_ct,
                            enqueued_at,
                            event_type,
                            org_id,
                            inst_id,
                            data_plane_id,
                            namespace,
                            read_path,
                            write_path,
                            work_spec: Option::None,
                            phase: Phase::Done,
                            conn: Option::None,
                            observed_spec: Option::None,
                            observed_status: Option::None,
                        };
                        (
                            m,
                            Action::Finish {
                                disposition: Disposition::FailWorker,
                                metrics: MetricsDelta {
                                    total: true,
                                    errors: true,
                                    requeues_short: false,
                                    requeues_long: false,
                                    completed: false,
                                },
                            },
                        )
                    },
                }
            },
            _ => self.fail(),
        }
    }

    fn step_apply(self, obs: Observation) -> (r: (Machine, Action))
        ensures
            (r.0@, r.1@) == spec_step_apply(self@, obs@),
    {
        match obs {
            Observation::Completed => {
                let eff = EffectRequest::FetchConnection { namespace: self.namespace.clone() };
                let m = Machine { phase: Phase::AwaitConnection, ..self };
                (m, Action::Perform(eff))
            },
            _ => self.fail(),
        }
    }

    fn step_connection(self, obs: Observation) -> (r: (Machine, Action))
        ensures
            (r.0@, r.1@) == spec_step_connection(self@, obs@),
    {
        match obs {
            Observation::Connection { info } => {
                let eff = EffectRequest::FetchState { namespace: self.namespace.clone() };
                let m = Machine {
                    conn: Option::Some(info),
                    phase: Phase::AwaitState,
                    ..self
                };
                (m, Action::Perform(eff))
            },
            Observation::ConnectionPending => self.requeue_short(),
            _ => self.finish(
                Disposition::Requeue { vt_seconds: REQUEUE_VT_SEC_LONG, kind: RequeueKind::Long },
                MetricsDelta {
                    total: true,
                    errors: true,
                    requeues_short: false,
                    requeues_long: false,
                    completed: false,
                },
            ),
        }
    }

    fn step_state(self, obs: Observation) -> (r: (Machine, Action))
        ensures
            (r.0@, r.1@) == spec_step_state(self@, obs@),
    {
        match obs {
            Observation::Observed { spec, status } => {
                let cloud = matches!(&self.cfg.backup_target, BackupTarget::CloudStack(_));
                let stopping = self.event_type == Event::Stop;
                if cloud && stopping && status.is_some() {
                    let st = status.unwrap();
                    if st.running {
                        self.requeue_short()
                    } else {
                        let eff = EffectRequest::DeleteCloudStack {
                            namespace: self.namespace.clone(),
                        };
                        let m = Machine {
                            observed_spec: Option::Some(spec),
                            observed_status: status,
                            phase: Phase::AwaitStackTeardown,
                            ..self
                        };
                        (m, Action::Perform(eff))
                    }
                } else {
                    let Machine {
                        cfg,
                        msg_id,
                        read_ct,
                        enqueued_at,
                        event_type,
                        org_id,
                        inst_id,
                        data_plane_id,
                        namespace,
                        read_path,
                        write_path,
                        work_spec: _,
                        phase: _,
                        conn,
                        observed_spec: _,
                        observed_status: _,
                    } = self;
                    let report = StateReport {
                        data_plane_id: data_plane_id.clone(),
                        org_id: org_id.clone(),
                        inst_id: inst_id.clone(),
                        event_type: terminal_event(event_type),
                        spec: Option::Some(spec),
                        status,
                        connection: conn,
                    };
                    let m = Machine {
                        cfg,
                        msg_id,
                        read_ct,
                        enqueued_at,
                        event_type,
                        org_id,
                        inst_id,
                        data_plane_id,
                        namespace,
                        read_path,
                        write_path,
                        work_spec: Option::None,
                        phase: Phase::Done,
                        conn: Option::None,
                        observed_spec: Option::None,
                        observed_status: Option::None,
                    };
                    (
                        m,
                        Action::Finish {
                            disposition: Disposition::Publish { report },
                            metrics: MetricsDelta {
                                total: true,
                                errors: false,
                                requeues_short: false,
                                requeues_long: false,
                                completed: true,
                            },
                        },
                    )
                }
            },
            _ => self.fail(),
        }
    }

    fn step_stack_teardown(self, obs: Observation) -> (r: (Machine, Action))
        ensures
            (r.0@, r.1@) == spec_step_stack_teardown(self@, obs@),
    {
        match obs {
            Observation::Completed => {
                let Machine {
                    cfg,
                    msg_id,
                    read_ct,
                    enqueued_at,
                    event_type,
                    org_id,
                    inst_id,
                    data_plane_id,
                    namespace,
                    read_path,
                    write_path,
                    work_spec: _,
                    phase: _,
                    conn,
                    observed_spec,
                    observed_status,
                } = self;
                match observed_spec {
                    Option::Some(os) => {
                        let report = StateReport {
                            data_plane_id: data_plane_id.clone(),
                            org_id: org_id.clone(),
                            inst_id: inst_id.clone(),
                            event_type: terminal_event(event_type),
                            spec: Option::Some(os),
                            status: observed_status,
                            connection: conn,
                        };
                        let m = Machine {
                            cfg,
                            msg_id,
                            read_ct,
                            enqueued_at,
                            event_type,
                            org_id,
                            inst_id,
                            data_plane_id,
                            namespace,
                            read_path,
                            write_path,
                            work_spec: Option::None,
                            phase: Phase::Done,
                            conn: Option::None,
                            observed_spec: Option::None,
                            observed_status: Option::None,
                        };
                        (
                            m,
                            Action::Finish {
                                disposition: Disposition::Publish { report },
                                metrics: MetricsDelta {
                                    total: true,
                                    errors: false,
                                    requeues_short: false,
                                    requeues_long: false,
                                    completed: true,
                                },
                            },
                        )
                    },
                    Option::None => {
                        let m = Machine {
                            cfg,
                            msg_id,
                            read_ct,
                            enqueued_at,
                            event_type,
                            org_id,
                            inst_id,
                            data_plane_id,
                            namespace,
                            read_path,
                            write_path,
                            work_spec: Option::None,
                            phase: Phase::Done,
                            conn: Option::None,
                            observed_spec: Option::None,
                            observed_status: Option::None,
                        };
                        (
                            m,
                            Action::Finish {
                                disposition: Disposition::FailWorker,
                                metrics: MetricsDelta {
                                    total: true,
                                    errors: true,
                                    requeues_short: false,
                                    requeues_long: false,
                                    completed: false,
                                },
                            },
                        )
                    },
                }
            },
            _ => self.fail(),
        }
    }

    fn step_deletion(self, obs: Observation) -> (r: (Machine, Action))
        ensures
            (r.0@, r.1@) == spec_step_deletion(self@, obs@),
    {
        match obs {
            Observation::DeleteProgress { complete } => {
                if !complete {
                    self.finish(
                        Disposition::Requeue {
                            vt_seconds: REQUEUE_DELETE_VT_SEC,
                            kind: RequeueKind::Deletion,
                        },
                        MetricsDelta {
                            total: true,
                            errors: false,
                            requeues_short: false,
                            requeues_long: false,
                            completed: false,
                        },
                    )
                } else {
                    let cloud = matches!(&self.cfg.backup_target, BackupTarget::CloudStack(_));
                    if cloud {
                        let eff = EffectRequest::DeleteCloudStack {
                            namespace: self.namespace.clone(),
                        };
                        let m = Machine { phase: Phase::AwaitDeletionStackTeardown, ..self };
                        (m, Action::Perform(eff))
                    } else {
                        let eff = EffectRequest::MarkDeleted { namespace: self.namespace.clone() };
                        let m = Machine { phase: Phase::AwaitTombstoneWrite, ..self };
                        (m, Action::Perform(eff))
                    }
                }
            },
            _ => self.fail(),
        }
    }

    fn step_deletion_teardown(self, obs: Observation) -> (r: (Machine, Action))
        ensures
            (r.0@, r.1@) == spec_step_deletion_teardown(self@, obs@),
    {
        match obs {
            Observation::Completed => {
                let eff = EffectRequest::MarkDeleted { namespace: self.namespace.clone() };
                let m = Machine { phase: Phase::AwaitTombstoneWrite, ..self };
                (m, Action::Perform(eff))
            },
            _ => self.fail(),
        }
    }

    fn step_tombstone_write(self, obs: Observation) -> (r: (Machine, Action))
        ensures
            (r.0@, r.1@) == spec_step_tombstone_write(self@, obs@),
    {
        let _ = obs;
        let report = StateReport {
            data_plane_id: self.data_plane_id.clone(),
            org_id: self.org_id.clone(),
            inst_id: self.inst_id.clone(),
            event_type: Event::Deleted,
            spec: Option::None,
            status: Option::None,
            connection: Option::None,
        };
        self.finish(
            Disposition::Publish { report },
            MetricsDelta {
                total: true,
                errors: false,
                requeues_short: false,
                requeues_long: false,
                completed: true,
            },
        )
    }

    fn step_restart(self, obs: Observation) -> (r: (Machine, Action))
        ensures
            (r.0@, r.1@) == spec_step_restart(self@, obs@),
    {
        match obs {
            Observation::Completed => {
                let eff = EffectRequest::FetchStateLenient { namespace: self.namespace.clone() };
                let m = Machine { phase: Phase::AwaitRestartState, ..self };
                (m, Action::Perform(eff))
            },
            _ => self.requeue_short(),
        }
    }

    fn step_restart_state(self, obs: Observation) -> (r: (Machine, Action))
        ensures
            (r.0@, r.1@) == spec_step_restart_state(self@, obs@),
    {
        match obs {
            Observation::Observed { spec, status } => {
                let eff = EffectRequest::FetchConnection { namespace: self.namespace.clone() };
                let m = Machine {
                    observed_spec: Option::Some(spec),
                    observed_status: status,
                    phase: Phase::AwaitRestartConnection,
                    ..self
                };
                (m, Action::Perform(eff))
            },
            _ => self.requeue_short(),
        }
    }

    fn step_restart_connection(self, obs: Observation) -> (r: (Machine, Action))
        ensures
            (r.0@, r.1@) == spec_step_restart_connection(self@, obs@),
    {
        let Machine {
            cfg,
            msg_id,
            read_ct,
            enqueued_at,
            event_type,
            org_id,
            inst_id,
            data_plane_id,
            namespace,
            read_path,
            write_path,
            work_spec: _,
            phase: _,
            conn: _,
            observed_spec,
            observed_status,
        } = self;
        match observed_spec {
            Option::Some(os) => {
                let found = match obs {
                    Observation::Connection { info } => Option::Some(info),
                    _ => Option::None,
                };
                let report = StateReport {
                    data_plane_id: data_plane_id.clone(),
                    org_id: org_id.clone(),
                    inst_id: inst_id.clone(),
                    event_type: Event::Restarted,
                    spec: Option::Some(os),
                    status: observed_status,
                    connection: found,
                };
                let m = Machine {
                    cfg,
                    msg_id,
                    read_ct,
                    enqueued_at,
                    event_type,
                    org_id,
                    inst_id,
                    data_plane_id,
                    namespace,
                    read_path,
                    write_path,
                    work_spec: Option::None,
                    phase: Phase::Done,
                    conn: Option::None,
                    observed_spec: Option::None,
                    observed_status: Option::None,
                };
                (
                    m,
                    Action::Finish {
                        disposition: Disposition::Publish { report },
                        metrics: MetricsDelta {
                            total: true,
                            errors: false,
                            requeues_short: false,
                            requeues_long: false,
                            completed: true,
                        },
                    },
                )
            },
            Option::None => {
                let m = Machine {
                    cfg,
                    msg_id,
                    read_ct,
                    enqueued_at,
                    event_type,
                    org_id,
                    inst_id,
                    data_plane_id,
                    namespace,
                    read_path,
                    write_path,
                    work_spec: Option::None,
                    phase: Phase::Done,
                    conn: Option::None,
                    observed_spec: Option::None,
                    observed_status: Option::None,
                };
                (
                    m,
                    Action::Finish {
                        disposition: Disposition::FailWorker,
                        metrics: MetricsDelta {
                            total: true,
                            errors: true,
                            requeues_short: false,
                            requeues_long: false,
                            completed: false,
                        },
                    },
                )
            },
        }
    }
}

} // verus!

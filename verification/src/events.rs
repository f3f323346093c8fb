//! Inbound and outbound event types exchanged with the control plane, and the
//! queue envelope that wraps each inbound message.

use vstd::prelude::*;

use crate::coredb::CoreDbSpec;
use crate::coredb::CoreDbSpecView;

verus! {

/// Lifecycle event kinds. The inbound intents are `Create`, `Update`,
/// `Restore`, `Start`, `Stop`, `Restart` and `Delete`; the remaining kinds are
/// the terminal states reported back to the control plane.
#[derive(Clone, Copy, Debug, PartialEq, Eq, Structural)]
pub enum Event {
    Create,
    Created,
    Update,
    Updated,
    Restore,
    Restored,
    Start,
    Started,
    Stop,
    StopComplete,
    Restart,
    Restarted,
    Delete,
    Deleted,
    Error,
}

impl Event {
    /// True for the inbound kinds that carry a desired spec and are handled by
    /// the provisioning path.
    pub open spec fn spec_is_provisioning(self) -> bool {
        self == Event::Create || self == Event::Update || self == Event::Restore
            || self == Event::Start || self == Event::Stop
    }

    /// Executable twin of [`Event::spec_is_provisioning`].
    #[verifier::when_used_as_spec(spec_is_provisioning)]
    pub fn is_provisioning(self) -> (r: bool)
        ensures
            r == self.spec_is_provisioning(),
    {
        match self {
            Event::Create | Event::Update | Event::Restore | Event::Start | Event::Stop => true,
            _ => false,
        }
    }
}

/// Mathematical model of an inbound event.
pub struct CrudEventView {
    pub event_type: Event,
    pub org_id: Seq<char>,
    pub inst_id: Seq<char>,
    pub data_plane_id: Seq<char>,
    pub namespace: Seq<char>,
    pub spec: Option<CoreDbSpecView>,
    pub backups_read_path: Option<Seq<char>>,
    pub backups_write_path: Option<Seq<char>>,
}

/// An inbound lifecycle intent from the control plane. For every event type
/// except `Delete` a desired spec must be present; a message without one is
/// archived as malformed.
#[derive(Clone, Debug, PartialEq)]
pub struct CrudEvent {
    pub event_type: Event,
    pub org_id: String,
    pub inst_id: String,
    pub data_plane_id: String,
    pub namespace: String,
    pub spec: Option<CoreDbSpec>,
    pub backups_read_path: Option<String>,
    pub backups_write_path: Option<String>,
}

impl View for CrudEvent {
    type V = CrudEventView;

    open spec fn view(&self) -> CrudEventView {
        CrudEventView {
            event_type: self.event_type,
            org_id: self.org_id@,
            inst_id: self.inst_id@,
            data_plane_id: self.data_plane_id@,
            namespace: self.namespace@,
            spec: self.spec.deep_view(),
            backups_read_path: self.backups_read_path.deep_view(),
            backups_write_path: self.backups_write_path.deep_view(),
        }
    }
}

impl DeepView for CrudEvent {
    type V = CrudEventView;

    open spec fn deep_view(&self) -> CrudEventView {
        self.view()
    }
}

/// Mathematical model of a queue envelope.
pub struct EnvelopeView {
    pub msg_id: int,
    pub read_ct: int,
    pub enqueued_at: int,
    pub message: CrudEventView,
}

/// The queue envelope around an inbound event: the delivery identity
/// (`msg_id`), the monotonic delivery counter (`read_ct`) and the original
/// submission time (`enqueued_at`, seconds since the epoch), which requeues do
/// not reset.
#[derive(Clone, Debug, PartialEq)]
pub struct Envelope {
    pub msg_id: i64,
    pub read_ct: i32,
    pub enqueued_at: i64,
    pub message: CrudEvent,
}

impl View for Envelope {
    type V = EnvelopeView;

    open spec fn view(&self) -> EnvelopeView {
        EnvelopeView {
            msg_id: self.msg_id as int,
            read_ct: self.read_ct as int,
            enqueued_at: self.enqueued_at as int,
            message: self.message@,
        }
    }
}

impl DeepView for Envelope {
    type V = EnvelopeView;

    open spec fn deep_view(&self) -> EnvelopeView {
        self.view()
    }
}

/// Observed instance status, as far as the agent reads it: whether the
/// cluster reports the instance as running.
#[derive(Clone, Copy, Debug, PartialEq, Eq, Structural)]
pub struct InstanceStatus {
    pub running: bool,
}

/// Mathematical model of the connection information.
pub struct ConnectionInfoView {
    pub host: Seq<char>,
    pub port: int,
    pub user: Seq<char>,
    pub password: Seq<char>,
}

/// Connection information extracted from the instance's managed secret.
#[derive(Clone, Debug, PartialEq)]
pub struct ConnectionInfo {
    pub host: String,
    pub port: u16,
    pub user: String,
    pub password: String,
}

impl View for ConnectionInfo {
    type V = ConnectionInfoView;

    open spec fn view(&self) -> ConnectionInfoView {
        ConnectionInfoView {
            host: self.host@,
            port: self.port as int,
            user: self.user@,
            password: self.password@,
        }
    }
}

impl DeepView for ConnectionInfo {
    type V = ConnectionInfoView;

    open spec fn deep_view(&self) -> ConnectionInfoView {
        self.view()
    }
}

/// Mathematical model of an outbound report.
pub struct StateReportView {
    pub data_plane_id: Seq<char>,
    pub org_id: Seq<char>,
    pub inst_id: Seq<char>,
    pub event_type: Event,
    pub spec: Option<CoreDbSpecView>,
    pub status: Option<InstanceStatus>,
    pub connection: Option<ConnectionInfoView>,
}

/// An outbound event reporting observed state back to the control plane. It
/// mirrors the identity fields of the inbound event and carries a terminal
/// event kind.
#[derive(Clone, Debug, PartialEq)]
pub struct StateReport {
    pub data_plane_id: String,
    pub org_id: String,
    pub inst_id: String,
    pub event_type: Event,
    pub spec: Option<CoreDbSpec>,
    pub status: Option<InstanceStatus>,
    pub connection: Option<ConnectionInfo>,
}

impl View for StateReport {
    type V = StateReportView;

    open spec fn view(&self) -> StateReportView {
        StateReportView {
            data_plane_id: self.data_plane_id@,
            org_id: self.org_id@,
            inst_id: self.inst_id@,
            event_type: self.event_type,
            spec: self.spec.deep_view(),
            status: self.status,
            connection: self.connection.deep_view(),
        }
    }
}

impl DeepView for StateReport {
    type V = StateReportView;

    open spec fn deep_view(&self) -> StateReportView {
        self.view()
    }
}

} // verus!

//! The library's guarantees about the reconciliation state machine, proved
//! once and for all over the model: tombstone suppression, replay
//! determinism, mutation idempotence, the age-out circuit breaker, the
//! requeue discipline, and the ordering of a stop-mode stack teardown.

use vstd::prelude::*;

use crate::builder::cloud_stack_applied;
use crate::builder::custom_s3_applied;
use crate::config::ConfigView;
use crate::config::CustomS3ConfigView;
use crate::coredb::CoreDbSpecView;
use crate::events::EnvelopeView;
use crate::events::Event;
use crate::reconciler::ActionView;
use crate::reconciler::DispositionView;
use crate::reconciler::EffectRequestView;
use crate::reconciler::MachineView;
use crate::reconciler::MetricsDelta;
use crate::reconciler::ObservationView;
use crate::reconciler::Phase;
use crate::reconciler::REQUEUE_DELETE_VT_SEC;
use crate::reconciler::REQUEUE_VT_SEC_LONG;
use crate::reconciler::REQUEUE_VT_SEC_SHORT;
use crate::reconciler::RequeueKind;
use crate::reconciler::error_report_view;
use crate::reconciler::machine_view_of;
use crate::reconciler::settled;
use crate::reconciler::spec_after_gate;
use crate::reconciler::spec_start;
use crate::reconciler::spec_step;

verus! {

/// No counter moves.
pub open spec fn no_counters() -> MetricsDelta {
    MetricsDelta {
        total: false,
        errors: false,
        requeues_short: false,
        requeues_long: false,
        completed: false,
    }
}

/// The phases a machine can stand in only agree with its event type: the
/// provisioning phases belong to provisioning events, the stack-teardown
/// phase to a stop, the deletion phases to a delete, and the restart phases
/// to a restart.
pub open spec fn wf_machine(m: MachineView) -> bool {
    &&& ((m.phase == Phase::AwaitStack || m.phase == Phase::AwaitNamespace || m.phase
        == Phase::AwaitSecret || m.phase == Phase::AwaitApply || m.phase == Phase::AwaitConnection
        || m.phase == Phase::AwaitState || m.phase == Phase::AwaitStackTeardown)
        ==> m.event_type.spec_is_provisioning())
    &&& (m.phase == Phase::AwaitStackTeardown ==> m.event_type == Event::Stop)
    &&& ((m.phase == Phase::AwaitDeletion || m.phase == Phase::AwaitDeletionStackTeardown
        || m.phase == Phase::AwaitTombstoneWrite) ==> m.event_type == Event::Delete)
    &&& ((m.phase == Phase::AwaitRestart || m.phase == Phase::AwaitRestartState || m.phase
        == Phase::AwaitRestartConnection) ==> m.event_type == Event::Restart)
}

/// A freshly started machine is well formed.
pub proof fn lemma_start_well_formed(cfg: ConfigView, env: EnvelopeView)
    ensures
        wf_machine(spec_start(cfg, env).0),
{
}

/// Every transition preserves well-formedness.
pub proof fn lemma_step_preserves_well_formed(m: MachineView, obs: ObservationView)
    requires
        wf_machine(m),
    ensures
        wf_machine(spec_step(m, obs).0),
{
}

/// Tombstone suppression: a non-delete event whose namespace is recorded as
/// deleted asks only the tombstone store, is archived with no outbound
/// report and no counter change, and its handler is finished — so no cluster
/// or cloud effect is ever requested for it.
pub proof fn lemma_tombstone_suppression(cfg: ConfigView, env: EnvelopeView)
    requires
        env.message.event_type != Event::Delete,
    ensures
        ({
            let (m0, a0) = spec_start(cfg, env);
            let (m1, a1) = spec_step(m0, ObservationView::TombstonePresent);
            &&& a0 == ActionView::Perform(
                EffectRequestView::QueryTombstone { namespace: env.message.namespace },
            )
            &&& a1 == (ActionView::Finish {
                disposition: DispositionView::ArchiveSilent,
                metrics: no_counters(),
            })
            &&& m1.phase == Phase::Done
        }),
{
}

/// A finished handler is inert: it changes nothing and requests no further
/// effect, whatever is fed to it.
pub proof fn lemma_settled_machine_is_inert(m: MachineView, obs: ObservationView)
    requires
        m.phase == Phase::Done,
    ensures
        spec_step(m, obs).0 == m,
        spec_step(m, obs).1 == (ActionView::Finish {
            disposition: DispositionView::SkipMessage,
            metrics: no_counters(),
        }),
{
}

/// The actions of a whole handling: the starting decision followed by one
/// action per observation fed back.
pub open spec fn run_machine(m: MachineView, obs: Seq<ObservationView>) -> Seq<ActionView>
    decreases obs.len(),
{
    if obs.len() == 0 {
        Seq::empty()
    } else {
        seq![spec_step(m, obs.first()).1] + run_machine(
            spec_step(m, obs.first()).0,
            obs.drop_first(),
        )
    }
}

/// The actions of a whole handling, from the dequeued envelope on.
pub open spec fn run_from_start(
    cfg: ConfigView,
    env: EnvelopeView,
    obs: Seq<ObservationView>,
) -> Seq<ActionView> {
    seq![spec_start(cfg, env).1] + run_machine(spec_start(cfg, env).0, obs)
}

/// Replay determinism: redelivering a message with the same identity and
/// payload, against outside calls that answer the same way, produces
/// exactly the same effects, the same counters and the same terminal
/// report. Together with the idempotence of the derived-spec mutations and
/// of the outside upserts themselves, this is what makes redelivery after a
/// crash safe.
pub proof fn lemma_replay_deterministic(
    cfg: ConfigView,
    env1: EnvelopeView,
    env2: EnvelopeView,
    obs1: Seq<ObservationView>,
    obs2: Seq<ObservationView>,
)
    requires
        env1 == env2,
        obs1 == obs2,
    ensures
        run_from_start(cfg, env1, obs1) == run_from_start(cfg, env2, obs2),
{
}

/// The one action a finished handler ever yields.
pub open spec fn inert_action() -> ActionView {
    ActionView::Finish { disposition: DispositionView::SkipMessage, metrics: no_counters() }
}

/// Every transition that finishes the message leaves the handler finished:
/// a disposition is decided at most once per handling.
pub proof fn lemma_finish_settles(m: MachineView, obs: ObservationView)
    ensures
        (spec_step(m, obs).1 matches ActionView::Finish { disposition, metrics }) ==> spec_step(
            m,
            obs,
        ).0.phase == Phase::Done,
{
}

/// A finished handler stays finished: whatever observations follow, every
/// further action is the inert one.
pub proof fn lemma_done_is_absorbing(m: MachineView, obs: Seq<ObservationView>)
    requires
        m.phase == Phase::Done,
    ensures
        run_machine(m, obs) =~= Seq::new(obs.len(), |i: int| inert_action()),
    decreases obs.len(),
{
    if obs.len() == 0 {
    } else {
        lemma_settled_machine_is_inert(m, obs.first());
        lemma_done_is_absorbing(m, obs.drop_first());
    }
}

/// Tombstone suppression over a whole handling: after the tombstone store
/// answers that the namespace was deleted, the only actions ever taken are
/// the initial store query and the silent archive — nothing touches the
/// cluster or the cloud, however long the driver keeps feeding
/// observations.
pub proof fn lemma_tombstone_suppression_run(
    cfg: ConfigView,
    env: EnvelopeView,
    rest: Seq<ObservationView>,
)
    requires
        env.message.event_type != Event::Delete,
    ensures
        ({
            let acts = run_from_start(cfg, env, seq![ObservationView::TombstonePresent] + rest);
            &&& acts.len() == rest.len() + 2
            &&& acts[0] == ActionView::Perform(
                EffectRequestView::QueryTombstone { namespace: env.message.namespace },
            )
            &&& acts[1] == (ActionView::Finish {
                disposition: DispositionView::ArchiveSilent,
                metrics: no_counters(),
            })
            &&& forall|k: int| 2 <= k < acts.len() ==> acts[k] == inert_action()
        }),
{
    let (m0, a0) = spec_start(cfg, env);
    let all = seq![ObservationView::TombstonePresent] + rest;
    let (m1, a1) = spec_step(m0, all.first());
    lemma_tombstone_suppression(cfg, env);
    assert(all.drop_first() =~= rest);
    lemma_done_is_absorbing(m1, rest);
    let acts = run_from_start(cfg, env, all);
    assert(acts =~= seq![a0, a1] + Seq::new(rest.len(), |i: int| inert_action()));
}

/// The cloud-stack mutation is idempotent: it replaces the backup block and
/// the service-account annotation wholesale with values derived from its
/// arguments alone, and forcing the dedicated-networking flag public twice
/// is the same as forcing it once.
pub proof fn lemma_cloud_stack_mutation_idempotent(
    s: CoreDbSpecView,
    role_arn: Seq<char>,
    backup_bucket: Seq<char>,
    wp: Option<Seq<char>>,
    ns: Seq<char>,
    loadbalancer_public: bool,
)
    ensures
        cloud_stack_applied(
            cloud_stack_applied(s, role_arn, backup_bucket, wp, ns, loadbalancer_public),
            role_arn,
            backup_bucket,
            wp,
            ns,
            loadbalancer_public,
        ) == cloud_stack_applied(s, role_arn, backup_bucket, wp, ns, loadbalancer_public),
{
    let once = cloud_stack_applied(s, role_arn, backup_bucket, wp, ns, loadbalancer_public);
    let twice = cloud_stack_applied(once, role_arn, backup_bucket, wp, ns, loadbalancer_public);
    assert(twice =~= once);
}

/// The custom object-store mutation is idempotent: it replaces the backup
/// block with a value derived from its arguments alone.
pub proof fn lemma_custom_s3_mutation_idempotent(
    s: CoreDbSpecView,
    c: CustomS3ConfigView,
    wp: Option<Seq<char>>,
    ns: Seq<char>,
)
    ensures
        custom_s3_applied(custom_s3_applied(s, c, wp, ns), c, wp, ns) == custom_s3_applied(
            s,
            c,
            wp,
            ns,
        ),
{
    assert(custom_s3_applied(custom_s3_applied(s, c, wp, ns), c, wp, ns) =~= custom_s3_applied(
        s,
        c,
        wp,
        ns,
    ));
}

/// The age-out circuit breaker: a message delivered at least `max_read_ct`
/// times is archived, the error is counted, and exactly one identity-only
/// `Error` report goes out — the handler is then finished, and a finished
/// handler emits nothing further.
pub proof fn lemma_age_out(cfg: ConfigView, env: EnvelopeView)
    requires
        env.read_ct >= cfg.max_read_ct,
    ensures
        ({
            let m0 = machine_view_of(cfg, env, Phase::AwaitTombstone);
            let expected = ActionView::Finish {
                disposition: DispositionView::ArchiveFailed {
                    report: Option::Some(error_report_view(m0)),
                },
                metrics: MetricsDelta {
                    total: true,
                    errors: true,
                    requeues_short: false,
                    requeues_long: false,
                    completed: false,
                },
            };
            &&& spec_after_gate(m0) == (settled(m0), expected)
            &&& error_report_view(m0).event_type == Event::Error
            &&& error_report_view(m0).spec is None
            &&& error_report_view(m0).status is None
            &&& error_report_view(m0).connection is None
            &&& settled(m0).phase == Phase::Done
            &&& (env.message.event_type == Event::Delete ==> spec_start(cfg, env) == (
                settled(m0),
                expected,
            ))
            &&& (env.message.event_type != Event::Delete ==> spec_step(
                spec_start(cfg, env).0,
                ObservationView::TombstoneAbsent,
            ) == (settled(m0), expected))
        }),
{
}

/// The age-out report is emitted exactly once per delivery: over a whole
/// handling of an over-delivered non-delete message, the only actions are
/// the tombstone query, the archive carrying the one `Error` report, and
/// inert ones thereafter.
pub proof fn lemma_age_out_run(cfg: ConfigView, env: EnvelopeView, rest: Seq<ObservationView>)
    requires
        env.read_ct >= cfg.max_read_ct,
        env.message.event_type != Event::Delete,
    ensures
        ({
            let m0 = machine_view_of(cfg, env, Phase::AwaitTombstone);
            let acts = run_from_start(cfg, env, seq![ObservationView::TombstoneAbsent] + rest);
            &&& acts.len() == rest.len() + 2
            &&& acts[1] == (ActionView::Finish {
                disposition: DispositionView::ArchiveFailed {
                    report: Option::Some(error_report_view(m0)),
                },
                metrics: MetricsDelta {
                    total: true,
                    errors: true,
                    requeues_short: false,
                    requeues_long: false,
                    completed: false,
                },
            })
            &&& forall|k: int| 2 <= k < acts.len() ==> acts[k] == inert_action()
        }),
{
    let (m0, a0) = spec_start(cfg, env);
    let all = seq![ObservationView::TombstoneAbsent] + rest;
    let (m1, a1) = spec_step(m0, all.first());
    lemma_age_out(cfg, env);
    assert(all.drop_first() =~= rest);
    lemma_done_is_absorbing(m1, rest);
    let acts = run_from_start(cfg, env, all);
    assert(acts =~= seq![a0, a1] + Seq::new(rest.len(), |i: int| inert_action()));
}

/// As [`lemma_age_out_run`], for an over-delivered delete message, whose
/// age-out is decided before any effect is requested.
pub proof fn lemma_age_out_run_delete(
    cfg: ConfigView,
    env: EnvelopeView,
    rest: Seq<ObservationView>,
)
    requires
        env.read_ct >= cfg.max_read_ct,
        env.message.event_type == Event::Delete,
    ensures
        ({
            let m0 = machine_view_of(cfg, env, Phase::AwaitTombstone);
            let acts = run_from_start(cfg, env, rest);
            &&& acts.len() == rest.len() + 1
            &&& acts[0] == (ActionView::Finish {
                disposition: DispositionView::ArchiveFailed {
                    report: Option::Some(error_report_view(m0)),
                },
                metrics: MetricsDelta {
                    total: true,
                    errors: true,
                    requeues_short: false,
                    requeues_long: false,
                    completed: false,
                },
            })
            &&& forall|k: int| 1 <= k < acts.len() ==> acts[k] == inert_action()
        }),
{
    let (m0, a0) = spec_start(cfg, env);
    lemma_age_out(cfg, env);
    lemma_done_is_absorbing(m0, rest);
    let acts = run_from_start(cfg, env, rest);
    assert(acts =~= seq![a0] + Seq::new(rest.len(), |i: int| inert_action()));
}

/// The starting decision never requeues a message.
pub proof fn lemma_start_never_requeues(cfg: ConfigView, env: EnvelopeView)
    ensures
        ({
            match spec_start(cfg, env).1 {
                ActionView::Finish {
                    disposition: DispositionView::Requeue { vt_seconds, kind },
                    metrics,
                } => false,
                _ => true,
            }
        }),
{
}

/// The requeue discipline: whenever a transition requeues the message, the
/// handler is finished by it — so exactly one visibility-timeout reset per
/// non-terminal return — and the timeout is one of the three fixed
/// durations, each under its own label: 5 seconds for an expected transient
/// state, 60 for an incomplete deletion, 300 for an unexpected failure.
pub proof fn lemma_requeue_discipline(m: MachineView, obs: ObservationView)
    ensures
        ({
            let (m2, a) = spec_step(m, obs);
            match a {
                ActionView::Finish {
                    disposition: DispositionView::Requeue { vt_seconds, kind },
                    metrics,
                } => {
                    &&& m2.phase == Phase::Done
                    &&& ((vt_seconds == REQUEUE_VT_SEC_SHORT as int && kind == RequeueKind::Short)
                        || (vt_seconds == REQUEUE_DELETE_VT_SEC as int && kind
                        == RequeueKind::Deletion) || (vt_seconds == REQUEUE_VT_SEC_LONG as int
                        && kind == RequeueKind::Long))
                },
                _ => true,
            }
        }),
{
}

/// Stop-with-stack ordering: under a well-formed handling of a `Stop`
/// event, the provisioning stack's teardown is requested only from the
/// state-inspection phase, in cloud-stack mode, and only once the cluster
/// has been observed not running.
pub proof fn lemma_stop_teardown_order(m: MachineView, obs: ObservationView)
    requires
        wf_machine(m),
        m.event_type == Event::Stop,
    ensures
        ({
            let (m2, a) = spec_step(m, obs);
            (a matches ActionView::Perform(EffectRequestView::DeleteCloudStack { namespace: _ }))
                ==> {
                &&& m.phase == Phase::AwaitState
                &&& m.cfg.cloud_stack_enabled()
                &&& (obs matches ObservationView::Observed { spec, status } && status is Some
                    && !status.unwrap().running)
            }
        }),
{
}

} // verus!

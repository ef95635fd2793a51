//! What a reconcile does: effects on the cluster, in order, and when to look
//! again. An effect that fails ends the reconcile, unless its failure is of no
//! account.

use vstd::prelude::*;

use crate::collections;
use crate::controller::pod;
use crate::controller::pod::{PodBuildError, PodBuildErrorView};
use crate::k8s::{ApiError, Condition, ConditionView, Pod, PodView, Service, ServiceView};
use crate::sandbox::{SandboxStatus, StatusView};

verus! {

/// When to look at a sandbox again.
#[derive(Clone, Copy, Debug, PartialEq, Eq, Structural)]
pub enum Action {
    /// When it or its pod changes.
    AwaitChange,
    /// After this long, at the latest.
    Requeue { secs: u64, millis: u64 },
}

/// Re-check cadence while a pod is Pending. The watch normally reports the pod the
/// instant it runs; this only backstops a late event, so it is short.
pub const REQUEUE_WHILE_PENDING_MILLIS: u64 = 500;

/// Pause after a reconcile that failed, in seconds.
pub const REQUEUE_AFTER_ERROR_SECS: u64 = 5;

/// Look again shortly: the pod is on its way.
pub open spec fn soon() -> Action {
    Action::Requeue { secs: 0, millis: REQUEUE_WHILE_PENDING_MILLIS }
}

/// Look again shortly: the pod is on its way.
pub fn requeue_soon() -> (a: Action)
    ensures
        a == soon(),
{
    Action::Requeue { secs: 0, millis: REQUEUE_WHILE_PENDING_MILLIS }
}

#[derive(Clone, Copy, Debug, PartialEq, Eq, Structural)]
pub enum EventType {
    Normal,
    Warning,
}

/// A Kubernetes event about a sandbox.
#[derive(Debug, PartialEq)]
pub struct Event {
    pub type_: EventType,
    pub reason: String,
    pub note: String,
    pub action: String,
}

#[verifier::ext_equal]
pub struct EventView {
    pub type_: EventType,
    pub reason: Seq<char>,
    pub note: Seq<char>,
    pub action: Seq<char>,
}

impl View for Event {
    type V = EventView;

    open spec fn view(&self) -> EventView {
        EventView {
            type_: self.type_,
            reason: self.reason@,
            note: self.note@,
            action: self.action@,
        }
    }
}

/// An event whose action is its reason: lifecycle events do not tell them apart.
pub open spec fn event_view(type_: EventType, reason: Seq<char>, note: Seq<char>) -> EventView {
    EventView { type_, reason, note, action: reason }
}

/// An event whose action is its reason.
pub fn event(type_: EventType, reason: &str, note: &str) -> (e: Event)
    ensures
        e@ == event_view(type_, reason@, note@),
{
    Event { type_, reason: reason.to_owned(), note: note.to_owned(), action: reason.to_owned() }
}

/// A change to the cluster. The patches are merge patches of the status: a field
/// that one leaves out stays as it is.
#[derive(Debug, PartialEq)]
pub enum Effect {
    ApplyPod(Pod),
    ApplyService(Service),
    /// Record this status.
    PatchStatus(SandboxStatus),
    /// Record these conditions, and nothing else.
    PatchConditions(Vec<Condition>),
    /// Record what a resize has applied, and these conditions.
    PatchResize {
        applied_cpus: Option<u32>,
        applied_memory: Option<u32>,
        conditions: Vec<Condition>,
    },
    Publish(Event),
    DeletePod(String),
    DeleteService(String),
    DeleteSandbox,
}

#[verifier::ext_equal]
pub enum EffectView {
    ApplyPod(PodView),
    ApplyService(ServiceView),
    PatchStatus(StatusView),
    PatchConditions(Seq<ConditionView>),
    PatchResize {
        applied_cpus: Option<u32>,
        applied_memory: Option<u32>,
        conditions: Seq<ConditionView>,
    },
    Publish(EventView),
    DeletePod(Seq<char>),
    DeleteService(Seq<char>),
    DeleteSandbox,
}

impl View for Effect {
    type V = EffectView;

    open spec fn view(&self) -> EffectView {
        match *self {
            Effect::ApplyPod(p) => EffectView::ApplyPod(p@),
            Effect::ApplyService(s) => EffectView::ApplyService(s@),
            Effect::PatchStatus(s) => EffectView::PatchStatus(s@),
            Effect::PatchConditions(cs) => EffectView::PatchConditions(collections::views(cs@)),
            Effect::PatchResize {
                applied_cpus,
                applied_memory,
                conditions,
            } => EffectView::PatchResize {
                applied_cpus,
                applied_memory,
                conditions: collections::views(conditions@),
            },
            Effect::Publish(e) => EffectView::Publish(e@),
            Effect::DeletePod(n) => EffectView::DeletePod(n@),
            Effect::DeleteService(n) => EffectView::DeleteService(n@),
            Effect::DeleteSandbox => EffectView::DeleteSandbox,
        }
    }
}

/// What a reconcile does.
#[derive(Debug, PartialEq)]
pub struct Plan {
    pub effects: Vec<Effect>,
    pub action: Action,
}

#[verifier::ext_equal]
pub struct PlanView {
    pub effects: Seq<EffectView>,
    pub action: Action,
}

impl View for Plan {
    type V = PlanView;

    open spec fn view(&self) -> PlanView {
        PlanView { effects: collections::views(self.effects@), action: self.action }
    }
}

/// The plan that only waits.
pub open spec fn idle_view(action: Action) -> PlanView {
    PlanView { effects: Seq::empty(), action }
}

/// The plan that only waits.
pub fn idle(action: Action) -> (p: Plan)
    ensures
        p@ == idle_view(action),
{
    let p = Plan { effects: Vec::new(), action };
    assert(p@.effects =~= Seq::empty());
    p
}

/// Keep a terminal sandbox so its exit code and reason stay readable; cleanup is
/// the user's, or an opt-in expiry.
pub fn finish() -> (a: Action)
    ensures
        a == Action::AwaitChange,
{
    Action::AwaitChange
}

/// The plan that records a status and publishes an event.
pub open spec fn settle_view(status: StatusView, event: EventView, action: Action) -> PlanView {
    PlanView {
        effects: seq![EffectView::PatchStatus(status), EffectView::Publish(event)],
        action,
    }
}

/// The plan that records a status and publishes an event.
pub fn settle(status: SandboxStatus, event: Event, action: Action) -> (p: Plan)
    ensures
        p@ == settle_view(status@, event@, action),
{
    let mut effects: Vec<Effect> = Vec::new();
    effects.push(Effect::PatchStatus(status));
    effects.push(Effect::Publish(event));
    let p = Plan { effects, action };
    assert(p@.effects =~= seq![EffectView::PatchStatus(status@), EffectView::Publish(event@)]);
    p
}

/// The plan of one effect.
pub fn single(effect: Effect, action: Action) -> (p: Plan)
    ensures
        p@ == (PlanView { effects: seq![effect@], action }),
{
    let mut effects: Vec<Effect> = Vec::new();
    effects.push(effect);
    let p = Plan { effects, action };
    assert(p@.effects =~= seq![effect@]);
    p
}

/// The plan that does one thing more at the end.
pub fn and_do(plan: Plan, effect: Effect) -> (p: Plan)
    ensures
        p@ == (PlanView { effects: plan@.effects.push(effect@), action: plan@.action }),
{
    let ghost before = plan@;
    let mut effects = plan.effects;
    effects.push(effect);
    let p = Plan { effects, action: plan.action };
    assert(p@.effects =~= before.effects.push(effect@));
    p
}

/// The plan that does one thing more in front.
pub fn do_first(effect: Effect, plan: Plan) -> (p: Plan)
    ensures
        p@ == (PlanView { effects: seq![effect@] + plan@.effects, action: plan@.action }),
{
    let ghost before = plan@;
    let mut effects = plan.effects;
    effects.insert(0, effect);
    let p = Plan { effects, action: plan.action };
    assert(p@.effects =~= seq![effect@] + before.effects);
    p
}

/// Whether the object of a request was not there.
pub fn is_not_found(err: &ApiError) -> (r: bool)
    ensures
        r == (err.code == Some(404u16)),
{
    match err.code {
        Some(c) => c == 404,
        None => false,
    }
}

/// Why a reconcile failed.
#[derive(Debug, PartialEq)]
#[allow(inconsistent_fields)]
pub enum Error {
    BuildPod { sandbox: String, source: PodBuildError },
    ApplyPod { sandbox: String, pod: String, source: ApiError },
    ApplyService { sandbox: String, service: String, source: ApiError },
    DeletePod { sandbox: String, pod: String, source: ApiError },
    DeleteService { sandbox: String, service: String, source: ApiError },
    PatchStatus { sandbox: String, source: ApiError },
    DeleteSandbox { sandbox: String, source: ApiError },
    MissingObjectKey { sandbox: String, key: &'static str },
}

#[verifier::ext_equal]
#[allow(inconsistent_fields)]
pub enum ErrorView {
    BuildPod { sandbox: Seq<char>, source: PodBuildErrorView },
    ApplyPod { sandbox: Seq<char>, pod: Seq<char>, source: Seq<char> },
    ApplyService { sandbox: Seq<char>, service: Seq<char>, source: Seq<char> },
    DeletePod { sandbox: Seq<char>, pod: Seq<char>, source: Seq<char> },
    DeleteService { sandbox: Seq<char>, service: Seq<char>, source: Seq<char> },
    PatchStatus { sandbox: Seq<char>, source: Seq<char> },
    DeleteSandbox { sandbox: Seq<char>, source: Seq<char> },
    MissingObjectKey { sandbox: Seq<char>, key: Seq<char> },
}

impl View for Error {
    type V = ErrorView;

    open spec fn view(&self) -> ErrorView {
        match *self {
            Error::BuildPod { sandbox, source } => ErrorView::BuildPod {
                sandbox: sandbox@,
                source: source@,
            },
            Error::ApplyPod { sandbox, pod, source } => ErrorView::ApplyPod {
                sandbox: sandbox@,
                pod: pod@,
                source: source.message@,
            },
            Error::ApplyService { sandbox, service, source } => ErrorView::ApplyService {
                sandbox: sandbox@,
                service: service@,
                source: source.message@,
            },
            Error::DeletePod { sandbox, pod, source } => ErrorView::DeletePod {
                sandbox: sandbox@,
                pod: pod@,
                source: source.message@,
            },
            Error::DeleteService { sandbox, service, source } => ErrorView::DeleteService {
                sandbox: sandbox@,
                service: service@,
                source: source.message@,
            },
            Error::PatchStatus { sandbox, source } => ErrorView::PatchStatus {
                sandbox: sandbox@,
                source: source.message@,
            },
            Error::DeleteSandbox { sandbox, source } => ErrorView::DeleteSandbox {
                sandbox: sandbox@,
                source: source.message@,
            },
            Error::MissingObjectKey { sandbox, key } => ErrorView::MissingObjectKey {
                sandbox: sandbox@,
                key: key@,
            },
        }
    }
}

/// What an error says.
pub open spec fn error_text(e: ErrorView) -> Seq<char> {
    match e {
        ErrorView::BuildPod { sandbox, source } => "building pod for sandbox "@ + sandbox + ": "@
            + pod::build_error_text(source),
        ErrorView::ApplyPod { sandbox, pod, source } => "applying pod "@ + pod + " for sandbox "@
            + sandbox + ": "@ + source,
        ErrorView::ApplyService { sandbox, service, source } => "applying service "@ + service
            + " for sandbox "@ + sandbox + ": "@ + source,
        ErrorView::DeletePod { sandbox, pod, source } => "deleting pod "@ + pod + " for sandbox "@
            + sandbox + ": "@ + source,
        ErrorView::DeleteService { sandbox, service, source } => "deleting service "@ + service
            + " for sandbox "@ + sandbox + ": "@ + source,
        ErrorView::PatchStatus { sandbox, source } => "patching status of sandbox "@ + sandbox
            + ": "@ + source,
        ErrorView::DeleteSandbox { sandbox, source } => "deleting ephemeral sandbox "@ + sandbox
            + ": "@ + source,
        ErrorView::MissingObjectKey { sandbox, key } => "sandbox "@ + sandbox
            + " is missing .metadata."@ + key,
    }
}

impl Error {
    /// The error in words.
    pub fn message(&self) -> (out: String)
        ensures
            out@ == error_text(self@),
    {
        match self {
            Error::BuildPod { sandbox, source } => "building pod for sandbox ".to_owned().concat(
                sandbox.as_str(),
            ).concat(": ").concat(source.message().as_str()),
            Error::ApplyPod { sandbox, pod, source } => "applying pod ".to_owned().concat(
                pod.as_str(),
            ).concat(" for sandbox ").concat(sandbox.as_str()).concat(": ").concat(
                source.message.as_str(),
            ),
            Error::ApplyService {
                sandbox,
                service,
                source,
            } => "applying service ".to_owned().concat(service.as_str()).concat(
                " for sandbox ",
            ).concat(sandbox.as_str()).concat(": ").concat(source.message.as_str()),
            Error::DeletePod { sandbox, pod, source } => "deleting pod ".to_owned().concat(
                pod.as_str(),
            ).concat(" for sandbox ").concat(sandbox.as_str()).concat(": ").concat(
                source.message.as_str(),
            ),
            Error::DeleteService {
                sandbox,
                service,
                source,
            } => "deleting service ".to_owned().concat(service.as_str()).concat(
                " for sandbox ",
            ).concat(sandbox.as_str()).concat(": ").concat(source.message.as_str()),
            Error::PatchStatus { sandbox, source } => "patching status of sandbox ".to_owned().concat(
                sandbox.as_str(),
            ).concat(": ").concat(source.message.as_str()),
            Error::DeleteSandbox {
                sandbox,
                source,
            } => "deleting ephemeral sandbox ".to_owned().concat(sandbox.as_str()).concat(
                ": ",
            ).concat(source.message.as_str()),
            Error::MissingObjectKey { sandbox, key } => "sandbox ".to_owned().concat(
                sandbox.as_str(),
            ).concat(" is missing .metadata.").concat(key),
        }
    }
}

/// What to do after an error: a malformed object will not fix itself, so that one
/// waits for the user to change it; any other reconcile is tried again.
pub fn error_policy(error: &Error) -> (a: Action)
    ensures
        a == (if error is BuildPod || error is MissingObjectKey {
            Action::AwaitChange
        } else {
            Action::Requeue { secs: REQUEUE_AFTER_ERROR_SECS, millis: 0 }
        }),
{
    match error {
        Error::BuildPod { .. } => Action::AwaitChange,
        Error::MissingObjectKey { .. } => Action::AwaitChange,
        _ => Action::Requeue { secs: REQUEUE_AFTER_ERROR_SECS, millis: 0 },
    }
}

/// What a failed effect means. An event that is not published is of no account,
/// and what is to be deleted may already be gone; any other failure is the error
/// of the reconcile.
pub open spec fn failure_of(
    effect: EffectView,
    sandbox: Seq<char>,
    not_found: bool,
    source: Seq<char>,
) -> Option<ErrorView> {
    match effect {
        EffectView::Publish(_) => None,
        EffectView::ApplyPod(p) => Some(
            ErrorView::ApplyPod { sandbox, pod: meta_name(p.metadata), source },
        ),
        EffectView::ApplyService(s) => Some(
            ErrorView::ApplyService { sandbox, service: meta_name(s.metadata), source },
        ),
        EffectView::DeletePod(pod) => if not_found {
            None
        } else {
            Some(ErrorView::DeletePod { sandbox, pod, source })
        },
        EffectView::DeleteService(service) => if not_found {
            None
        } else {
            Some(ErrorView::DeleteService { sandbox, service, source })
        },
        EffectView::DeleteSandbox => if not_found {
            None
        } else {
            Some(ErrorView::DeleteSandbox { sandbox, source })
        },
        EffectView::PatchStatus(_) | EffectView::PatchConditions(_) | EffectView::PatchResize {
            ..
        } => Some(ErrorView::PatchStatus { sandbox, source }),
    }
}

/// The name of an object, else the prefix of a name to be generated, else nothing.
pub open spec fn meta_name(m: crate::k8s::ObjectMetaView) -> Seq<char> {
    match (m.name, m.generate_name) {
        (Some(n), _) => n,
        (None, Some(g)) => g,
        (None, None) => Seq::empty(),
    }
}

/// What a failed effect means: the error of the reconcile, or nothing.
pub fn effect_failed(effect: &Effect, sandbox: &str, source: ApiError) -> (r: Option<Error>)
    ensures
        collections::opt(r) == failure_of(
            effect@,
            sandbox@,
            source.code == Some(404u16),
            source.message@,
        ),
{
    match effect {
        Effect::Publish(_) => None,
        Effect::ApplyPod(p) => Some(
            Error::ApplyPod { sandbox: sandbox.to_owned(), pod: p.metadata.name_any(), source },
        ),
        Effect::ApplyService(s) => Some(
            Error::ApplyService {
                sandbox: sandbox.to_owned(),
                service: s.metadata.name_any(),
                source,
            },
        ),
        Effect::DeletePod(pod) => if is_not_found(&source) {
            None
        } else {
            Some(Error::DeletePod { sandbox: sandbox.to_owned(), pod: pod.clone(), source })
        },
        Effect::DeleteService(service) => if is_not_found(&source) {
            None
        } else {
            Some(
                Error::DeleteService {
                    sandbox: sandbox.to_owned(),
                    service: service.clone(),
                    source,
                },
            )
        },
        Effect::DeleteSandbox => if is_not_found(&source) {
            None
        } else {
            Some(Error::DeleteSandbox { sandbox: sandbox.to_owned(), source })
        },
        _ => Some(Error::PatchStatus { sandbox: sandbox.to_owned(), source }),
    }
}

/// The error of a reconcile that could not look up the pod of the sandbox.
pub fn lookup_failed(sandbox: &str, source: ApiError) -> (e: Error)
    ensures
        e@ == (ErrorView::ApplyPod {
            sandbox: sandbox@,
            pod: pod::pod_name_of(sandbox@),
            source: source.message@,
        }),
{
    Error::ApplyPod { sandbox: sandbox.to_owned(), pod: pod::pod_name(sandbox), source }
}

/// A failure is of no account only where an event was not published, or where what was to
/// be deleted was already gone. Any other is told of the sandbox and the object that it
/// was about, with what the API server said.
pub proof fn a_failure_is_told_of_its_object(
    effect: EffectView,
    sandbox: Seq<char>,
    not_found: bool,
    source: Seq<char>,
)
    ensures
        ({
            let e = failure_of(effect, sandbox, not_found, source);
            &&& e is None <==> effect is Publish || not_found && (effect is DeletePod
                || effect is DeleteService || effect is DeleteSandbox)
            &&& effect matches EffectView::ApplyPod(p) ==> e == Some(
                ErrorView::ApplyPod { sandbox, pod: meta_name(p.metadata), source },
            )
            &&& effect matches EffectView::ApplyService(s) ==> e == Some(
                ErrorView::ApplyService { sandbox, service: meta_name(s.metadata), source },
            )
            &&& e is Some && effect is DeletePod ==> e == Some(
                ErrorView::DeletePod { sandbox, pod: effect->DeletePod_0, source },
            )
            &&& e is Some && effect is DeleteService ==> e == Some(
                ErrorView::DeleteService { sandbox, service: effect->DeleteService_0, source },
            )
            &&& e is Some && effect is DeleteSandbox ==> e == Some(
                ErrorView::DeleteSandbox { sandbox, source },
            )
            &&& effect is PatchStatus || effect is PatchConditions || effect is PatchResize ==> e
                == Some(ErrorView::PatchStatus { sandbox, source })
        }),
{
}

} // verus!

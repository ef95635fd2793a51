//! Observing pods and deciding what to do with a sandbox.

use msb_operator::controller::conditions::{self, READY, RESTART_REQUIRED};
use msb_operator::controller::config::{
    ConfigError, ControllerConfig, MSB_HOME_MAX_BYTES,
};
use msb_operator::controller::leader::{
    after_acquire, after_renew, give_up_text, renew_interval, AcquireStep, Attempt, RenewStep,
};
use msb_operator::controller::observe::{
    bridge_ready, desired_stopped, is_expired, is_terminal, parse_termination_reason, pod_phase,
    reason_from_pod, requeue_until, resize_pending, retry_backoff, runtime_exit_code,
    runtime_terminated, terminated_at, termination_reason, was_running, ANN_TERMINATED_AT,
    ANN_TERMINATION_REASON,
};
use msb_operator::controller::plan::{
    effect_failed, error_policy, is_not_found, Action, Effect, Error, EventType, Plan,
};
use msb_operator::controller::reconcile::{
    handle_vanished_pod, is_restart_due, reconcile, reconcile_resize, retrying, running_action, terminate,
    ResizeReplies, Step,
};
use msb_operator::controller::resize::ResizeError;
use msb_operator::controller::service::service_name;
use msb_operator::k8s::{
    ApiError, Condition, ContainerStateTerminated, ContainerStatus, ObjectMeta, Pod, PodStatus,
};
use msb_operator::sandbox::{
    DesiredState, PortProtocol, PublishedPort, RunPolicy, Sandbox, SandboxPhase, SandboxSpec,
    SandboxStatus, ShutdownPolicy, TerminationReason,
};
use msb_operator::time::{parse_timestamp, Time};

fn spec() -> SandboxSpec {
    SandboxSpec {
        image: "python:3.12".to_string(),
        desired_state: Default::default(),
        cpus: 2,
        memory: 1024,
        max_cpus: None,
        max_memory: None,
        cmd: vec!["python".to_string(), "script.py".to_string()],
        entrypoint: Vec::new(),
        env: Vec::new(),
        workdir: None,
        shell: None,
        user: None,
        hostname: None,
        ephemeral: true,
        lifecycle: Default::default(),
        max_duration_secs: None,
        idle_timeout_secs: None,
        run_policy: Default::default(),
        secrets: Vec::new(),
        network: Default::default(),
        upper: Default::default(),
        security_profile: Default::default(),
        rlimits: Vec::new(),
        logging: Default::default(),
    }
}

fn sandbox() -> Sandbox {
    Sandbox {
        metadata: ObjectMeta {
            name: Some("my-sandbox".to_string()),
            namespace: Some("team-a".to_string()),
            uid: Some("d1e2f3a4-0000-0000-0000-000000000000".to_string()),
            ..Default::default()
        },
        spec: spec(),
        status: None,
    }
}

fn config() -> ControllerConfig {
    ControllerConfig::new(
        "/msb".to_string(),
        "ghcr.io/msb/runtime:dev".to_string(),
        "ghcr.io/msb/bridge:dev".to_string(),
        7000,
    )
    .expect("valid test config")
    .with_kvm_gid(104)
}

fn sandbox_with_ports(ports: &[u16]) -> Sandbox {
    let mut sb = sandbox();
    sb.spec.network.published_ports = ports
        .iter()
        .map(|p| PublishedPort {
            guest_port: *p,
            host_port: None,
            protocol: PortProtocol::Tcp,
            host_bind: "0.0.0.0".to_string(),
        })
        .collect();
    sb
}

const SPEC_JSON: &str = r#"{"image":"python:3.12"}"#;

fn ts(s: &str) -> Time {
    parse_timestamp(s).unwrap()
}

fn now() -> Time {
    ts("2026-07-17T10:05:00Z")
}

fn empty_pod() -> Pod {
    Pod { metadata: ObjectMeta::default(), spec: None, status: None }
}

fn status_of(phase: Option<&str>) -> PodStatus {
    PodStatus {
        phase: phase.map(String::from),
        reason: None,
        container_statuses: Vec::new(),
        init_container_statuses: Vec::new(),
    }
}

fn pod_with_phase(phase: &str) -> Pod {
    let mut pod = empty_pod();
    pod.metadata.name = Some("sandbox-my-sandbox".to_string());
    pod.status = Some(status_of(Some(phase)));
    pod
}

fn exited(name: &str, reason: Option<&str>, exit_code: i32) -> ContainerStatus {
    ContainerStatus {
        name: name.to_string(),
        ready: false,
        terminated: Some(ContainerStateTerminated { exit_code, reason: reason.map(String::from) }),
    }
}

fn alive(name: &str, ready: bool) -> ContainerStatus {
    ContainerStatus { name: name.to_string(), ready, terminated: None }
}

/// A pod whose msb-runtime container terminated with the given reason and exit code.
fn pod_terminated(reason: Option<&str>, exit_code: i32) -> Pod {
    let mut pod = pod_with_phase("Failed");
    pod.status.as_mut().unwrap().container_statuses =
        vec![exited("msb-runtime", reason, exit_code)];
    pod
}

/// A pod still Running (bridge sidecar alive) whose msb-runtime has terminated.
fn pod_running_but_runtime_dead(exit_code: i32) -> Pod {
    let mut pod = pod_with_phase("Running");
    let reason = if exit_code == 0 { "Completed" } else { "Error" };
    pod.status.as_mut().unwrap().container_statuses =
        vec![alive("msb-bridge", false), exited("msb-runtime", Some(reason), exit_code)];
    pod
}

fn pod_up() -> Pod {
    let mut pod = pod_with_phase("Running");
    pod.status.as_mut().unwrap().init_container_statuses = vec![alive("msb-bridge", true)];
    pod
}

fn in_phase(phase: SandboxPhase) -> Sandbox {
    let mut sb = sandbox();
    sb.status = Some(SandboxStatus { phase: Some(phase), ..Default::default() });
    sb
}

fn done(step: Result<Step, Error>) -> Plan {
    match step.unwrap() {
        Step::Done(p) => p,
        other => panic!("not done: {other:?}"),
    }
}

fn recorded(plan: &Plan) -> &SandboxStatus {
    plan.effects
        .iter()
        .find_map(|e| match e {
            Effect::PatchStatus(s) => Some(s),
            _ => None,
        })
        .expect("a status")
}

fn run(sb: &Sandbox, pod: Option<&Pod>) -> Plan {
    done(reconcile(sb, pod, &config(), now(), Ok(SPEC_JSON.to_string())))
}

fn cond(status: &str, at: &str) -> Condition {
    Condition {
        type_: READY.to_string(),
        status: status.to_string(),
        reason: "R".to_string(),
        message: "m".to_string(),
        last_transition_time: ts(at),
        observed_generation: None,
    }
}

#[test]
fn insert_then_update_in_place_by_type() {
    let mut v = Vec::new();
    conditions::set(&mut v, cond("True", "2026-01-01T00:00:00Z"));
    conditions::set(&mut v, cond("True", "2026-01-02T00:00:00Z"));
    assert_eq!(v.len(), 1);
}

#[test]
fn same_status_keeps_original_transition_time() {
    let mut v = vec![cond("True", "2026-01-01T00:00:00Z")];
    conditions::set(&mut v, cond("True", "2026-01-02T00:00:00Z"));
    assert_eq!(v[0].last_transition_time, ts("2026-01-01T00:00:00Z"));
}

#[test]
fn status_flip_stamps_new_transition_time() {
    let mut v = vec![cond("True", "2026-01-01T00:00:00Z")];
    conditions::set(&mut v, cond("False", "2026-01-02T00:00:00Z"));
    assert_eq!(v[0].last_transition_time, ts("2026-01-02T00:00:00Z"));
    assert_eq!(v[0].status, "False");
}

#[test]
fn setting_one_condition_leaves_the_others() {
    let mut v = vec![cond("True", "2026-01-01T00:00:00Z")];
    conditions::set(&mut v, conditions::restart_required(true, "X", "y", Some(3), now()));
    assert_eq!(v.len(), 2);
    assert_eq!(v[0], cond("True", "2026-01-01T00:00:00Z"));
    assert_eq!(v[1].type_, RESTART_REQUIRED);
    assert_eq!(v[1].status, "True");
    assert_eq!(v[1].observed_generation, Some(3));
    // Setting the same condition again changes nothing.
    let again = conditions::restart_required(true, "X", "y", Some(3), now());
    conditions::set(&mut v, again);
    assert_eq!(v.len(), 2);
    assert_eq!(v[1].last_transition_time, now());
}

fn config_with_home(home: &str) -> Result<ControllerConfig, ConfigError> {
    ControllerConfig::new(
        home.to_string(),
        "runtime:dev".to_string(),
        "bridge:dev".to_string(),
        7000,
    )
}

#[test]
fn accepts_a_short_absolute_home() {
    let cfg = config_with_home("/var/lib/msb").expect("valid home");
    assert_eq!(cfg.msb_home(), "/var/lib/msb");
}

#[test]
fn accepts_home_at_exactly_the_limit() {
    let home = format!("/{}", "a".repeat(MSB_HOME_MAX_BYTES - 1));
    assert_eq!(home.len(), MSB_HOME_MAX_BYTES);
    assert!(config_with_home(&home).is_ok());
}

#[test]
fn rejects_home_one_byte_over_the_limit() {
    let home = format!("/{}", "a".repeat(MSB_HOME_MAX_BYTES));
    assert_eq!(home.len(), MSB_HOME_MAX_BYTES + 1);
    assert!(matches!(config_with_home(&home), Err(ConfigError::MsbHomeTooLong { .. })));
}

#[test]
fn rejects_relative_home() {
    assert!(matches!(config_with_home("var/lib/msb"), Err(ConfigError::MsbHomeNotAbsolute(_))));
}

#[test]
fn a_copy_of_the_settings_keeps_the_home() {
    let cfg = config_with_home("/var/lib/msb").unwrap().with_runtime_log("debug".to_string());
    let copy = cfg.clone().with_bridge_control_port(9090).with_kvm_gid(107).clone();
    assert_eq!(copy.msb_home(), "/var/lib/msb");
    assert_eq!(copy.runtime_log, "debug");
    assert_eq!((copy.bridge_control_port, copy.kvm_gid), (9090, Some(107)));
    assert_eq!((cfg.bridge_control_port, cfg.kvm_gid), (8080, None));
    assert_eq!(cfg.clone(), cfg);
}

#[test]
fn the_limit_on_a_home_counts_bytes() {
    // Thirty two-byte characters make sixty bytes.
    let home = format!("/{}", "\u{e9}".repeat(30));
    let e = config_with_home(&home).err().unwrap();
    assert!(matches!(e, ConfigError::MsbHomeTooLong { len: 61, .. }));
    assert!(e.message().contains("61"));
}

#[test]
fn runtime_death_is_detected_while_pod_still_running() {
    let pod = pod_running_but_runtime_dead(1);
    assert_eq!(pod_phase(&pod), Some("Running"), "pod is still Running");
    assert!(runtime_terminated(&pod), "runtime exit must be seen anyway");
    assert_eq!(runtime_exit_code(&pod), Some(1));

    let live = pod_with_phase("Running");
    assert!(!runtime_terminated(&live));
    assert_eq!(runtime_exit_code(&live), None);
}

#[test]
fn clean_runtime_exit_is_succeeded_even_if_pod_reads_running() {
    let pod = pod_running_but_runtime_dead(0);
    assert_eq!(runtime_exit_code(&pod), Some(0));
    assert_eq!(reason_from_pod(&pod), Some(TerminationReason::Completed));
    let plan = run(&in_phase(SandboxPhase::Running), Some(&pod));
    assert_eq!(recorded(&plan).phase, Some(SandboxPhase::Succeeded));
}

#[test]
fn reads_phase_from_pod_status() {
    assert_eq!(pod_phase(&pod_with_phase("Running")), Some("Running"));
    assert_eq!(pod_phase(&empty_pod()), None);
}

#[test]
fn bridge_ready_tracks_the_sidecar_probe() {
    let with_bridge = |ready: bool| {
        let mut pod = empty_pod();
        let mut status = status_of(None);
        status.init_container_statuses = vec![alive("msb-bridge", ready)];
        pod.status = Some(status);
        pod
    };
    assert!(bridge_ready(&with_bridge(true)));
    assert!(!bridge_ready(&with_bridge(false)));
    assert!(!bridge_ready(&pod_with_phase("Running")));
}

#[test]
fn derives_oomkilled_from_container_reason() {
    let pod = pod_terminated(Some("OOMKilled"), 137);
    assert_eq!(reason_from_pod(&pod), Some(TerminationReason::OomKilled));
}

#[test]
fn derives_completed_on_clean_exit() {
    let pod = pod_terminated(Some("Completed"), 0);
    assert_eq!(reason_from_pod(&pod), Some(TerminationReason::Completed));
}

#[test]
fn derives_failed_on_error_exit() {
    let pod = pod_terminated(Some("Error"), 1);
    assert_eq!(reason_from_pod(&pod), Some(TerminationReason::Failed));
}

#[test]
fn derives_evicted_from_pod_reason() {
    let mut pod = pod_terminated(None, 0);
    pod.status.as_mut().unwrap().reason = Some("Evicted".to_string());
    assert_eq!(reason_from_pod(&pod), Some(TerminationReason::Evicted));
}

#[test]
fn no_terminated_container_yields_none() {
    assert_eq!(reason_from_pod(&pod_with_phase("Running")), None);
}

#[test]
fn terminal_only_for_succeeded_and_failed() {
    assert!(!is_terminal(&sandbox()), "no status is not terminal");
    for (phase, expected) in [
        (SandboxPhase::Pending, false),
        (SandboxPhase::Running, false),
        (SandboxPhase::Stopped, false),
        (SandboxPhase::Succeeded, true),
        (SandboxPhase::Failed, true),
    ] {
        assert_eq!(is_terminal(&in_phase(phase)), expected, "{phase:?}");
    }
}

#[test]
fn desired_stopped_reads_the_spec_field() {
    let mut sb = sandbox();
    assert!(!desired_stopped(&sb), "default is Running");
    sb.spec.desired_state = DesiredState::Stopped;
    assert!(desired_stopped(&sb));
}

#[test]
fn stopped_phase_is_not_a_vanished_pod() {
    assert!(!was_running(&in_phase(SandboxPhase::Stopped)));
}

#[test]
fn exit_code_comes_from_the_runtime_container() {
    let mut pod = pod_with_phase("Failed");
    pod.status.as_mut().unwrap().container_statuses =
        vec![exited("msb-bridge", None, 7), exited("msb-runtime", None, 42)];
    assert_eq!(runtime_exit_code(&pod), Some(42), "must not pick up the bridge's exit code");
}

#[test]
fn parses_the_daemon_termination_annotation() {
    let mut pod = pod_with_phase("Succeeded");
    pod.metadata.annotations.insert(ANN_TERMINATION_REASON.to_string(), "Completed".to_string());
    let reason = pod
        .metadata
        .annotations
        .get(ANN_TERMINATION_REASON)
        .and_then(|r| parse_termination_reason(r));
    assert_eq!(reason, Some(TerminationReason::Completed));
    assert_eq!(termination_reason(&pod), Some(TerminationReason::Completed));
}

#[test]
fn missing_annotation_yields_no_reason_rather_than_a_wrong_one() {
    let pod = pod_with_phase("Failed");
    let reason = pod
        .metadata
        .annotations
        .get(ANN_TERMINATION_REASON)
        .and_then(|r| parse_termination_reason(r));
    assert_eq!(reason, None);
    assert_eq!(termination_reason(&pod), None);
}

#[test]
fn unknown_reason_is_dropped_not_errored() {
    assert_eq!(parse_termination_reason("Completed"), Some(TerminationReason::Completed));
    assert_eq!(parse_termination_reason("SomethingMsbAddedLater"), None);
}

#[test]
fn the_annotated_reason_comes_before_the_status() {
    let mut pod = pod_terminated(Some("Error"), 1);
    pod.metadata.annotations.insert(ANN_TERMINATION_REASON.to_string(), "IdleTimeout".to_string());
    assert_eq!(termination_reason(&pod), Some(TerminationReason::IdleTimeout));
    pod.metadata.annotations.insert(ANN_TERMINATION_REASON.to_string(), "Nonsense".to_string());
    assert_eq!(termination_reason(&pod), Some(TerminationReason::Failed));
}

#[test]
fn the_annotated_end_comes_before_the_clock() {
    let mut pod = pod_terminated(Some("Error"), 1);
    assert_eq!(terminated_at(&pod, now()), now());
    pod.metadata
        .annotations
        .insert(ANN_TERMINATED_AT.to_string(), "2026-07-17T10:04:00Z".to_string());
    assert_eq!(terminated_at(&pod, now()), ts("2026-07-17T10:04:00Z"));
    pod.metadata.annotations.insert(ANN_TERMINATED_AT.to_string(), "yesterday".to_string());
    assert_eq!(terminated_at(&pod, now()), now());
}

#[test]
fn terminate_status_preserves_fields_set_while_running() {
    let started = ts("2026-07-17T10:00:00Z");
    let mut sb = sandbox();
    sb.status = Some(SandboxStatus {
        phase: Some(SandboxPhase::Running),
        pod_name: Some("sandbox-my-sandbox".to_string()),
        node_name: Some("node-1".to_string()),
        started_at: Some(started),
        ..Default::default()
    });
    let plan = terminate(&sb, &pod_running_but_runtime_dead(0), now());
    let terminated = recorded(&plan);
    assert_eq!(terminated.started_at, Some(started));
    assert_eq!(terminated.node_name.as_deref(), Some("node-1"));
    assert_eq!(terminated.exit_code, Some(0));
    assert_eq!(terminated.termination_reason, Some(TerminationReason::Completed));
}

#[test]
fn retry_backoff_grows_then_caps() {
    assert_eq!(retry_backoff(0), 5);
    assert_eq!(retry_backoff(1), 10);
    assert_eq!(retry_backoff(3), 40);
    assert_eq!(retry_backoff(6), 300);
    assert_eq!(retry_backoff(100), 300);
}

#[test]
fn rerun_on_failure_retries_only_unclean_exits() {
    assert!(retrying(RunPolicy::RerunOnFailure, false), "unclean + policy");
    assert!(!retrying(RunPolicy::RerunOnFailure, true), "clean exit stops");
    assert!(!retrying(RunPolicy::Once, false), "Once never retries");
    assert!(!retrying(RunPolicy::Once, true));
}

#[test]
fn is_expired_only_when_a_past_deadline_is_set() {
    let mut sb = sandbox();
    assert!(!is_expired(&sb, now()), "no deadline never expires");
    sb.spec.lifecycle.shutdown_time = Some(ts("2000-01-01T00:00:00Z"));
    assert!(is_expired(&sb, now()), "past deadline is expired");
    sb.spec.lifecycle.shutdown_time = Some(ts("2999-01-01T00:00:00Z"));
    assert!(!is_expired(&sb, now()), "future deadline is not yet expired");
    sb.spec.lifecycle.shutdown_time = Some(now());
    assert!(is_expired(&sb, now()), "the deadline itself is expired");
}

#[test]
fn requeue_until_is_at_least_one_second_for_a_past_deadline() {
    assert_eq!(requeue_until(ts("2000-01-01T00:00:00Z"), now()), 1);
    assert_eq!(requeue_until(ts("2026-07-17T10:06:30Z"), now()), 90);
}

#[test]
fn running_action_requeues_only_with_a_deadline() {
    let mut sb = sandbox();
    assert_eq!(running_action(&sb, now()), Action::AwaitChange, "no deadline -> await change");
    sb.spec.lifecycle.shutdown_time = Some(ts("2999-01-01T00:00:00Z"));
    assert_ne!(
        running_action(&sb, now()),
        Action::AwaitChange,
        "deadline -> requeue so expiry fires on time"
    );
}

#[test]
fn was_running_reads_the_recorded_phase() {
    assert!(!was_running(&sandbox()), "no status");
    for (phase, expected) in [
        (SandboxPhase::Pending, false),
        (SandboxPhase::Running, true),
        (SandboxPhase::Succeeded, false),
        (SandboxPhase::Failed, false),
    ] {
        assert_eq!(was_running(&in_phase(phase)), expected, "{phase:?}");
    }
}

#[test]
fn resize_pending_is_false_with_no_status() {
    assert!(!resize_pending(&sandbox()), "never booted, nothing applied yet");
}

fn booted() -> Sandbox {
    let mut sb = sandbox();
    sb.status = Some(SandboxStatus {
        phase: Some(SandboxPhase::Running),
        applied_cpus: Some(sb.spec.cpus),
        applied_memory: Some(sb.spec.memory),
        service_name: Some("msb-svc".to_string()),
        ..Default::default()
    });
    sb
}

#[test]
fn resize_pending_is_false_when_spec_matches_applied() {
    assert!(!resize_pending(&booted()));
}

#[test]
fn resize_pending_is_true_when_cpus_or_memory_diverge() {
    let mut sb = booted();
    sb.spec.cpus += 1;
    assert!(resize_pending(&sb));
    let mut sb2 = booted();
    sb2.spec.memory += 1;
    assert!(resize_pending(&sb2));
}

fn api_error(code: u16) -> ApiError {
    ApiError { code: Some(code), message: "refused".to_string() }
}

#[test]
fn not_found_is_recognised_so_delete_is_idempotent() {
    assert!(is_not_found(&api_error(404)));
    assert!(!is_not_found(&api_error(409)));
    assert!(!is_not_found(&ApiError { code: None, message: "gone".to_string() }));
}

#[test]
fn a_new_sandbox_gets_a_pod_and_a_service() {
    let plan = run(&sandbox(), None);
    assert!(matches!(&plan.effects[0], Effect::ApplyPod(p)
        if p.metadata.name.as_deref() == Some("sandbox-my-sandbox")));
    assert!(matches!(&plan.effects[1], Effect::ApplyService(_)));
    assert_eq!(plan.effects.len(), 2);
    assert_eq!(plan.action, Action::Requeue { secs: 0, millis: 500 });
}

#[test]
fn a_sandbox_without_a_namespace_is_an_error() {
    let mut sb = sandbox();
    sb.metadata.namespace = None;
    let e = reconcile(&sb, None, &config(), now(), Ok(SPEC_JSON.to_string())).unwrap_err();
    assert!(matches!(&e, Error::MissingObjectKey { key: "namespace", .. }));
    assert_eq!(error_policy(&e), Action::AwaitChange);
}

#[test]
fn an_unbuildable_pod_is_an_error() {
    let e = reconcile(&sandbox(), None, &config(), now(), Err("deep".to_string())).unwrap_err();
    assert!(matches!(&e, Error::BuildPod { .. }));
    assert!(e.message().contains("my-sandbox"));
}

#[test]
fn a_terminal_sandbox_stays_without_a_pod() {
    for phase in [SandboxPhase::Succeeded, SandboxPhase::Failed] {
        let plan = run(&in_phase(phase), None);
        assert!(plan.effects.is_empty());
        assert_eq!(plan.action, Action::AwaitChange);
    }
}

#[test]
fn a_deadline_comes_before_everything_else() {
    let mut sb = in_phase(SandboxPhase::Running);
    sb.spec.lifecycle.shutdown_time = Some(ts("2026-07-17T10:00:00Z"));
    let plan = run(&sb, Some(&pod_running_but_runtime_dead(1)));
    assert!(matches!(&plan.effects[0], Effect::DeletePod(p) if p == "sandbox-my-sandbox"));
    let service = service_name("my-sandbox");
    assert!(matches!(&plan.effects[1], Effect::DeleteService(s) if *s == service));
    let s = recorded(&plan);
    assert_eq!(s.phase, Some(SandboxPhase::Succeeded));
    assert_eq!(s.termination_reason, Some(TerminationReason::Expired));

    sb.spec.lifecycle.shutdown_policy = ShutdownPolicy::Delete;
    let plan = run(&sb, None);
    assert_eq!(plan.effects.len(), 3);
    assert!(matches!(&plan.effects[1], Effect::DeleteService(s) if *s == service));
    assert!(matches!(plan.effects[2], Effect::DeleteSandbox));

    // Once it is recorded, it is not recorded again.
    sb.spec.lifecycle.shutdown_policy = ShutdownPolicy::Retain;
    sb.status.as_mut().unwrap().termination_reason = Some(TerminationReason::Expired);
    let plan = run(&sb, None);
    assert_eq!(plan.effects.len(), 2);
    assert!(matches!(&plan.effects[1], Effect::DeleteService(s) if *s == service));
}

#[test]
fn an_unclean_exit_is_retried_with_a_backoff() {
    let mut sb = in_phase(SandboxPhase::Running);
    sb.spec.run_policy = RunPolicy::RerunOnFailure;
    sb.status.as_mut().unwrap().restart_count = 2;
    let plan = run(&sb, Some(&pod_running_but_runtime_dead(1)));
    let s = recorded(&plan);
    assert_eq!(s.phase, Some(SandboxPhase::Pending));
    assert_eq!(s.restart_count, 3);
    assert_eq!(s.pod_name, None);
    assert_eq!(plan.action, Action::Requeue { secs: 20, millis: 0 });
    assert!(matches!(plan.effects.last(), Some(Effect::DeletePod(_))));
}

#[test]
fn once_lets_an_unclean_exit_settle() {
    let plan = run(&in_phase(SandboxPhase::Running), Some(&pod_running_but_runtime_dead(1)));
    let s = recorded(&plan);
    assert_eq!(s.phase, Some(SandboxPhase::Failed));
    assert_eq!(s.restart_count, 0);
    assert_eq!(s.exit_code, Some(1));
    assert_eq!(plan.action, Action::AwaitChange);
}

#[test]
fn a_vanished_pod_is_a_lost_node() {
    let mut sb = in_phase(SandboxPhase::Running);
    let plan = run(&sb, None);
    assert_eq!(recorded(&plan).termination_reason, Some(TerminationReason::NodeLost));
    assert_eq!(recorded(&plan).phase, Some(SandboxPhase::Failed));
    assert!(plan
        .effects
        .iter()
        .any(|e| matches!(e, Effect::Publish(ev) if ev.type_ == EventType::Warning)));

    sb.spec.run_policy = RunPolicy::RerunOnFailure;
    let plan = handle_vanished_pod(&sb, now());
    assert_eq!(recorded(&plan).phase, Some(SandboxPhase::Pending));
    assert_eq!(recorded(&plan).restart_count, 1);
    assert_eq!(plan.action, Action::Requeue { secs: 5, millis: 0 });
}

#[test]
fn a_full_restart_count_matters_only_where_a_restart_is_due() {
    let mut sb = in_phase(SandboxPhase::Running);
    sb.status.as_mut().unwrap().restart_count = u32::MAX;
    assert!(!is_restart_due(&sb, None, now()));
    assert_eq!(recorded(&run(&sb, None)).restart_count, u32::MAX);

    sb.spec.run_policy = RunPolicy::RerunOnFailure;
    assert!(is_restart_due(&sb, None, now()));
    assert!(!is_restart_due(&sb, Some(&pod_up()), now()));
    sb.spec.desired_state = DesiredState::Stopped;
    assert!(!is_restart_due(&sb, None, now()));
}

#[test]
fn a_stop_deletes_the_pod_and_is_no_failure() {
    let mut sb = in_phase(SandboxPhase::Running);
    sb.status.as_mut().unwrap().restart_count = 4;
    sb.spec.desired_state = DesiredState::Stopped;
    let plan = run(&sb, Some(&pod_up()));
    assert!(matches!(&plan.effects[0], Effect::DeletePod(_)));
    assert_eq!(recorded(&plan).phase, Some(SandboxPhase::Stopped));
    assert_eq!(recorded(&plan).restart_count, 4);

    // A pod on its way out is not deleted twice.
    let mut leaving = pod_up();
    leaving.metadata.deletion_timestamp = Some(now());
    assert!(run(&sb, Some(&leaving)).effects.iter().all(|e| !matches!(e, Effect::DeletePod(_))));

    // At rest, nothing more is done.
    let mut rests = in_phase(SandboxPhase::Stopped);
    rests.spec.desired_state = DesiredState::Stopped;
    assert!(run(&rests, None).effects.is_empty());
    // And it starts again when wanted.
    assert!(matches!(
        run(&in_phase(SandboxPhase::Stopped), None).effects[0],
        Effect::ApplyPod(_)
    ));
}

#[test]
fn a_leaving_pod_is_not_counted_twice() {
    let mut pod = pod_running_but_runtime_dead(1);
    pod.metadata.deletion_timestamp = Some(now());
    let plan = run(&in_phase(SandboxPhase::Running), Some(&pod));
    assert!(plan.effects.is_empty());
    assert_eq!(plan.action, Action::Requeue { secs: 0, millis: 500 });
}

#[test]
fn running_is_recorded_only_once_the_bridge_is_ready() {
    let plan = run(&sandbox(), Some(&pod_with_phase("Running")));
    assert!(plan.effects.is_empty());

    let plan = run(&sandbox_with_ports(&[8000]), Some(&pod_up()));
    let s = recorded(&plan);
    assert_eq!(s.phase, Some(SandboxPhase::Running));
    assert_eq!(s.applied_cpus, Some(2));
    assert_eq!(s.applied_memory, Some(1024));
    assert_eq!(s.exposed_ports.len(), 1);
    assert_eq!(s.exposed_ports[0].port, 8000);
    assert_eq!(s.exposed_ports[0].name, "port-8000");
}

#[test]
fn a_reserved_port_settles_the_sandbox_without_a_pod() {
    let plan = run(&sandbox_with_ports(&[7000]), None);
    let s = recorded(&plan);
    assert_eq!(s.phase, Some(SandboxPhase::Failed));
    assert_eq!(s.conditions[0].reason, "PortConflict");
    assert!(plan.effects.iter().all(|e| !matches!(e, Effect::ApplyPod(_))));
}

#[test]
fn a_resize_without_headroom_asks_for_a_restart() {
    let mut sb = booted();
    sb.spec.cpus = 3;
    let plan = run(&sb, Some(&pod_up()));
    match &plan.effects[0] {
        Effect::PatchConditions(cs) => {
            assert_eq!(cs[0].type_, RESTART_REQUIRED);
            assert_eq!(cs[0].status, "True");
            assert_eq!(cs[0].reason, "NoHotplugHeadroom");
        }
        other => panic!("unexpected {other:?}"),
    }
}

#[test]
fn a_resize_with_headroom_is_applied_live() {
    let mut sb = booted();
    sb.spec.max_cpus = Some(8);
    sb.spec.max_memory = Some(4096);
    sb.spec.cpus = 4;
    sb.spec.memory = 2048;
    let cfg = config();
    match reconcile(&sb, Some(&pod_up()), &cfg, now(), Ok(SPEC_JSON.to_string())).unwrap() {
        Step::AskCpus { url, request } => {
            assert_eq!(url, "http://msb-svc.team-a.svc:8080/control");
            assert_eq!(request, r#"{"online":4,"op":"cpu_target"}"#);
        }
        other => panic!("unexpected {other:?}"),
    }
    let replies = ResizeReplies { cpus: Some(Ok(())), memory: None };
    assert!(matches!(
        reconcile_resize(&sb, &cfg, now(), &replies).unwrap(),
        Step::AskMemory { .. }
    ));
    let replies = ResizeReplies { cpus: Some(Ok(())), memory: Some(Ok(())) };
    let plan = done(reconcile_resize(&sb, &cfg, now(), &replies));
    match &plan.effects[0] {
        Effect::PatchResize { applied_cpus, applied_memory, conditions } => {
            assert_eq!((*applied_cpus, *applied_memory), (Some(4), Some(2048)));
            assert_eq!(conditions[0].status, "False");
        }
        other => panic!("unexpected {other:?}"),
    }
}

#[test]
fn a_failed_live_resize_asks_for_a_restart() {
    let mut sb = booted();
    sb.spec.max_cpus = Some(8);
    sb.spec.max_memory = Some(4096);
    sb.spec.cpus = 4;
    sb.spec.memory = 2048;
    let failed = ResizeError::ControlRejected("busy".to_string());
    let replies = ResizeReplies { cpus: Some(Err(failed)), memory: None };
    let plan = done(reconcile_resize(&sb, &config(), now(), &replies));
    match &plan.effects[0] {
        Effect::PatchResize { applied_cpus, applied_memory, conditions } => {
            assert_eq!((*applied_cpus, *applied_memory), (Some(2), Some(1024)));
            assert_eq!(conditions[0].reason, "ControlSocketUnreachable");
            assert!(conditions[0].message.contains("busy"));
        }
        other => panic!("unexpected {other:?}"),
    }
}

#[test]
fn a_failed_effect_says_what_it_was() {
    let delete = Effect::DeletePod("p".to_string());
    let e = effect_failed(&delete, "my-sandbox", api_error(500)).expect("an error");
    assert!(matches!(&e, Error::DeletePod { pod, .. } if pod == "p"));
    assert!(e.message().contains("my-sandbox"));
    assert_eq!(error_policy(&e), Action::Requeue { secs: 5, millis: 0 });
    // A pod that is gone already is deleted.
    assert!(effect_failed(&delete, "my-sandbox", api_error(404)).is_none());
    let delete = Effect::DeleteService("s".to_string());
    assert!(effect_failed(&delete, "my-sandbox", api_error(404)).is_none());
    let e = effect_failed(&delete, "my-sandbox", api_error(500)).expect("an error");
    assert!(matches!(&e, Error::DeleteService { service, .. } if service == "s"));
    assert!(e.message().starts_with("deleting service s for sandbox my-sandbox: "));
}

#[test]
fn a_leader_steps_down_after_two_failed_renewals() {
    assert!(matches!(after_renew(0, Attempt::Acquired), RenewStep::Hold { errors: 0 }));
    assert!(matches!(after_renew(0, Attempt::Failed), RenewStep::Hold { errors: 1 }));
    assert!(matches!(after_renew(1, Attempt::Failed), RenewStep::StepDown));
    assert!(matches!(after_renew(0, Attempt::NotAcquired), RenewStep::StepDown));
    assert!(matches!(after_renew(1, Attempt::Acquired), RenewStep::Hold { errors: 0 }));
}

#[test]
fn a_standby_gives_up_after_five_errors() {
    assert!(matches!(after_acquire(0, Attempt::Acquired), AcquireStep::Lead));
    assert!(matches!(after_acquire(3, Attempt::NotAcquired), AcquireStep::Wait { errors: 0 }));
    assert!(matches!(after_acquire(3, Attempt::Failed), AcquireStep::Wait { errors: 4 }));
    assert!(matches!(after_acquire(4, Attempt::Failed), AcquireStep::GiveUp));
    assert!(give_up_text("timeout").contains("timeout"));
    assert_eq!(renew_interval(15_000), 5_000);
}

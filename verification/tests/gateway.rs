//! The gateway.

use msb_operator::bridge::proxy::{Forward, Frame};
use msb_operator::collections::StringMap;
use msb_operator::gateway::auth::{
    access_request, authenticate, authenticate_identity, authorize_verb, bearer_token,
    namespace_from_username, verb, AccessReviewStatus, Identity, Route, TokenReviewStatus,
};
use msb_operator::gateway::convert::{
    is_k8s_label_key, labels_query_to_selector, last_error, phase_to_status, request_to_spec,
    sandbox_to_cloud, validate_name, SpecMapping, CLOUD_LABEL_ANN, MANAGED_BY_KEY,
    MANAGED_BY_VALUE,
};
use msb_operator::gateway::create::{create_failed, create_poll, new_sandbox, CreateStep};
use msb_operator::gateway::error::GatewayError;
use msb_operator::gateway::exec::{
    attempt_failed, dial_failed, splice, AttemptError, SpliceConfig,
};
use msb_operator::gateway::handlers::{
    deleted_message, desired_state_patch, list_page, map_kube,
};
use msb_operator::gateway::limits::ConnLimiter;
use msb_operator::gateway::logs::{
    end_event, log_event, logs_target, sse_step, ConsoleLogLine, LogItem,
};
use msb_operator::gateway::resolve::{bridge_url, resolve, target_from_sandbox};
use msb_operator::gateway::wire::{
    CloudCreateSandboxRequest, CloudEnvVar, CloudRlimit, CloudRlimitResource, CloudRootfsSource,
    CloudSandboxResources, CloudSandboxRuntimeOptions, CloudSandboxStatus, SandboxLogLevel,
    SandboxPolicy, WireSecurityProfile,
};
use msb_operator::k8s::{ApiError, ObjectMeta};
use msb_operator::runtime::boot::boot_plan;
use msb_operator::sandbox::{
    default_cpus, default_memory_mib, DesiredState, EnvVar, RlimitResource, Sandbox,
    SandboxPhase, SandboxSpec, SandboxStatus, SecurityProfile, TerminationReason,
};
use msb_operator::time::{parse_timestamp, Time, WireTime, LAST_NANOSECOND, YEAR_ZERO};

#[test]
fn parses_bearer() {
    assert_eq!(bearer_token(Some("Bearer abc")).unwrap(), "abc");
    assert_eq!(bearer_token(Some("bearer abc")).unwrap(), "abc");
}

#[test]
fn rejects_missing_or_malformed() {
    assert!(bearer_token(None).is_err());
    assert!(bearer_token(Some("abc")).is_err());
    assert!(bearer_token(Some("Bearer ")).is_err());
    assert!(bearer_token(Some("Basic xyz")).is_err());
}

#[test]
fn derives_namespace_from_sa_username() {
    assert_eq!(
        namespace_from_username("system:serviceaccount:team-a:my-app").unwrap(),
        "team-a"
    );
}

#[test]
fn rejects_non_sa_identity() {
    assert!(namespace_from_username("kubernetes-admin").is_err());
    assert!(namespace_from_username("system:node:worker-1").is_err());
    assert!(matches!(
        namespace_from_username("alice@example.com"),
        Err(GatewayError::InvalidRequest(_))
    ));
}

fn review(authenticated: Option<bool>, username: Option<&str>) -> Option<TokenReviewStatus> {
    Some(TokenReviewStatus { authenticated, error: None, username: username.map(String::from) })
}

#[test]
fn a_token_is_believed_only_where_the_review_says_so() {
    let sa = "system:serviceaccount:ns:app";
    assert_eq!(authenticate(review(Some(true), Some(sa))).unwrap(), sa);
    for status in [None, review(Some(false), Some(sa)), review(None, Some(sa))] {
        assert!(matches!(authenticate(status), Err(GatewayError::Unauthorized(_))));
    }
    let id = authenticate_identity(review(Some(true), Some(sa))).unwrap();
    assert_eq!((id.username.as_str(), id.namespace.as_str()), (sa, "ns"));
}

#[test]
fn access_is_asked_for_the_sandbox_itself() {
    let id = Identity { username: "u".to_string(), namespace: "ns".to_string() };
    let r = access_request(&id, "get", Some("s1"));
    assert_eq!((r.user.as_str(), r.namespace.as_str(), r.verb.as_str()), ("u", "ns", "get"));
    assert_eq!((r.group.as_str(), r.resource.as_str()), ("sandbox.microsandbox.dev", "sandboxes"));
    assert_eq!(r.name.as_deref(), Some("s1"));
    let yes = AccessReviewStatus { allowed: true, reason: None };
    assert!(authorize_verb(&id, "get", Some("s1"), Some(yes)).is_ok());
    let no = AccessReviewStatus { allowed: false, reason: Some("rbac".to_string()) };
    assert!(matches!(
        authorize_verb(&id, "get", None, Some(no)),
        Err(GatewayError::Forbidden(_))
    ));
    assert!(authorize_verb(&id, "get", None, None).is_err());
    assert_eq!(verb(Route::Start), "patch");
    assert_eq!(verb(Route::Stop), "delete");
    assert_eq!(verb(Route::Delete), "delete");
    assert_eq!(verb(Route::Create), "create");
}

fn req() -> CloudCreateSandboxRequest {
    CloudCreateSandboxRequest {
        name: "my-sb".to_string(),
        image: CloudRootfsSource::Oci { reference: "alpine:3.20".to_string() },
        resources: CloudSandboxResources { vcpus: 2, memory_mib: 1024 },
        runtime: CloudSandboxRuntimeOptions {
            workdir: Some("/app".to_string()),
            shell: Some("/bin/bash".to_string()),
            scripts: StringMap::new(),
            entrypoint: Some(vec!["/entry".to_string()]),
            cmd: Some(vec!["sleep".to_string(), "300".to_string()]),
            user: Some("appuser".to_string()),
            log_level: None,
        },
        env: vec![CloudEnvVar { key: "K".to_string(), value: "V".to_string() }],
        labels: StringMap::new(),
        rlimits: Vec::new(),
        security_profile: WireSecurityProfile::Default,
        lifecycle: SandboxPolicy {
            ephemeral: true,
            max_duration_secs: Some(600),
            idle_timeout_secs: None,
        },
    }
}

fn minimal_sandbox(name: &str, namespace: &str) -> Sandbox {
    Sandbox {
        metadata: ObjectMeta {
            name: Some(name.to_string()),
            namespace: Some(namespace.to_string()),
            ..Default::default()
        },
        spec: SandboxSpec {
            image: "alpine:3.20".to_string(),
            desired_state: Default::default(),
            cpus: default_cpus(),
            memory: default_memory_mib(),
            max_cpus: None,
            max_memory: None,
            cmd: Vec::new(),
            entrypoint: Vec::new(),
            env: Vec::new(),
            workdir: None,
            shell: None,
            user: None,
            hostname: None,
            ephemeral: false,
            lifecycle: Default::default(),
            max_duration_secs: None,
            idle_timeout_secs: None,
            run_policy: Default::default(),
            secrets: Vec::new(),
            network: Default::default(),
            upper: Default::default(),
            security_profile: Default::default(),
            rlimits: Vec::new(),
            logging: Default::default(),
        },
        status: None,
    }
}

#[test]
fn name_validation_rejects_uppercase_and_bad_chars() {
    assert!(validate_name("my-sb-1").is_ok());
    assert!(validate_name("Agent_1").is_err());
    assert!(validate_name("-lead").is_err());
    assert!(validate_name("trail-").is_err());
    assert!(validate_name("").is_err());
}

#[test]
fn structured_fields_map_to_spec() {
    let SpecMapping { spec, .. } = request_to_spec(&req()).unwrap();
    assert_eq!(spec.image, "alpine:3.20");
    assert_eq!(spec.cpus, 2);
    assert_eq!(spec.memory, 1024);
    assert_eq!(spec.cmd, vec!["sleep", "300"]);
    assert_eq!(spec.entrypoint, vec!["/entry"]);
    assert_eq!(spec.workdir.as_deref(), Some("/app"));
    assert_eq!(spec.shell.as_deref(), Some("/bin/bash"));
    assert_eq!(spec.user.as_deref(), Some("appuser"));
    assert_eq!(spec.env, vec![EnvVar { name: "K".to_string(), value: "V".to_string() }]);
    assert!(spec.ephemeral);
    assert_eq!(spec.max_duration_secs, Some(600));
}

#[test]
fn k8s_valid_labels_map_to_metadata_labels() {
    let mut r = req();
    r.labels.insert("app".to_string(), "web".to_string());
    r.labels.insert("team.example.com/tier".to_string(), "frontend".to_string());
    let SpecMapping { labels, annotations: ann, .. } = request_to_spec(&r).unwrap();
    assert_eq!(labels.get("app").unwrap(), "web");
    assert_eq!(labels.get("team.example.com/tier").unwrap(), "frontend");
    assert!(!ann.entries().iter().any(|(k, _)| k.starts_with(CLOUD_LABEL_ANN)));
}

#[test]
fn free_form_labels_fall_back_to_annotations() {
    let mut r = req();
    r.labels.insert("note".to_string(), "a value with spaces".to_string());
    let SpecMapping { labels, annotations: ann, .. } = request_to_spec(&r).unwrap();
    assert!(labels.get("note").is_none());
    assert_eq!(ann.get("microsandbox.dev/cloud-label.note").unwrap(), "a value with spaces");
}

#[test]
fn managed_by_label_is_always_stamped() {
    let SpecMapping { labels, .. } = request_to_spec(&req()).unwrap();
    assert_eq!(labels.get(MANAGED_BY_KEY).unwrap(), MANAGED_BY_VALUE);
}

#[test]
fn security_and_rlimits_map_through() {
    let mut r = req();
    r.security_profile = WireSecurityProfile::Restricted;
    r.rlimits =
        vec![CloudRlimit { resource: CloudRlimitResource::Nofile, soft: 1024, hard: 2048 }];
    let SpecMapping { spec, .. } = request_to_spec(&r).unwrap();
    assert_eq!(spec.security_profile, SecurityProfile::Restricted);
    assert_eq!(spec.rlimits.len(), 1);
    assert_eq!(spec.rlimits[0].resource, RlimitResource::Nofile);
    assert_eq!((spec.rlimits[0].soft, spec.rlimits[0].hard), (1024, 2048));
}

#[test]
fn a_requested_profile_boots() {
    let mut r = req();
    r.security_profile = WireSecurityProfile::Restricted;
    r.rlimits =
        vec![CloudRlimit { resource: CloudRlimitResource::Nofile, soft: 1024, hard: 2048 }];
    let SpecMapping { spec, .. } = request_to_spec(&r).unwrap();
    let plan = boot_plan(&spec, &Vec::new()).ok().unwrap();
    assert_eq!(plan.security_profile, SecurityProfile::Restricted);
    assert_eq!(plan.rlimits, spec.rlimits);
    assert_eq!(plan.cpus, r.resources.vcpus);
}

#[test]
fn options_without_a_place_become_annotations() {
    let mut r = req();
    r.runtime.log_level = Some(SandboxLogLevel::Debug);
    r.runtime.scripts.insert("b".to_string(), "echo \"hi\"\n".to_string());
    r.runtime.scripts.insert("a".to_string(), "ls".to_string());
    let SpecMapping { annotations: ann, .. } = request_to_spec(&r).unwrap();
    assert_eq!(ann.get("microsandbox.dev/cloud-log-level").unwrap(), "debug");
    assert_eq!(
        ann.get("microsandbox.dev/cloud-scripts").unwrap(),
        r#"{"a":"ls","b":"echo \"hi\"\n"}"#
    );
}

#[test]
fn labels_query_becomes_a_k8s_selector() {
    assert_eq!(labels_query_to_selector(None).unwrap(), None);
    assert_eq!(labels_query_to_selector(Some("")).unwrap(), None);
    assert_eq!(labels_query_to_selector(Some("{}")).unwrap(), None);
    assert_eq!(
        labels_query_to_selector(Some(r#"{"app":"web"}"#)).unwrap(),
        Some("app=web".to_string())
    );
    assert_eq!(
        labels_query_to_selector(Some(r#"{"b":"2","a":"1"}"#)).unwrap(),
        Some("a=1,b=2".to_string())
    );
    assert!(labels_query_to_selector(Some("not-json")).is_err());
}

#[test]
fn a_selector_is_made_of_strings_only() {
    assert!(matches!(labels_query_to_selector(Some("[]")), Err(GatewayError::InvalidRequest(_))));
    assert!(labels_query_to_selector(Some(r#"{"app":1}"#)).is_err());
    assert!(is_k8s_label_key("team.example.com/tier"));
    assert!(!is_k8s_label_key("a/b/c"));
    assert!(!is_k8s_label_key("/x"));
}

#[test]
fn a_label_key_is_a_name_behind_a_subdomain() {
    assert!(is_k8s_label_key("app"));
    assert!(is_k8s_label_key("x.y-z.com/App_1.v"));
    assert!(is_k8s_label_key(&format!("{}/a", "p".repeat(253))));
    assert!(is_k8s_label_key(&format!("p/{}", "n".repeat(63))));
    for key in ["", "p/", "Bad_Prefix!/app", "a..b/c", ".a/c", "a-.b/c", "a.-b/c", "-a/c", "p/-n"] {
        assert!(!is_k8s_label_key(key), "{key}");
    }
    assert!(!is_k8s_label_key(&format!("{}/a", "p".repeat(254))));
    assert!(!is_k8s_label_key(&format!("p/{}", "n".repeat(64))));
    let mut r = req();
    r.labels.insert("Bad_Prefix!/app".to_string(), "web".to_string());
    let m = request_to_spec(&r).unwrap();
    assert!(m.labels.get("Bad_Prefix!/app").is_none());
    assert_eq!(
        m.annotations.get(&format!("{CLOUD_LABEL_ANN}Bad_Prefix!/app")).map(String::as_str),
        Some("web")
    );
}

#[test]
fn bad_name_rejected_by_request_to_spec() {
    let mut r = req();
    r.name = "BAD_NAME".to_string();
    assert!(matches!(request_to_spec(&r), Err(GatewayError::InvalidRequest(_))));
}

#[test]
fn only_oci_images_are_served() {
    for image in [CloudRootfsSource::Bind, CloudRootfsSource::DiskImage] {
        let mut r = req();
        r.image = image;
        assert!(request_to_spec(&r).is_err());
    }
}

#[test]
fn status_maps_all_six_variants() {
    assert_eq!(phase_to_status(Some(SandboxPhase::Running), false, true), CloudSandboxStatus::Running);
    assert_eq!(phase_to_status(Some(SandboxPhase::Succeeded), false, true), CloudSandboxStatus::Stopped);
    assert_eq!(phase_to_status(Some(SandboxPhase::Stopped), false, true), CloudSandboxStatus::Stopped);
    assert_eq!(phase_to_status(Some(SandboxPhase::Failed), false, true), CloudSandboxStatus::Failed);
    assert_eq!(phase_to_status(Some(SandboxPhase::Running), true, true), CloudSandboxStatus::Stopping);
    assert_eq!(phase_to_status(Some(SandboxPhase::Pending), false, true), CloudSandboxStatus::Starting);
    assert_eq!(phase_to_status(Some(SandboxPhase::Pending), false, false), CloudSandboxStatus::Created);
}

#[test]
fn raw_kubectl_sandbox_with_no_annotations_still_maps_cleanly() {
    let cloud = sandbox_to_cloud(&minimal_sandbox("raw-sb", "team-a"));
    assert_eq!(cloud.id, "raw-sb");
    assert_eq!(cloud.name, "raw-sb");
    assert_eq!(cloud.slug, "raw-sb");
    assert!(cloud.spec.is_none());
    assert!(!cloud.ephemeral);
    assert_eq!(cloud.status, CloudSandboxStatus::Created);
    assert_eq!(cloud.created_at.text(), "1970-01-01T00:00:00Z");
}

#[test]
fn gateway_created_sandbox_maps_to_response() {
    let SpecMapping { spec, labels, annotations } = request_to_spec(&req()).unwrap();
    let sb = Sandbox {
        metadata: ObjectMeta {
            name: Some("my-sb".to_string()),
            namespace: Some("ns".to_string()),
            labels,
            annotations,
            ..Default::default()
        },
        spec,
        status: None,
    };
    let cloud = sandbox_to_cloud(&sb);
    assert_eq!(cloud.name, "my-sb");
    assert_eq!(cloud.id, "my-sb");
    assert!(cloud.ephemeral);
    assert!(cloud.spec.is_none());
}

#[test]
fn times_and_failures_are_told() {
    let mut sb = minimal_sandbox("s1", "ns");
    sb.metadata.creation_timestamp = parse_timestamp("2026-01-01T00:00:00Z");
    sb.status = Some(SandboxStatus {
        phase: Some(SandboxPhase::Failed),
        started_at: parse_timestamp("2026-01-01T00:00:01.5Z"),
        terminated_at: parse_timestamp("2026-01-01T00:01:00Z"),
        termination_reason: Some(TerminationReason::OomKilled),
        ..Default::default()
    });
    let cloud = sandbox_to_cloud(&sb);
    assert_eq!(cloud.status, CloudSandboxStatus::Failed);
    assert_eq!(cloud.created_at.text(), "2026-01-01T00:00:00Z");
    assert_eq!(cloud.started_at.unwrap().text(), "2026-01-01T00:00:01.500Z");
    assert_eq!(cloud.stopped_at.unwrap().text(), "2026-01-01T00:01:00Z");
    assert!(cloud.last_failure_message.is_some());
    assert!(last_error(sb.status.as_ref().unwrap()).is_some());
    sb.status.as_mut().unwrap().termination_reason = Some(TerminationReason::Completed);
    sb.status.as_mut().unwrap().phase = Some(SandboxPhase::Succeeded);
    assert_eq!(sandbox_to_cloud(&sb).last_failure_message, None);
}

#[test]
fn instants_reach_the_wire_unchanged() {
    for (n, text) in [
        (YEAR_ZERO, "0000-01-01T00:00:00Z"),
        (-1, "1969-12-31T23:59:59.999999999Z"),
        (0, "1970-01-01T00:00:00Z"),
        (1_700_000_000_123_000_000, "2023-11-14T22:13:20.123Z"),
        (LAST_NANOSECOND, "9999-12-30T22:00:00.999999999Z"),
    ] {
        let wire = Time::from_nanos(n).to_wire().unwrap();
        assert_eq!(wire.seconds() as i128, n.div_euclid(1_000_000_000));
        assert_eq!(wire.nanos() as i128, n.rem_euclid(1_000_000_000));
        assert_eq!(wire.text(), text);
    }
    // A year of more than four digits, or before the year 0, has no place there.
    assert!(Time::from_nanos(LAST_NANOSECOND + 1).to_wire().is_none());
    assert!(Time::from_nanos(YEAR_ZERO - 1).to_wire().is_none());
}

#[test]
fn a_new_sandbox_is_in_the_callers_namespace() {
    let sb = new_sandbox(&req(), "team-a").unwrap();
    assert_eq!(sb.metadata.name.as_deref(), Some("my-sb"));
    assert_eq!(sb.metadata.namespace.as_deref(), Some("team-a"));
    assert_eq!(sb.metadata.labels.get(MANAGED_BY_KEY).unwrap(), MANAGED_BY_VALUE);
    assert!(sb.status.is_none());
    let told = sandbox_to_cloud(&sb);
    assert_eq!((told.id.as_str(), told.slug.as_str()), ("my-sb", "my-sb"));
    assert_eq!(told.status, CloudSandboxStatus::Created);
    assert_eq!(told.ephemeral, req().lifecycle.ephemeral);
    let mut bad = req();
    bad.name = "-".to_string();
    assert!(new_sandbox(&bad, "team-a").is_err());
}

fn with_phase(phase: Option<SandboxPhase>) -> Sandbox {
    let mut sb = minimal_sandbox("s1", "ns");
    sb.status = Some(SandboxStatus { phase, ..Default::default() });
    sb
}

#[test]
fn a_creation_waits_for_the_sandbox_to_run() {
    let run = with_phase(Some(SandboxPhase::Running));
    assert!(matches!(create_poll(&run, "s1", true, 25), CreateStep::Respond(_)));
    let fast = with_phase(Some(SandboxPhase::Succeeded));
    assert!(matches!(create_poll(&fast, "s1", false, 25), CreateStep::Respond(_)));
    let slow = with_phase(Some(SandboxPhase::Pending));
    assert!(matches!(create_poll(&slow, "s1", false, 25), CreateStep::Wait));
    match create_poll(&slow, "s1", true, 25) {
        CreateStep::Abandon(GatewayError::InvalidRequest(m)) => {
            assert!(m.starts_with("sandbox s1 did not reach Running within 25s \u{2014} raise"))
        }
        other => panic!("unexpected {other:?}"),
    }
    let mut failed = with_phase(Some(SandboxPhase::Failed));
    match create_poll(&failed, "s1", false, 25) {
        CreateStep::Abandon(GatewayError::InvalidRequest(m)) => {
            assert_eq!(m, "sandbox s1 reached Failed before Running: sandbox failed")
        }
        other => panic!("unexpected {other:?}"),
    }
    failed.status.as_mut().unwrap().termination_reason = Some(TerminationReason::OomKilled);
    match create_poll(&failed, "s1", false, 25) {
        CreateStep::Abandon(e) => assert!(e.message().contains("OomKilled")),
        other => panic!("unexpected {other:?}"),
    }
}

fn api_error(code: u16) -> ApiError {
    ApiError { code: Some(code), message: "refused".to_string() }
}

#[test]
fn errors_of_the_api_server_are_typed() {
    assert!(matches!(create_failed("s1", api_error(409)), GatewayError::AlreadyExists(n) if n == "s1"));
    assert!(matches!(create_failed("s1", api_error(404)), GatewayError::Kube(_)));
    assert!(matches!(map_kube("s1", api_error(404)), GatewayError::NotFound(n) if n == "s1"));
    assert!(matches!(map_kube("s1", api_error(409)), GatewayError::Kube(_)));
}

#[test]
fn each_error_has_its_code_and_status() {
    let s = || "x".to_string();
    for (e, code, status) in [
        (GatewayError::NotFound(s()), "sandbox_not_found", 404),
        (GatewayError::AlreadyExists(s()), "name_already_exists", 409),
        (GatewayError::InvalidRequest(s()), "invalid_request", 400),
        (GatewayError::Unauthorized(s()), "unauthorized", 401),
        (GatewayError::Forbidden(s()), "forbidden", 403),
    ] {
        assert_eq!((e.code(), e.status()), (code, status));
        assert!(e.message().contains('x'));
    }
}

#[test]
fn a_list_is_one_page() {
    let items = vec![minimal_sandbox("a", "ns"), minimal_sandbox("b", "ns")];
    let page = list_page(&items);
    let names: Vec<_> = page.data.iter().map(|d| d.name.as_str()).collect();
    assert_eq!(names, vec!["a", "b"]);
    assert_eq!(page.next_cursor, None);
    assert_eq!(deleted_message("a"), "sandbox a deleted");
    assert_eq!(
        desired_state_patch(DesiredState::Stopped),
        r#"{"spec":{"desiredState":"Stopped"}}"#
    );
    assert_eq!(
        desired_state_patch(DesiredState::Running),
        r#"{"spec":{"desiredState":"Running"}}"#
    );
}

#[test]
fn caps_per_identity_and_releases_on_drop() {
    let mut lim = ConnLimiter::new(2);
    let g1 = lim.acquire("alice");
    let g2 = lim.acquire("alice");
    assert!(g1.is_some() && g2.is_some());
    assert!(lim.acquire("alice").is_none());
    assert!(lim.acquire("bob").is_some());
    lim.release(g1.unwrap());
    assert!(lim.acquire("alice").is_some());
}

#[test]
fn zero_means_unlimited() {
    let mut lim = ConnLimiter::new(0);
    let mut guards = Vec::new();
    for _ in 0..100 {
        guards.push(lim.acquire("x").expect("unlimited"));
    }
}

#[test]
fn count_map_cleaned_up_when_identity_drops_to_zero() {
    let mut lim = ConnLimiter::new(4);
    let g = lim.acquire("ephemeral").unwrap();
    assert_eq!(lim.count("ephemeral"), Some(1));
    lim.release(g);
    assert!(lim.count("ephemeral").is_none());
}

fn log_line(source: &str, text: &str) -> ConsoleLogLine {
    ConsoleLogLine {
        source: source.to_string(),
        ts: WireTime::parse("2026-01-01T00:00:00Z").unwrap(),
        text: text.to_string(),
    }
}

#[test]
fn wraps_a_log_line_as_an_sse_log_event() {
    let event = log_event(&log_line("stdout", "hello"));
    assert!(event.starts_with("event: log\ndata: "));
    assert!(event.ends_with("\n\n"));
    let data_line = event.strip_prefix("event: log\ndata: ").unwrap();
    let data_line = data_line.trim_end_matches("\n\n");
    let v: serde_json::Value = serde_json::from_str(data_line).unwrap();
    assert_eq!(v["source"], "stdout");
    assert_eq!(v["text"], "hello");
    assert_eq!(v["ts"], "2026-01-01T00:00:00Z");
}

#[test]
fn end_event_is_the_bare_terminator() {
    assert_eq!(end_event(), "event: end\n\n");
}

/// What a raw line of the container's log is.
fn log_item(raw: &str) -> LogItem {
    let Ok(v) = serde_json::from_str::<serde_json::Value>(raw) else {
        return LogItem::Malformed;
    };
    LogItem::Line(ConsoleLogLine {
        source: v["source"].as_str().unwrap().to_string(),
        ts: WireTime::parse(v["ts"].as_str().unwrap()).unwrap(),
        text: v["text"].as_str().unwrap().to_string(),
    })
}

/// The frames that a container's log is streamed as.
fn sse_stream(log: &str) -> Vec<String> {
    let mut items: Vec<LogItem> = log.lines().map(log_item).collect();
    items.push(LogItem::End);
    let mut frames = Vec::new();
    for (i, item) in items.iter().enumerate() {
        let step = sse_step(item);
        frames.extend(step.frame);
        assert_eq!(step.finished, i + 1 == items.len());
    }
    frames
}

#[test]
fn sse_stream_reformats_lines_and_terminates_with_end() {
    let input = "{\"source\":\"stdout\",\"ts\":\"2026-01-01T00:00:00Z\",\"text\":\"a\"}\n{\"source\":\"stderr\",\"ts\":\"2026-01-01T00:00:01Z\",\"text\":\"b\"}\n";
    let events = sse_stream(input);
    assert_eq!(events.len(), 3);
    assert!(events[0].contains("\"source\":\"stdout\""));
    assert!(events[0].starts_with("event: log\n"));
    assert!(events[1].contains("\"text\":\"b\""));
    assert_eq!(events[2], "event: end\n\n");
}

#[test]
fn sse_stream_skips_malformed_lines_without_crashing() {
    let input = "not json\n{\"source\":\"stdout\",\"ts\":\"2026-01-01T00:00:00Z\",\"text\":\"ok\"}\n";
    let events = sse_stream(input);
    assert_eq!(events.len(), 2);
    assert!(events[0].contains("\"text\":\"ok\""));
}

#[test]
fn a_log_event_keeps_its_line_breaks_inside() {
    let step = sse_step(&LogItem::Line(log_line("stdout", "ok\nnext")));
    let frame = step.frame.unwrap();
    assert!(frame.contains("\"text\":\"ok\\nnext\""));
    assert_eq!(frame.matches('\n').count(), 3);
}

#[test]
fn logs_need_a_captured_console_and_a_pod() {
    let mut sb = minimal_sandbox("s1", "ns");
    assert!(matches!(logs_target(None, "s1"), Err(GatewayError::NotFound(_))));
    assert!(matches!(logs_target(Some(&sb), "s1"), Err(GatewayError::NotReady(m))
        if m.contains("guestConsole")));
    sb.spec.logging.guest_console = true;
    assert!(matches!(logs_target(Some(&sb), "s1"), Err(GatewayError::NotReady(_))));
    sb.status = Some(SandboxStatus { pod_name: Some("p".to_string()), ..Default::default() });
    assert_eq!(logs_target(Some(&sb), "s1").unwrap(), "p");
}

fn sandbox_with(status: Option<SandboxStatus>) -> Sandbox {
    let mut sb = minimal_sandbox("s1", "ns");
    sb.status = status;
    sb
}

#[test]
fn bridge_url_is_cluster_dns_on_bridge_port() {
    assert_eq!(
        bridge_url("msb-abc123", "team-a"),
        "ws://msb-abc123.team-a.svc.cluster.local:7000/"
    );
}

#[test]
fn running_with_service_name_resolves() {
    let sb = sandbox_with(Some(SandboxStatus {
        phase: Some(SandboxPhase::Running),
        service_name: Some("msb-deadbeef".to_string()),
        ..Default::default()
    }));
    let t = target_from_sandbox(&sb, "ns", "s1").unwrap();
    assert_eq!(t.url, "ws://msb-deadbeef.ns.svc.cluster.local:7000/");
}

#[test]
fn pending_is_not_ready() {
    let sb = sandbox_with(Some(SandboxStatus {
        phase: Some(SandboxPhase::Pending),
        service_name: Some("msb-deadbeef".to_string()),
        ..Default::default()
    }));
    assert!(matches!(target_from_sandbox(&sb, "ns", "s1"), Err(GatewayError::NotReady(_))));
}

#[test]
fn no_status_is_not_ready() {
    let sb = sandbox_with(None);
    assert!(matches!(target_from_sandbox(&sb, "ns", "s1"), Err(GatewayError::NotReady(_))));
    assert!(matches!(resolve(None, "ns", "s1"), Err(GatewayError::NotFound(_))));
}

#[test]
fn running_without_service_name_is_not_ready() {
    let sb = sandbox_with(Some(SandboxStatus {
        phase: Some(SandboxPhase::Running),
        service_name: None,
        ..Default::default()
    }));
    assert!(matches!(target_from_sandbox(&sb, "ns", "s1"), Err(GatewayError::NotReady(_))));
}

#[test]
fn splice_forwards_bytes_verbatim_both_directions() {
    let bytes = vec![0xDE, 0xAD, 0xBE, 0xEF];
    assert_eq!(splice(Ok(Frame::Binary(bytes.clone()))), Forward::Write(bytes));
    assert_eq!(splice(Err("reset".to_string())), Forward::Stop);
}

#[test]
fn a_session_has_a_ceiling_only_where_one_is_set() {
    assert_eq!(SpliceConfig::new(4 << 20, 0).max_session_secs, None);
    assert_eq!(SpliceConfig::new(4 << 20, 30).max_session_secs, Some(30));
    let (message, frame) = SpliceConfig::new(1000, 0).ws_config();
    assert_eq!((message, frame), (Some(1000), Some(1000)));
}

#[test]
fn a_bridge_that_cannot_be_dialed_is_an_error() {
    let last = attempt_failed(&AttemptError::Connect("refused".to_string()));
    assert!(matches!(&last, GatewayError::Bridge(m) if m.contains("refused")));
    assert!(matches!(attempt_failed(&AttemptError::TimedOut), GatewayError::Bridge(_)));
    assert!(dial_failed("ws://x/", Some(last)).message().contains("refused"));
    assert!(dial_failed("ws://x/", None).message().contains("ws://x/"));
}

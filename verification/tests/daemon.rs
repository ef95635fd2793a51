//! The node daemon and the bridge.

use msb_operator::bridge::proxy::{forward, health_response, Forward, Frame};
use msb_operator::bridge::socket::{
    control_socket_path, dial_failed, short_hash, socket_path, DialStep,
};
use msb_operator::cache::{failed_marker, ready_marker};
use msb_operator::daemon::device_plugin::{
    allocate, build_device_list, plugin_socket, register_request, HEALTHY, POOL_SIZE,
    RESOURCE_NAME, UNHEALTHY,
};
use msb_operator::daemon::health::{
    concerns, health_change, kubelet_restarted, FsEvent, FsEventKind,
};
use msb_operator::daemon::marker::{write_failed, write_ready};
use msb_operator::daemon::pull::{check_artifacts, check_exit, vmdk_dir, ProcessEnd, PullError};
use msb_operator::daemon::watch::{
    after_pull, field_selector, label_selector, pod_image, SPEC_ENV,
};
use msb_operator::controller::pod::RUNTIME_CONTAINER;
use msb_operator::k8s::{Container, ContainerEnv, ObjectMeta, Pod, PodSpec};

#[test]
fn socket_path_matches_msb_scheme() {
    let s = socket_path("/msb", "s");
    assert!(s.starts_with("/msb/run/agent/"));
    assert!(s.ends_with(".sock"));
    let hash = s.strip_prefix("/msb/run/agent/").unwrap().strip_suffix(".sock").unwrap();
    assert_eq!(hash.len(), 32);
    assert!(hash.chars().all(|c| c.is_ascii_hexdigit()));
}

#[test]
fn the_socket_is_named_by_half_the_digest() {
    assert_eq!(short_hash("abc"), "ba7816bf8f01cfea414140de5dae2223");
}

#[test]
fn a_socket_fits_its_address_for_every_accepted_home() {
    let home = format!("/{}", "a".repeat(58));
    assert!(socket_path(&home, &"n".repeat(300)).len() < 108);
}

#[test]
fn control_socket_path_replaces_the_extension() {
    assert_eq!(
        control_socket_path("/msb/run/agent/abc.sock"),
        "/msb/run/agent/abc.control.sock"
    );
}

#[test]
fn dialing_goes_on_until_the_deadline() {
    assert!(matches!(dial_failed(0, 1000), DialStep::RetryAfter(200)));
    assert!(matches!(dial_failed(1000, 1000), DialStep::Fail));
    assert!(matches!(dial_failed(1001, 1000), DialStep::Fail));
}

#[test]
fn frames_are_forwarded_verbatim() {
    assert_eq!(forward(Frame::Binary(vec![1, 2])), Forward::Write(vec![1, 2]));
    assert_eq!(forward(Frame::Close), Forward::Stop);
    assert_eq!(forward(Frame::Ping(vec![9])), Forward::Skip);
}

#[test]
fn health_follows_the_relay() {
    assert!(health_response(true).starts_with("HTTP/1.1 200"));
    assert!(health_response(false).starts_with("HTTP/1.1 503"));
}

#[test]
fn healthy_pool_has_correct_size_and_ids() {
    let list = build_device_list(true);
    assert_eq!(list.len(), POOL_SIZE);
    assert_eq!(list[0].id, "kvm-0");
    assert_eq!(list[POOL_SIZE - 1].id, format!("kvm-{}", POOL_SIZE - 1));
    assert!(list.iter().all(|d| d.health == HEALTHY));
}

#[test]
fn unhealthy_pool_marks_all_devices() {
    let list = build_device_list(false);
    assert!(list.iter().all(|d| d.health == UNHEALTHY));
}

#[test]
fn pool_ids_are_unique() {
    let list = build_device_list(true);
    let ids: std::collections::HashSet<_> = list.iter().map(|d| &d.id).collect();
    assert_eq!(ids.len(), POOL_SIZE);
}

#[test]
fn allocate_injects_kvm_and_a_read_only_cache_mount() {
    let resp = allocate(1, "/var/lib/msb/cache");
    let cr = &resp[0];
    assert_eq!(cr.devices[0].container_path, "/dev/kvm");
    assert_eq!(cr.mounts.len(), 1);
    assert_eq!(cr.mounts[0].container_path, "/msb/cache");
    assert_eq!(cr.mounts[0].host_path, "/var/lib/msb/cache");
    assert!(cr.mounts[0].read_only);
    assert_eq!(allocate(3, "/c").len(), 3);
    assert_eq!(allocate(0, "/c").len(), 0);
}

#[test]
fn the_plugin_registers_the_device() {
    let r = register_request("msb-kvm.sock");
    assert_eq!(r.version, "v1beta1");
    assert_eq!(r.endpoint, "msb-kvm.sock");
    assert_eq!(r.resource_name, RESOURCE_NAME);
    assert_eq!(RESOURCE_NAME, "devices.microsandbox.dev/kvm");
    assert_eq!(plugin_socket(), "/var/lib/kubelet/device-plugins/msb-kvm.sock");
}

fn event(kind: FsEventKind, path: &str) -> FsEvent {
    FsEvent { kind, paths: vec![path.to_string()] }
}

#[test]
fn detects_create_and_delete() {
    assert!(concerns(&event(FsEventKind::Create, "/dev/kvm"), "/dev/kvm"));
    assert!(concerns(&event(FsEventKind::Remove, "/dev/kvm"), "/dev/kvm"));
    assert!(!concerns(&event(FsEventKind::Create, "/dev/null"), "/dev/kvm"));
    assert_eq!(health_change(true, false), Some(true));
    assert_eq!(health_change(false, true), Some(false));
    assert_eq!(health_change(true, true), None);
    assert_eq!(health_change(false, false), None);
}

#[test]
fn a_new_kubelet_socket_means_a_restart() {
    let sock = "/var/lib/kubelet/device-plugins/kubelet.sock";
    assert!(kubelet_restarted(&event(FsEventKind::Create, sock), sock));
    assert!(!kubelet_restarted(&event(FsEventKind::Remove, sock), sock));
    assert!(!kubelet_restarted(&event(FsEventKind::Create, "/other"), sock));
}

#[test]
fn ready_marker_is_created_and_readable() {
    let w = write_ready("/c", "python:3.12");
    assert_eq!(w.path, ready_marker("/c", "python:3.12"));
    assert_eq!(w.dir, "/c/ready");
    assert_ne!(w.temporary, w.path);
    assert!(w.temporary.starts_with("/c/ready/"));
}

#[test]
fn failed_marker_carries_the_reason() {
    let w = write_failed("/c", "bad:ref", "auth denied");
    assert_eq!(w.path, failed_marker("/c", "bad:ref"));
    assert_eq!(String::from_utf8(w.contents).unwrap(), "auth denied");
}

#[test]
fn spawn_failure_when_msb_is_missing() {
    let e = check_exit("python:3.12", Err("No such file".to_string())).unwrap_err();
    assert!(matches!(&e, PullError::Spawn { .. }), "got {e:?}");
    assert!(e.message().contains("No such file"));
}

#[test]
fn nonzero_exit_is_reported() {
    let end = ProcessEnd { success: false, code: Some(1), stderr: b" boom \n".to_vec() };
    let e = check_exit("python:3.12", Ok(end)).unwrap_err();
    assert!(matches!(&e, PullError::Exit { .. }), "got {e:?}");
    assert!(e.message().contains("boom"));
    let end = ProcessEnd { success: true, code: Some(0), stderr: Vec::new() };
    assert_eq!(check_exit("python:3.12", Ok(end)), Ok(()));
}

#[test]
fn a_pull_without_artifacts_failed() {
    assert!(vmdk_dir("/msb").starts_with("/msb/cache"));
    let none: Vec<String> = Vec::new();
    assert!(matches!(
        check_artifacts("a", "/msb", &none),
        Err(PullError::NoArtifacts { .. })
    ));
    assert_eq!(check_artifacts("a", "/msb", &vec!["x.vmdk".to_string()]), Ok(()));
    assert!(check_artifacts("a", "/msb", &vec!["x.tmp".to_string()]).is_err());
}

#[test]
fn every_pull_leaves_a_marker() {
    let ok = after_pull("/msb", "a:1", Ok(()));
    assert_eq!(ok.path, ready_marker("/msb/cache", "a:1"));
    let failed = PullError::NoArtifacts { image: "a:1".to_string(), cache: "/c".to_string() };
    let text = failed.message();
    let w = after_pull("/msb", "a:1", Err(failed));
    assert_eq!(w.path, failed_marker("/msb/cache", "a:1"));
    assert_eq!(String::from_utf8(w.contents).unwrap(), text);
}

fn pod_with_runtime_env(name: &str, value: Option<&str>) -> Pod {
    let env = match value {
        Some(v) => {
            vec![ContainerEnv { name: SPEC_ENV.to_string(), value: Some(v.to_string()) }]
        }
        None => Vec::new(),
    };
    let container = Container {
        name: name.to_string(),
        image: None,
        args: Vec::new(),
        env,
        ports: Vec::new(),
        volume_mounts: Vec::new(),
        resources: None,
        security_context: None,
        restart_policy: None,
    };
    Pod {
        metadata: ObjectMeta::default(),
        spec: Some(PodSpec {
            init_containers: Vec::new(),
            containers: vec![container],
            volumes: Vec::new(),
            security_context: None,
            restart_policy: None,
            service_account_name: None,
            node_name: None,
        }),
        status: None,
    }
}

#[test]
fn reads_image_from_the_runtime_spec_env() {
    let pod = pod_with_runtime_env(RUNTIME_CONTAINER, Some(r#"{"image":"python:3.12"}"#));
    assert_eq!(pod_image(&pod).as_deref(), Some("python:3.12"));
}

#[test]
fn no_image_when_spec_env_is_absent() {
    let pod = pod_with_runtime_env(RUNTIME_CONTAINER, None);
    assert_eq!(pod_image(&pod), None);
}

#[test]
fn no_image_when_container_is_not_the_runtime() {
    let pod = pod_with_runtime_env("msb-bridge", Some(r#"{"image":"python:3.12"}"#));
    assert_eq!(pod_image(&pod), None);
}

#[test]
fn no_image_in_a_specification_that_is_none() {
    for text in ["not json", "{}", r#"{"image":3}"#, r#"["image"]"#] {
        assert_eq!(pod_image(&pod_with_runtime_env(RUNTIME_CONTAINER, Some(text))), None, "{text}");
    }
}

#[test]
fn the_watch_is_for_this_node() {
    assert_eq!(label_selector(), "microsandbox.dev/sandbox=true");
    assert_eq!(field_selector("node-1"), "spec.nodeName=node-1");
}

//! Registry-level behaviour: the sandbox manager's state machine, the
//! deployment manager, port allocation, and the documented boundary cases.

use sandbox_service::api::CreateSandboxRequest;
use sandbox_service::backend::SandboxBackendType;
use sandbox_service::errors::SandboxError;
use sandbox_service::faas::{
    AutoScaleConfig, DeploymentRequest, DeploymentStatus, FaasManager, FileSpec,
    FileUpdateRequest,
};
use sandbox_service::manager::SandboxManager;
use sandbox_service::ports::PortAllocator;
use sandbox_service::sandbox::{
    process_exit_response, timeout_response, validate_request, SandboxMode, SandboxRequest,
    SandboxResponse,
};

fn sandbox_request(id: &str, runtime: &str) -> SandboxRequest {
    SandboxRequest {
        id: id.to_string(),
        runtime: runtime.to_string(),
        code: "console.log('hi');".to_string(),
        entry_point: None,
        timeout_ms: 5000,
        memory_limit_mb: 128,
        env_vars: Vec::new(),
        files: None,
        mode: None,
        install_deps: None,
        dev_server: None,
    }
}

fn deployment_request(runtime: &str) -> DeploymentRequest {
    DeploymentRequest {
        runtime: runtime.to_string(),
        code: "export default { fetch: () => new Response('ok') };".to_string(),
        files: None,
        env_vars: None,
        memory_limit_mb: None,
        entry_point: None,
        auto_scale: None,
        dev_server: Some(true),
    }
}

fn ok_setup() -> SandboxResponse {
    SandboxResponse {
        success: true,
        stdout: String::new(),
        stderr: String::new(),
        exit_code: Some(0),
        execution_time_ms: 10,
        is_running: Some(true),
        dev_server_url: None,
    }
}

fn fresh_faas() -> FaasManager {
    let mgr = SandboxManager::new(SandboxBackendType::Docker, true).unwrap();
    FaasManager::new(mgr, "http://127.0.0.1:8070".to_string(), 8080)
}

#[test]
fn manager_refused_without_backend() {
    match SandboxManager::new(SandboxBackendType::Docker, false) {
        Err(SandboxError::Unavailable) => {}
        _ => panic!("an absent backend must be refused"),
    }
}

#[test]
fn create_and_inspect_sandbox() {
    let mut mgr = SandboxManager::new(SandboxBackendType::Nsjail, true).unwrap();
    mgr.create_sandbox(sandbox_request("sb-1", "node"), 1_000).unwrap();
    let info = mgr.get_sandbox_info("sb-1").unwrap();
    assert_eq!(info.id, "sb-1");
    assert_eq!(info.status, "Created");
    assert_eq!(info.runtime, "node");
    assert_eq!(info.timeout_ms, 5000);
    assert_eq!(info.memory_limit_mb, 128);
    assert!(info.created_at.starts_with("1970-01-01T00:00:01"));
    assert_eq!(mgr.list_sandboxes().len(), 1);
}

#[test]
fn unknown_runtime_creates_nothing() {
    let mut mgr = SandboxManager::new(SandboxBackendType::Docker, true).unwrap();
    match mgr.create_sandbox(sandbox_request("sb-1", "python"), 0) {
        Err(SandboxError::InvalidRuntime) => {}
        _ => panic!("an unknown runtime must be rejected"),
    }
    assert_eq!(mgr.sandbox_count(), 0);
}

#[test]
fn zero_memory_rejected() {
    let mut req = sandbox_request("sb-1", "node");
    req.memory_limit_mb = 0;
    match validate_request(&req) {
        Err(SandboxError::InvalidRequest) => {}
        _ => panic!("a zero memory cap must be rejected"),
    }
}

#[test]
fn zero_timeout_rejected() {
    let mut req = sandbox_request("sb-1", "node");
    req.timeout_ms = 0;
    assert!(matches!(validate_request(&req), Err(SandboxError::InvalidRequest)));
}

#[test]
fn dev_server_needs_persistent_mode() {
    let mut req = sandbox_request("sb-1", "bun");
    req.dev_server = Some(true);
    req.mode = Some(SandboxMode::OneShot);
    assert!(matches!(validate_request(&req), Err(SandboxError::InvalidRequest)));
    req.mode = Some(SandboxMode::Persistent);
    assert!(validate_request(&req).is_ok());
}

#[test]
fn execute_records_terminal_status() {
    let mut mgr = SandboxManager::new(SandboxBackendType::Docker, true).unwrap();
    mgr.create_sandbox(sandbox_request("sb-ok", "node"), 0).unwrap();
    mgr.create_sandbox(sandbox_request("sb-bad", "node"), 0).unwrap();
    let good = process_exit_response("out".to_string(), String::new(), Some(0), 5);
    let bad = process_exit_response(String::new(), "boom".to_string(), Some(1), 5);
    mgr.execute_sandbox("sb-ok", good).unwrap();
    mgr.execute_sandbox("sb-bad", bad).unwrap();
    assert_eq!(mgr.get_sandbox_info("sb-ok").unwrap().status, "Completed");
    assert_eq!(mgr.get_sandbox_info("sb-bad").unwrap().status, "Failed");
}

#[test]
fn create_then_cleanup_is_noop() {
    let mut mgr = SandboxManager::new(SandboxBackendType::Docker, true).unwrap();
    assert_eq!(mgr.sandbox_count(), 0);
    mgr.create_sandbox(sandbox_request("sb-1", "node"), 0).unwrap();
    mgr.delete_sandbox("sb-1").unwrap();
    assert_eq!(mgr.sandbox_count(), 0);
    assert!(mgr.get_sandbox_info("sb-1").is_none());
}

#[test]
fn cleanup_is_idempotent() {
    let mut mgr = SandboxManager::new(SandboxBackendType::Docker, true).unwrap();
    mgr.create_sandbox(sandbox_request("sb-1", "node"), 0).unwrap();
    mgr.delete_sandbox("sb-1").unwrap();
    let after_first: Vec<String> =
        mgr.list_sandboxes().into_iter().map(|i| i.id).collect();
    match mgr.delete_sandbox("sb-1") {
        Err(SandboxError::NotFound) => {}
        _ => panic!("a second delete must report the id as gone"),
    }
    let after_second: Vec<String> =
        mgr.list_sandboxes().into_iter().map(|i| i.id).collect();
    assert_eq!(after_first, after_second);
}

#[test]
fn deploy_publishes_a_running_function() {
    let mut faas = fresh_faas();
    let resp = faas
        .deploy(
            deployment_request("bun"),
            "dep-1".to_string(),
            "sb-1".to_string(),
            1_000,
            ok_setup(),
        )
        .unwrap();
    assert_eq!(resp.deployment_id, "dep-1");
    assert_eq!(resp.sandbox_id, "sb-1");
    assert_eq!(resp.url, "http://127.0.0.1:8070/faas/dep-1");
    assert_eq!(resp.status, DeploymentStatus::Running);
    assert_eq!(resp.memory_mb, 256);
    assert_eq!(faas.get_port("sb-1"), Some(8080));
    let info = faas.get_sandbox_info("sb-1").unwrap();
    assert_eq!(info.status, "DevServer");
}

#[test]
fn deployments_get_distinct_ports_and_sandboxes() {
    let mut faas = fresh_faas();
    faas.deploy(
        deployment_request("bun"),
        "dep-1".to_string(),
        "sb-1".to_string(),
        0,
        ok_setup(),
    )
    .unwrap();
    faas.deploy(
        deployment_request("node"),
        "dep-2".to_string(),
        "sb-2".to_string(),
        0,
        ok_setup(),
    )
    .unwrap();
    let p1 = faas.get_port("sb-1").unwrap();
    let p2 = faas.get_port("sb-2").unwrap();
    assert_ne!(p1, p2);
    let listed = faas.list_deployments();
    assert_eq!(listed.len(), 2);
    assert_ne!(listed[0].sandbox_id, listed[1].sandbox_id);
}

#[test]
fn undeploy_clears_deployment_and_port() {
    let mut faas = fresh_faas();
    faas.deploy(
        deployment_request("bun"),
        "dep-1".to_string(),
        "sb-1".to_string(),
        0,
        ok_setup(),
    )
    .unwrap();
    faas.undeploy("dep-1").unwrap();
    assert!(faas.get_deployment("dep-1", 0).is_none());
    assert_eq!(faas.get_port("sb-1"), None);
    assert!(faas.get_sandbox_info("sb-1").is_none());
}

#[test]
fn deploy_then_undeploy_restores_count() {
    let mut faas = fresh_faas();
    faas.deploy(
        deployment_request("bun"),
        "dep-0".to_string(),
        "sb-0".to_string(),
        0,
        ok_setup(),
    )
    .unwrap();
    let before = faas.deployment_count();
    faas.deploy(
        deployment_request("node"),
        "dep-1".to_string(),
        "sb-1".to_string(),
        0,
        ok_setup(),
    )
    .unwrap();
    assert_eq!(faas.deployment_count(), before + 1);
    faas.undeploy("dep-1").unwrap();
    assert_eq!(faas.deployment_count(), before);
}

#[test]
fn deploy_with_unknown_runtime_rejected() {
    let mut faas = fresh_faas();
    match faas.deploy(
        deployment_request("python"),
        "dep-1".to_string(),
        "sb-1".to_string(),
        0,
        ok_setup(),
    ) {
        Err(SandboxError::InvalidRuntime) => {}
        _ => panic!("an unknown runtime must abort the deploy"),
    }
    assert_eq!(faas.deployment_count(), 0);
    assert!(faas.get_sandbox_info("sb-1").is_none());
}

#[test]
fn deploy_with_zero_memory_rejected() {
    let mut faas = fresh_faas();
    let mut req = deployment_request("bun");
    req.memory_limit_mb = Some(0);
    assert!(matches!(
        faas.deploy(req, "dep-1".to_string(), "sb-1".to_string(), 0, ok_setup()),
        Err(SandboxError::InvalidRequest)
    ));
}

#[test]
fn failed_setup_rolls_back() {
    let mut faas = fresh_faas();
    let failed = SandboxResponse {
        success: false,
        stdout: String::new(),
        stderr: "install failed".to_string(),
        exit_code: Some(1),
        execution_time_ms: 3,
        is_running: Some(false),
        dev_server_url: None,
    };
    match faas.deploy(
        deployment_request("bun"),
        "dep-1".to_string(),
        "sb-1".to_string(),
        0,
        failed,
    ) {
        Err(SandboxError::SetupFailed(msg)) => assert_eq!(msg, "install failed"),
        _ => panic!("a failed setup must surface SetupFailed"),
    }
    assert_eq!(faas.deployment_count(), 0);
    assert!(faas.get_sandbox_info("sb-1").is_none());
    assert_eq!(faas.get_port("sb-1"), None);
}

#[test]
fn exhausted_port_range_fails_creation() {
    let mgr = SandboxManager::new(SandboxBackendType::Docker, true).unwrap();
    let mut faas = FaasManager::new(mgr, "http://h".to_string(), u16::MAX);
    assert!(matches!(
        faas.deploy(
            deployment_request("bun"),
            "dep-1".to_string(),
            "sb-1".to_string(),
            0,
            ok_setup(),
        ),
        Err(SandboxError::CreationFailed(_))
    ));
}

#[test]
fn update_files_touches_and_plans_restart() {
    let mut faas = fresh_faas();
    faas.deploy(
        deployment_request("bun"),
        "dep-1".to_string(),
        "sb-1".to_string(),
        0,
        ok_setup(),
    )
    .unwrap();
    let update = FileUpdateRequest {
        files: vec![FileSpec {
            path: "index.ts".to_string(),
            content: "v2".to_string(),
            executable: None,
        }],
        restart_dev_server: None,
    };
    let plan = faas.update_files("dep-1", update, 5_000).unwrap();
    assert_eq!(plan.sandbox_id, "sb-1");
    assert_eq!(plan.files.len(), 1);
    assert_eq!(plan.files[0].path, "index.ts");
    assert_eq!(plan.files[0].content, "v2");
    assert_eq!(plan.restart_command.as_deref(), Some("bun dev"));
}

#[test]
fn update_files_twice_plans_identically() {
    let mut faas = fresh_faas();
    faas.deploy(
        deployment_request("node"),
        "dep-1".to_string(),
        "sb-1".to_string(),
        0,
        ok_setup(),
    )
    .unwrap();
    let update = || FileUpdateRequest {
        files: vec![FileSpec {
            path: "index.js".to_string(),
            content: "console.log(2);".to_string(),
            executable: None,
        }],
        restart_dev_server: Some(true),
    };
    let plan1 = faas.update_files("dep-1", update(), 1).unwrap();
    let plan2 = faas.update_files("dep-1", update(), 2).unwrap();
    assert_eq!(plan1.files.len(), plan2.files.len());
    assert_eq!(plan1.files[0].path, plan2.files[0].path);
    assert_eq!(plan1.files[0].content, plan2.files[0].content);
    assert_eq!(plan1.restart_command, plan2.restart_command);
    let w1 = sandbox_service::docker::write_file_command(
        &sandbox_service::docker::resolve_file_dest(&plan1.files[0].path),
        &plan1.files[0].content,
    );
    let w2 = sandbox_service::docker::write_file_command(
        &sandbox_service::docker::resolve_file_dest(&plan2.files[0].path),
        &plan2.files[0].content,
    );
    assert_eq!(w1, w2);
}

#[test]
fn empty_update_succeeds_without_restart_files() {
    let mut faas = fresh_faas();
    faas.deploy(
        deployment_request("bun"),
        "dep-1".to_string(),
        "sb-1".to_string(),
        0,
        ok_setup(),
    )
    .unwrap();
    let update = FileUpdateRequest { files: Vec::new(), restart_dev_server: Some(false) };
    let plan = faas.update_files("dep-1", update, 1).unwrap();
    assert!(plan.files.is_empty());
    assert!(plan.restart_command.is_none());
}

#[test]
fn update_files_on_unknown_deployment_is_not_found() {
    let mut faas = fresh_faas();
    let update = FileUpdateRequest { files: Vec::new(), restart_dev_server: None };
    assert!(matches!(
        faas.update_files("dep-x", update, 0),
        Err(SandboxError::NotFound)
    ));
}

#[test]
fn proxy_access_defers_idle_eviction() {
    let mut faas = fresh_faas();
    faas.deploy(
        deployment_request("bun"),
        "dep-1".to_string(),
        "sb-1".to_string(),
        0,
        ok_setup(),
    )
    .unwrap();
    let eleven_minutes: i64 = 11 * 60 * 1000;
    assert_eq!(faas.collect_idle(eleven_minutes), vec!["dep-1".to_string()]);
    let sb = faas.get_deployment_for_proxy("dep-1", eleven_minutes).unwrap();
    assert_eq!(sb, "sb-1");
    assert!(faas.collect_idle(eleven_minutes).is_empty());
    assert_eq!(faas.collect_idle(2 * eleven_minutes), vec!["dep-1".to_string()]);
}

#[test]
fn custom_idle_threshold_drives_eviction() {
    let mut faas = fresh_faas();
    let mut req = deployment_request("bun");
    req.auto_scale = Some(AutoScaleConfig {
        min_instances: None,
        max_instances: None,
        scale_down_after_minutes: Some(1),
    });
    faas.deploy(req, "dep-1".to_string(), "sb-1".to_string(), 0, ok_setup()).unwrap();
    assert!(faas.collect_idle(60_000).is_empty());
    assert_eq!(faas.collect_idle(121_000), vec!["dep-1".to_string()]);
}

#[test]
fn delete_sandbox_cascades_to_deployment() {
    let mut faas = fresh_faas();
    faas.deploy(
        deployment_request("bun"),
        "dep-1".to_string(),
        "sb-1".to_string(),
        0,
        ok_setup(),
    )
    .unwrap();
    faas.delete_sandbox("sb-1").unwrap();
    assert_eq!(faas.deployment_count(), 0);
    assert_eq!(faas.get_port("sb-1"), None);
    assert!(faas.get_sandbox_info("sb-1").is_none());
}

#[test]
fn port_allocator_reuses_and_releases() {
    let mut ports = PortAllocator::new(8080);
    let p1 = ports.allocate("a".to_string()).unwrap();
    let p1_again = ports.allocate("a".to_string()).unwrap();
    let p2 = ports.allocate("b".to_string()).unwrap();
    assert_eq!(p1, 8080);
    assert_eq!(p1, p1_again);
    assert_eq!(p2, 8081);
    assert_eq!(ports.get_port("a"), Some(8080));
    ports.deallocate("a");
    assert_eq!(ports.get_port("a"), None);
    assert_eq!(ports.get_port("b"), Some(8081));
}

#[test]
fn one_shot_success_needs_clean_stderr_and_zero_exit() {
    let only_stderr = process_exit_response(String::new(), "warn".to_string(), Some(0), 1);
    assert!(!only_stderr.success);
    let nonzero = process_exit_response("out".to_string(), String::new(), Some(3), 1);
    assert!(!nonzero.success);
    let clean = process_exit_response("out".to_string(), String::new(), Some(0), 1);
    assert!(clean.success);
    assert_eq!(clean.exit_code, Some(0));
}

#[test]
fn timeout_is_a_response_not_an_error() {
    let r = timeout_response(1500);
    assert!(!r.success);
    assert_eq!(r.exit_code, Some(124));
    assert!(r.stderr.contains("timed out"));
    assert_eq!(r.execution_time_ms, 1500);
}

#[test]
fn api_request_defaults() {
    let req = CreateSandboxRequest {
        runtime: "node".to_string(),
        code: "console.log(1);".to_string(),
        entry_point: None,
        timeout_ms: None,
        memory_limit_mb: None,
        env_vars: Vec::new(),
        files: None,
        mode: Some("persistent".to_string()),
        install_deps: None,
        dev_server: None,
    };
    let sr = sandbox_service::api::to_sandbox_request(req, "sb-9".to_string(), false);
    assert_eq!(sr.id, "sb-9");
    assert_eq!(sr.timeout_ms, 30_000);
    assert_eq!(sr.memory_limit_mb, 512);
    assert!(matches!(sr.mode, Some(SandboxMode::Persistent)));
    let req2 = CreateSandboxRequest {
        runtime: "node".to_string(),
        code: String::new(),
        entry_point: None,
        timeout_ms: Some(1000),
        memory_limit_mb: Some(64),
        env_vars: Vec::new(),
        files: None,
        mode: Some("persistent".to_string()),
        install_deps: None,
        dev_server: None,
    };
    let sr2 = sandbox_service::api::to_sandbox_request(req2, "sb-10".to_string(), true);
    assert!(matches!(sr2.mode, Some(SandboxMode::OneShot)));
    assert_eq!(sr2.timeout_ms, 1000);
    assert_eq!(sr2.memory_limit_mb, 64);
}

#[test]
fn error_kind_names() {
    assert_eq!(SandboxError::InvalidRuntime.kind_name(), "invalid_runtime");
    assert_eq!(SandboxError::NotFound.kind_name(), "not_found");
    assert_eq!(SandboxError::SetupFailed(String::new()).kind_name(), "setup_failed");
    assert_eq!(SandboxError::ProxyUpstreamFailure.kind_name(), "proxy_upstream_failure");
}

#[test]
fn process_failure_is_reported_not_hidden() {
    let r = sandbox_service::sandbox::process_failure_response(
        "Failed to spawn process: missing binary".to_string(),
        4,
    );
    assert!(!r.success);
    assert_eq!(r.exit_code, Some(1));
    assert!(r.stderr.contains("missing binary"));
}

#[test]
fn error_status_codes_follow_the_taxonomy() {
    assert_eq!(SandboxError::InvalidRuntime.status_code(), 400);
    assert_eq!(SandboxError::InvalidRequest.status_code(), 400);
    assert_eq!(SandboxError::Unavailable.status_code(), 500);
    assert_eq!(SandboxError::CreationFailed("x".to_string()).status_code(), 500);
    assert_eq!(SandboxError::SetupFailed("x".to_string()).status_code(), 500);
    assert_eq!(SandboxError::HealthCheckFailed.status_code(), 500);
    assert_eq!(SandboxError::NotFound.status_code(), 404);
    assert_eq!(SandboxError::ProxyNoPort.status_code(), 404);
    assert_eq!(SandboxError::ProxyUpstreamFailure.status_code(), 502);
    assert_eq!(SandboxError::ProxyIOFailure.status_code(), 500);
}

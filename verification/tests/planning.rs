//! The backend planners and text machinery: container shapes, the exact
//! commands and argument lists, URL building, and the encoders they rest on.

use sandbox_service::backend::{create_backend, Backend, SandboxBackend, SandboxBackendType};
use sandbox_service::admin::{extract_number_from_line, parse_cpu_line};
use sandbox_service::clock::format_rfc3339_millis;
use sandbox_service::config::{apply_cli_overrides, backend_of_cli_tag, backend_of_env_tag};
use sandbox_service::docker;
use sandbox_service::errors::SandboxError;
use sandbox_service::nsjail;
use sandbox_service::proxy::target_url;
use sandbox_service::runtime::{runtime_of_tag, RuntimeType};
use sandbox_service::sandbox::{SandboxMode, SandboxRequest};
use sandbox_service::stats::{sum_blkio_bytes, sum_network_bytes, BlkioEntry};
use sandbox_service::text;

fn persistent_request(dev: bool) -> SandboxRequest {
    SandboxRequest {
        id: "sb-1".to_string(),
        runtime: "bun".to_string(),
        code: "console.log(1);".to_string(),
        entry_point: None,
        timeout_ms: 300_000,
        memory_limit_mb: 256,
        env_vars: vec![("A".to_string(), "1".to_string()), ("B".to_string(), "two".to_string())],
        files: None,
        mode: Some(SandboxMode::Persistent),
        install_deps: Some(true),
        dev_server: Some(dev),
    }
}

#[test]
fn runtime_catalog_values() {
    assert!(matches!(runtime_of_tag("node"), Some(RuntimeType::Node)));
    assert!(matches!(runtime_of_tag("nodejs"), Some(RuntimeType::Node)));
    assert!(matches!(runtime_of_tag("bun"), Some(RuntimeType::Bun)));
    assert!(matches!(runtime_of_tag("typescript"), Some(RuntimeType::TypeScript)));
    assert!(matches!(runtime_of_tag("ts"), Some(RuntimeType::TypeScript)));
    assert!(runtime_of_tag("python").is_none());
    assert!(runtime_of_tag("Node").is_none());
    assert_eq!(RuntimeType::Node.image(), "node:18-alpine");
    assert_eq!(RuntimeType::Bun.image(), "oven/bun:1-alpine");
    assert_eq!(RuntimeType::TypeScript.image(), "node:18-alpine");
    assert_eq!(RuntimeType::Node.run_command(), "node /sandbox/index.js");
    assert_eq!(RuntimeType::Bun.run_command(), "bun run /sandbox/index.js");
    assert_eq!(RuntimeType::TypeScript.run_command(), "npx ts-node /sandbox/index.ts");
    assert_eq!(RuntimeType::Node.dev_command(), "npm run dev");
    assert_eq!(RuntimeType::Bun.install_command(), "cd /sandbox && bun install --verbose");
}

#[test]
fn jail_backend_is_one_shot_only() {
    let jail = sandbox_service::nsjail::NsjailBackend::new();
    assert!(!jail.supports_persistent());
    assert!(matches!(jail.backend_type(), SandboxBackendType::Nsjail));
    let docker_backend = sandbox_service::docker::DockerBackend::new();
    assert!(docker_backend.supports_persistent());
}

#[test]
fn backend_factory_matches_request() {
    match create_backend(SandboxBackendType::Docker).unwrap() {
        Backend::Docker(_) => {}
        _ => panic!("asked for Docker"),
    }
    let b = create_backend(SandboxBackendType::Nsjail).unwrap();
    assert!(matches!(b.backend_type(), SandboxBackendType::Nsjail));
}

#[test]
fn persistent_dev_container_shape() {
    let req = persistent_request(true);
    let cc = docker::container_config(&req, "oven/bun:1-alpine", Some(8085));
    assert_eq!(cc.image, "oven/bun:1-alpine");
    assert_eq!(cc.container_name, "sb-1");
    assert_eq!(cc.working_dir, "/sandbox");
    assert_eq!(cc.env, vec!["A=1".to_string(), "B=two".to_string()]);
    assert_eq!(
        cc.idle_command,
        Some(vec!["tail".to_string(), "-f".to_string(), "/dev/null".to_string()])
    );
    assert_eq!(cc.memory_bytes, 256 * 1024 * 1024);
    assert_eq!(cc.cpu_quota, 50_000);
    assert_eq!(cc.cpu_period, 100_000);
    assert_eq!(cc.network_mode, "bridge");
    assert!(!cc.readonly_rootfs);
    assert_eq!(cc.host_port, Some(8085));
    assert!(cc.expose_dev_port);
    assert_eq!(cc.tmp_tmpfs, "size=10m");
    assert_eq!(cc.sandbox_tmpfs, "size=500m");
}

#[test]
fn one_shot_container_is_sealed() {
    let mut req = persistent_request(false);
    req.mode = Some(SandboxMode::OneShot);
    let cc = docker::container_config(&req, "node:18-alpine", Some(9000));
    assert!(cc.idle_command.is_none());
    assert_eq!(cc.network_mode, "none");
    assert!(cc.readonly_rootfs);
    assert_eq!(cc.host_port, None);
    assert!(!cc.expose_dev_port);
    assert_eq!(cc.sandbox_tmpfs, "size=50m");
}

#[test]
fn write_file_command_is_byte_exact() {
    let cmd = docker::write_file_command("/sandbox/app/index.js", "hi");
    assert_eq!(
        cmd,
        "mkdir -p '/sandbox/app/' && printf '%s' aGk= | base64 -d > '/sandbox/app/index.js'"
    );
    let tricky = docker::write_file_command("/sandbox/x", "it's got EOF\nand 'quotes'");
    assert!(tricky.contains("base64 -d > '/sandbox/x'"));
    assert!(!tricky.contains("EOF"));
}

#[test]
fn file_destinations_are_rooted() {
    assert_eq!(docker::resolve_file_dest("lib/a.js"), "/sandbox/lib/a.js");
    assert_eq!(docker::resolve_file_dest("/etc/app.conf"), "/etc/app.conf");
}

#[test]
fn main_file_detection() {
    let none: Option<Vec<sandbox_service::sandbox::SandboxFile>> = None;
    assert!(!docker::main_file_provided(&none));
    let files = Some(vec![
        sandbox_service::sandbox::SandboxFile {
            path: "helper.js".to_string(),
            content: String::new(),
            is_executable: None,
        },
        sandbox_service::sandbox::SandboxFile {
            path: "src/main.ts".to_string(),
            content: String::new(),
            is_executable: None,
        },
    ]);
    assert!(docker::main_file_provided(&files));
    let helpers_only = Some(vec![sandbox_service::sandbox::SandboxFile {
        path: "helper.js".to_string(),
        content: String::new(),
        is_executable: None,
    }]);
    assert!(!docker::main_file_provided(&helpers_only));
}

#[test]
fn dev_and_restart_commands() {
    let mut req = persistent_request(true);
    assert_eq!(docker::dev_command(&req), "cd /sandbox && bun dev");
    req.runtime = "node".to_string();
    assert_eq!(docker::dev_command(&req), "cd /sandbox && npm run dev");
    req.entry_point = Some("bun run server.ts".to_string());
    assert_eq!(docker::dev_command(&req), "cd /sandbox && bun run server.ts");
    assert_eq!(
        docker::background_command("cd /sandbox && bun dev"),
        "cd /sandbox && bun dev > /sandbox/dev-server.log 2>&1 &"
    );
    assert_eq!(docker::kill_command("bun dev"), "pkill -f 'bun.*dev' || true");
    assert_eq!(docker::kill_command("npm run dev"), "pkill -f 'npm.*run' || true");
    assert_eq!(docker::kill_command("node server.js"), "pkill -f 'node.*' || true");
    assert_eq!(docker::kill_command("deno task dev"), "pkill -f 'dev' || true");
    assert_eq!(
        docker::restart_start_command("bun dev"),
        "cd /sandbox && nohup bun dev > /sandbox/dev-server.log 2>&1 &"
    );
}

#[test]
fn package_json_synthesis() {
    assert!(docker::package_json(RuntimeType::Bun).contains("\"type\": \"module\""));
    assert!(docker::package_json(RuntimeType::Node).contains("faas-node-app"));
    assert!(docker::package_json(RuntimeType::TypeScript).contains("faas-app"));
    assert!(docker::package_json_missing("package.json not found"));
    assert!(!docker::package_json_missing("package.json found"));
}

#[test]
fn exec_output_judgement() {
    assert!(docker::exec_output_ok(""));
    assert!(docker::exec_output_ok("added 12 packages"));
    assert!(!docker::exec_output_ok("npm ERROR! something"));
    assert!(!docker::exec_output_ok("TypeError: boom"));
    let r = docker::stream_response("out".to_string(), String::new(), 7);
    assert!(r.success);
    assert_eq!(r.exit_code, Some(0));
    let r2 = docker::stream_response(String::new(), "oops".to_string(), 7);
    assert!(!r2.success);
    assert_eq!(r2.exit_code, Some(1));
}

#[test]
fn health_probe_decision() {
    assert!(docker::health_outcome("tcp LISTEN :3000", Some("html"), None).is_ok());
    assert!(docker::health_outcome(
        "tcp LISTEN :3000",
        Some("HTTP_CHECK_FAILED"),
        Some("PORT_ACCESSIBLE_RETRY"),
    )
    .is_ok());
    assert!(matches!(
        docker::health_outcome("No process on port 3000", None, None),
        Err(SandboxError::HealthCheckFailed)
    ));
    assert!(matches!(
        docker::health_outcome(
            "tcp LISTEN :3000",
            Some("HTTP_CHECK_FAILED"),
            Some("HTTP_RETRY_FAILED"),
        ),
        Err(SandboxError::HealthCheckFailed)
    ));
}

#[test]
fn jail_argument_list() {
    let args = nsjail::nsjail_args("/tmp/sb-1", 64, 5000, RuntimeType::Node);
    let expected: Vec<String> = [
        "--mode", "o", "--chroot", "/tmp/sb-1", "--user", "nobody", "--group", "nogroup",
        "--hostname", "sandbox", "--cwd", "/", "--mount", "none,/,tmpfs,rw,size=50m",
        "--mount", "/tmp/sb-1,/sandbox,bind,rw", "--rlimit_as", "67108864", "--rlimit_cpu",
        "30", "--rlimit_fsize", "10485760", "--rlimit_nofile", "64",
        "--disable_no_new_privs", "--cap", "-all", "--seccomp_policy", "/dev/null",
        "--time_limit", "5", "--really_quiet", "--", "node", "index.js",
    ]
    .iter()
    .map(|s| s.to_string())
    .collect();
    assert_eq!(args, expected);
    let bun_args = nsjail::nsjail_args("/tmp/sb-2", 64, 2000, RuntimeType::Bun);
    assert_eq!(&bun_args[bun_args.len() - 3..], ["bun", "run", "index.js"]);
    assert_eq!(nsjail::jail_wait_ms(5000), 6000);
    assert_eq!(nsjail::main_source_name(RuntimeType::TypeScript), "index.ts");
}

#[test]
fn proxy_target_urls() {
    assert_eq!(target_url(8085, "", None), "http://127.0.0.1:8085/");
    assert_eq!(target_url(8085, "api/x", Some("a=1")), "http://127.0.0.1:8085/api/x?a=1");
    assert_eq!(target_url(8085, "/api/x", None), "http://127.0.0.1:8085/api/x");
}

#[test]
fn proxy_resolution_prefers_allocator_then_inspection() {
    let mgr = sandbox_service::manager::SandboxManager::new(SandboxBackendType::Docker, true)
        .unwrap();
    let faas =
        sandbox_service::faas::FaasManager::new(mgr, "http://h".to_string(), 8080);
    assert_eq!(faas.resolve_sandbox_port("sb-x", Some(9000)).unwrap(), 9000);
    match faas.resolve_sandbox_port("sb-x", None) {
        Err(SandboxError::ProxyNoPort) => {}
        _ => panic!("an unknown sandbox without inspection must 404"),
    }
    assert_eq!(SandboxError::ProxyNoPort.status_code(), 404);
}

#[test]
fn text_machinery() {
    assert!(text::contains_str("Execution timed out", "timed out"));
    assert!(!text::contains_str("clean run", "error"));
    assert!(text::contains_str("abc", ""));
    assert!(text::str_eq("node", "node"));
    assert!(!text::str_eq("node", "nodejs"));
    assert!(text::starts_with("/sandbox/x", "/"));
    assert!(!text::starts_with("sandbox/x", "/"));
    assert_eq!(text::u64_to_dec(0), "0");
    assert_eq!(text::u64_to_dec(67_108_864), "67108864");
    assert_eq!(text::u64_to_dec(u64::MAX), "18446744073709551615");
    assert_eq!(text::shell_quote("plain"), "'plain'");
    assert_eq!(text::shell_quote("it's"), "'it'\\''s'");
    assert_eq!(text::base64_encode(b""), "");
    assert_eq!(text::base64_encode(b"f"), "Zg==");
    assert_eq!(text::base64_encode(b"fo"), "Zm8=");
    assert_eq!(text::base64_encode(b"foo"), "Zm9v");
    assert_eq!(text::base64_encode(b"foobar"), "Zm9vYmFy");
    assert_eq!(text::base64_encode(&[0xFF, 0x00, 0xFE]), "/wD+");
    assert_eq!(text::dir_split("/sandbox/app/index.js"), 13);
    assert_eq!(text::dir_split("index.js"), 0);
}

#[test]
fn telemetry_gauge_line_parsing() {
    assert_eq!(extract_number_from_line("Pages free: 12345."), 12345);
    assert_eq!(extract_number_from_line("Pages wired down: 98."), 98);
    assert_eq!(extract_number_from_line("no digits here"), 0);
    assert_eq!(extract_number_from_line("version 1.2.3 built"), 0);
    assert_eq!(extract_number_from_line(""), 0);
    let stats = parse_cpu_line("cpu  100 20 30 400 5 6 7 8
cpu0 1 2 3 4
").unwrap();
    assert_eq!(stats.total, 576);
    assert_eq!(stats.idle, 400);
    let minimal = parse_cpu_line("cpu 1 2 3 4").unwrap();
    assert_eq!(minimal.total, 10);
    assert_eq!(minimal.idle, 4);
    assert!(parse_cpu_line("intr 5 6 7").is_none());
    assert!(parse_cpu_line("cpu 1 2 3").is_none());
    assert!(parse_cpu_line("cpu a 2 3 4").is_none());
}

#[test]
fn timestamps_format_as_rfc3339() {
    assert_eq!(format_rfc3339_millis(0), "1970-01-01T00:00:00+00:00");
    assert_eq!(format_rfc3339_millis(1_500), "1970-01-01T00:00:01.500+00:00");
}

#[test]
fn stats_sums() {
    let net = vec![(10u64, 20u64), (5u64, 7u64)];
    assert_eq!(sum_network_bytes(&net), (15, 27));
    let sat = vec![(u64::MAX, 1u64), (5u64, 1u64)];
    assert_eq!(sum_network_bytes(&sat), (u64::MAX, 2));
    let blkio = vec![
        BlkioEntry { op: "read".to_string(), value: 100 },
        BlkioEntry { op: "write".to_string(), value: 30 },
        BlkioEntry { op: "read".to_string(), value: 1 },
        BlkioEntry { op: "flush".to_string(), value: 9 },
    ];
    assert_eq!(sum_blkio_bytes(&blkio), (101, 30));
}

#[test]
fn config_defaults_and_overrides() {
    let c = sandbox_service::config::Config::default();
    assert_eq!(c.server.host, "127.0.0.1");
    assert_eq!(c.server.port, 8070);
    assert_eq!(c.sandbox.default_timeout_ms, 30_000);
    assert_eq!(c.sandbox.default_memory_limit_mb, 256);
    assert_eq!(c.logging.level, "info");
    assert!(matches!(backend_of_env_tag("nsjail"), SandboxBackendType::Nsjail));
    assert!(matches!(backend_of_env_tag("anything"), SandboxBackendType::Docker));
    assert!(matches!(backend_of_cli_tag("docker"), SandboxBackendType::Docker));
    assert!(matches!(backend_of_cli_tag("anything"), SandboxBackendType::Nsjail));
    let over = apply_cli_overrides(
        c,
        Some("0.0.0.0".to_string()),
        Some(9000),
        Some(SandboxBackendType::Nsjail),
    );
    assert_eq!(over.server.host, "0.0.0.0");
    assert_eq!(over.server.port, 9000);
    assert!(matches!(over.sandbox.backend, SandboxBackendType::Nsjail));
}

#[test]
fn admin_api_docs_catalog() {
    let docs = sandbox_service::admin::api_docs();
    assert_eq!(docs.len(), 4);
    assert_eq!(docs[0].method, "POST");
    assert_eq!(docs[0].path, "/sandbox");
    assert_eq!(docs[1].path, "/sandbox/{id}");
    assert_eq!(docs[2].path, "/sandbox/{id}/execute");
    assert_eq!(docs[3].method, "DELETE");
    assert!(docs[0].example_request.as_ref().unwrap().contains("\"runtime\": \"bun\""));
}

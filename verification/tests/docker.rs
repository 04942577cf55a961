use remote_build::docker::{
    build_script, copy_workspace, ensure_running, exec_cleanup, exec_compile, exec_zip_output,
    is_reported_running, CommandOutput, CompileOutcome, DockerSettings, Progress,
};

fn settings() -> DockerSettings {
    DockerSettings::configured(None, None, None, None, None)
}

fn ok(stdout: &str) -> Result<CommandOutput, String> {
    Ok(CommandOutput {
        success: true,
        code: Some(0),
        stdout: stdout.as_bytes().to_vec(),
        stdout_text: stdout.to_string(),
        stderr_text: String::new(),
    })
}

fn failed(code: i32, stdout: &str, stderr: &str) -> Result<CommandOutput, String> {
    Ok(CommandOutput {
        success: false,
        code: Some(code),
        stdout: stdout.as_bytes().to_vec(),
        stdout_text: stdout.to_string(),
        stderr_text: stderr.to_string(),
    })
}

fn strs(v: &[&str]) -> Vec<String> {
    v.iter().map(|s| s.to_string()).collect()
}

const ID: &str = "550e8400-e29b-41d4-a716-446655440000";

#[test]
fn settings_defaults_and_overrides() {
    let s = settings();
    assert_eq!(s.container, "build-container");
    assert_eq!(s.image, "build-container");
    assert_eq!(s.compile_timeout, "300s");
    assert_eq!(s.cpus, "2");
    assert_eq!(s.memory, "2g");
    let t = DockerSettings::configured(Some("c1".into()), Some("img".into()), Some("10s".into()), Some("4".into()), Some("".into()));
    assert_eq!(t.container, "c1");
    assert_eq!(t.image, "img");
    assert_eq!(t.compile_timeout, "10s");
    assert_eq!(t.cpus, "4");
    assert_eq!(t.memory, "");
}

#[test]
fn running_state() {
    assert!(is_reported_running("true"));
    assert!(is_reported_running("true\n"));
    assert!(is_reported_running("  true \r\n"));
    assert!(is_reported_running("\u{3000}true\u{85}"));
    assert!(!is_reported_running("false\n"));
    assert!(!is_reported_running("TRUE"));
    assert!(!is_reported_running(""));
}

#[test]
fn running_container_is_left_alone() {
    let (job, args) = ensure_running(settings());
    assert_eq!(args, strs(&["inspect", "-f", "{{.State.Running}}", "build-container"]));
    match job.resume(ok("true\n")) {
        Progress::Finished(r) => assert_eq!(r, Ok(())),
        Progress::Run(..) => panic!("should finish"),
    }
}

#[test]
fn stopped_container_is_restarted() {
    let (job, _) = ensure_running(settings());
    let job = match job.resume(ok("false\n")) {
        Progress::Run(j, args) => {
            assert_eq!(args, strs(&["rm", "-f", "build-container"]));
            j
        }
        Progress::Finished(_) => panic!("should go on"),
    };
    let job = match job.resume(Err("whatever".to_string())) {
        Progress::Run(j, args) => {
            assert_eq!(
                args,
                strs(&["run", "-d", "--cpus", "2", "--memory", "2g", "--network", "none", "--name", "build-container", "build-container", "sleep", "infinity"])
            );
            j
        }
        Progress::Finished(_) => panic!("should go on"),
    };
    match job.resume(failed(125, "", "no such image")) {
        Progress::Finished(r) => assert_eq!(r, Err("container start failed: no such image".to_string())),
        Progress::Run(..) => panic!("should finish"),
    }
}

#[test]
fn missing_docker_is_reported() {
    let (job, _) = ensure_running(settings());
    match job.resume(Err("not found".to_string())) {
        Progress::Finished(r) => assert_eq!(r, Err("docker not available: not found".to_string())),
        Progress::Run(..) => panic!("should finish"),
    }
}

#[test]
fn copy_steps() {
    let (job, args) = copy_workspace(settings(), ID.to_string());
    assert_eq!(args, strs(&["exec", "build-container", "mkdir", "-p", "/var/code"]));
    let job = match job.resume(failed(1, "", "exists")) {
        Progress::Run(j, args) => {
            assert_eq!(args, strs(&["cp", &format!("./workspace/{}", ID), "build-container:/var/code/"]));
            j
        }
        Progress::Finished(_) => panic!("should go on"),
    };
    let job2 = match job.resume(ok("")) {
        Progress::Run(j, args) => {
            assert_eq!(args, strs(&["exec", "-u", "root", "build-container", "chown", "-R", "builder:builder", &format!("/var/code/{}", ID)]));
            j
        }
        Progress::Finished(_) => panic!("should go on"),
    };
    match job2.resume(Err("boom".to_string())) {
        Progress::Finished(r) => assert_eq!(r, Err("chown failed: boom".to_string())),
        Progress::Run(..) => panic!("should finish"),
    }
}

#[test]
fn copy_failure_reports_stderr() {
    let (job, _) = copy_workspace(settings(), ID.to_string());
    let job = match job.resume(ok("")) {
        Progress::Run(j, _) => j,
        Progress::Finished(_) => panic!(),
    };
    match job.resume(failed(1, "", "cp: no such file")) {
        Progress::Finished(r) => assert_eq!(r, Err("cp: no such file".to_string())),
        Progress::Run(..) => panic!(),
    }
}

#[test]
fn build_scripts() {
    assert!(build_script("c").unwrap().contains("gcc $(find . -name '*.c'"));
    assert!(build_script("cpp").unwrap().contains("g++"));
    assert!(build_script("rust").unwrap().contains("cargo build --release"));
    assert!(build_script("c").unwrap().ends_with("echo \"===EXIT_CODE:${STATUS}===\" >> output/build.log; exit $STATUS"));
    assert!(build_script("go").is_none());
}

fn finished(p: Progress<remote_build::docker::ExecCompile, CompileOutcome>) -> CompileOutcome {
    match p {
        Progress::Finished(o) => o,
        Progress::Run(..) => panic!("should finish"),
    }
}

#[test]
fn unknown_source_type_is_not_built() {
    let o = finished(exec_compile(settings(), ID.to_string(), "go"));
    assert!(!o.success);
    assert_eq!(o.status_code, 1);
    assert_eq!(o.output, "unknown source type: go");
}

#[test]
fn build_reads_its_log() {
    let job = match exec_compile(settings(), ID.to_string(), "c") {
        Progress::Run(j, args) => {
            assert_eq!(args.len(), 9);
            assert_eq!(args[..8].to_vec(), strs(&["exec", "-w", &format!("/var/code/{}", ID), "build-container", "timeout", "300s", "bash", "-c"]));
            assert_eq!(args[8], build_script("c").unwrap());
            j
        }
        Progress::Finished(_) => panic!(),
    };
    let job = match job.resume(failed(2, "out", "err")) {
        Progress::Run(j, args) => {
            assert_eq!(args, strs(&["exec", "build-container", "cat", &format!("/var/code/{}/output/build.log", ID)]));
            j
        }
        Progress::Finished(_) => panic!(),
    };
    let o = finished(job.resume(ok("main.c:1: error\n===EXIT_CODE:1===\n")));
    assert!(!o.success);
    assert_eq!(o.status_code, 1);
    assert_eq!(o.output, "main.c:1: error\n===EXIT_CODE:1===\n");
}

#[test]
fn build_success() {
    let job = match exec_compile(settings(), ID.to_string(), "rust") {
        Progress::Run(j, _) => j,
        Progress::Finished(_) => panic!(),
    };
    let job = match job.resume(ok("")) {
        Progress::Run(j, _) => j,
        Progress::Finished(_) => panic!(),
    };
    let o = finished(job.resume(ok("Compiling\n===EXIT_CODE:0===\n")));
    assert!(o.success);
    assert_eq!(o.status_code, 0);
}

#[test]
fn unreadable_log_falls_back_to_printed_output() {
    let job = match exec_compile(settings(), ID.to_string(), "cpp") {
        Progress::Run(j, _) => j,
        Progress::Finished(_) => panic!(),
    };
    let job = match job.resume(failed(124, "partial", "timeout")) {
        Progress::Run(j, _) => j,
        Progress::Finished(_) => panic!(),
    };
    let o = finished(job.resume(failed(1, "", "cat: no such file")));
    assert_eq!(o.output, "partial\ntimeout");
    assert_eq!(o.status_code, 124);
    assert!(!o.success);
}

#[test]
fn unreadable_log_without_stderr() {
    let job = match exec_compile(settings(), ID.to_string(), "c") {
        Progress::Run(j, _) => j,
        Progress::Finished(_) => panic!(),
    };
    let job = match job.resume(Ok(CommandOutput { success: false, code: None, stdout: vec![], stdout_text: "only out".into(), stderr_text: String::new() })) {
        Progress::Run(j, _) => j,
        Progress::Finished(_) => panic!(),
    };
    let o = finished(job.resume(Err("spawn".into())));
    assert_eq!(o.output, "only out");
    assert_eq!(o.status_code, 1);
}

#[test]
fn failed_build_command() {
    let job = match exec_compile(settings(), ID.to_string(), "c") {
        Progress::Run(j, _) => j,
        Progress::Finished(_) => panic!(),
    };
    let o = finished(job.resume(Err("No such file".into())));
    assert!(!o.success);
    assert_eq!(o.status_code, 1);
    assert_eq!(o.output, "docker exec failed: No such file");
}

#[test]
fn output_packing() {
    let (job, args) = exec_zip_output(settings(), ID.to_string());
    let dir = format!("/var/code/{}/output", ID);
    assert_eq!(args, strs(&["exec", "build-container", "test", "-d", &dir]));
    let job = match job.resume(ok("")) {
        Progress::Run(j, args) => {
            assert_eq!(args, strs(&["exec", "-w", &dir, "build-container", "zip", "-r", "-", "."]));
            j
        }
        Progress::Finished(_) => panic!(),
    };
    let zipped = Ok(CommandOutput { success: true, code: Some(0), stdout: vec![0x50, 0x4b, 0xff], stdout_text: String::new(), stderr_text: String::new() });
    match job.resume(zipped) {
        Progress::Finished(r) => assert_eq!(r, Ok(vec![0x50, 0x4b, 0xff])),
        Progress::Run(..) => panic!(),
    }
}

#[test]
fn missing_output_directory() {
    let (job, _) = exec_zip_output(settings(), ID.to_string());
    match job.resume(failed(1, "", "")) {
        Progress::Finished(r) => assert_eq!(r, Err("WORKSPACE_NOT_FOUND".to_string())),
        Progress::Run(..) => panic!(),
    }
    let (job, _) = exec_zip_output(settings(), ID.to_string());
    match job.resume(Err("gone".into())) {
        Progress::Finished(r) => assert_eq!(r, Err("check output dir: gone".to_string())),
        Progress::Run(..) => panic!(),
    }
}

#[test]
fn cleanup() {
    let (job, args) = exec_cleanup(settings(), ID.to_string());
    assert_eq!(args, strs(&["exec", "build-container", "rm", "-rf", &format!("/var/code/{}", ID)]));
    assert_eq!(job.resume(ok("")), Ok(()));
    let (job, _) = exec_cleanup(settings(), ID.to_string());
    assert_eq!(job.resume(Err("x".into())), Err("docker rm: x".to_string()));
    let (job, _) = exec_cleanup(settings(), ID.to_string());
    assert_eq!(job.resume(failed(1, "", "busy")), Err("busy".to_string()));
}

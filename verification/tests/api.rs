use remote_build::api::{
    compile_handler, delete_workspace_handler, output_handler, sync_handler, CompileQuery, CompileStep, DeleteStep,
    FileEntry, OutputQuery, OutputStep, SyncAction, SyncQuery, SyncRequest, SyncStep,
};
use remote_build::api::{workspace_expired, WORKSPACE_TTL_NANOS};
use remote_build::codec::{encode_contents, is_valid_uuid};
use remote_build::docker::CompileOutcome;
use remote_build::error::{ApiError, ErrorCode};

const ID: &str = "550e8400-e29b-41d4-a716-446655440000";

fn file(path: &str, data: &[u8]) -> FileEntry {
    FileEntry { path: path.to_string(), content: encode_contents(data) }
}

fn sync(files: Vec<FileEntry>, source_type: &str) -> SyncStep {
    sync_handler(Ok(()), SyncQuery { source_type: source_type.to_string() }, SyncRequest { files })
}

fn error_of(step: SyncStep) -> ApiError {
    match step {
        SyncStep::Reply(Err(e)) => e,
        _ => panic!("expected an error answer"),
    }
}

#[test]
fn full_sync_writes_every_file_then_copies() {
    let files = vec![file("main.c", b"int main(){return 0;}"), file("lib/util.h", b"#pragma once\n")];
    let mut step = sync(files, "c");
    let mut log: Vec<String> = Vec::new();
    let mut workspace = String::new();
    let answer = loop {
        step = match step {
            SyncStep::Reply(r) => break r,
            SyncStep::Perform(h, action) => {
                match action {
                    SyncAction::EnsureContainer => log.push("ensure".into()),
                    SyncAction::CreateWorkspace { workspace_id } => {
                        assert!(is_valid_uuid(&workspace_id));
                        workspace = workspace_id;
                        log.push("workspace".into());
                    }
                    SyncAction::CreateParentDir { workspace_id, path } => {
                        assert_eq!(workspace_id, workspace);
                        log.push(format!("dir {}", path));
                    }
                    SyncAction::WriteFile { workspace_id, path, contents } => {
                        assert_eq!(workspace_id, workspace);
                        log.push(format!("write {} {}", path, contents.len()));
                    }
                    SyncAction::CopyWorkspace { workspace_id } => {
                        assert_eq!(workspace_id, workspace);
                        log.push("copy".into());
                    }
                }
                h.resume(Ok(()))
            }
        };
    };
    let r = answer.ok().expect("success");
    assert!(r.success);
    assert_eq!(r.workspace_id, workspace);
    assert_eq!(r.source_type, "c");
    assert_eq!(
        log,
        vec!["ensure", "workspace", "dir main.c", "write main.c 21", "dir lib/util.h", "write lib/util.h 13", "copy"]
    );
}

#[test]
fn written_bytes_are_the_uploaded_bytes() {
    let data: Vec<u8> = (0u8..=255).rev().collect();
    let mut step = sync(vec![file("blob.bin", &data)], "rust");
    loop {
        step = match step {
            SyncStep::Reply(_) => panic!("no write happened"),
            SyncStep::Perform(h, SyncAction::WriteFile { contents, .. }) => {
                assert_eq!(contents, data);
                let _ = h;
                return;
            }
            SyncStep::Perform(h, _) => h.resume(Ok(())),
        };
    }
}

#[test]
fn sync_request_checks() {
    let e = error_of(sync(vec![], "c"));
    assert_eq!(e.code, ErrorCode::FileWriteFailed);
    assert_eq!(e.message, "At least one file is required");
    let e = error_of(sync(vec![file("a.c", b"x")], "java"));
    assert_eq!(e.code, ErrorCode::InvalidSourceType);
    assert_eq!(e.status(), 400);
    assert_eq!(e.message, "Source type must be c, cpp, or rust");
    let limited = ApiError { code: ErrorCode::RateLimitExceeded, message: "slow down".into() };
    match sync_handler(Err(limited), SyncQuery { source_type: "c".into() }, SyncRequest { files: vec![] }) {
        SyncStep::Reply(Err(e)) => assert_eq!(e.code, ErrorCode::RateLimitExceeded),
        _ => panic!(),
    }
}

fn after_container(files: Vec<FileEntry>, container: Result<(), String>) -> SyncStep {
    match sync(files, "cpp") {
        SyncStep::Perform(h, SyncAction::EnsureContainer) => h.resume(container),
        _ => panic!(),
    }
}

#[test]
fn container_failure_comes_before_file_checks() {
    let e = error_of(after_container(vec![file("../x", b"")], Err("daemon down".into())));
    assert_eq!(e.code, ErrorCode::DockerUnavailable);
    assert_eq!(e.status(), 503);
    assert_eq!(e.message, "Docker unavailable: daemon down");
}

#[test]
fn first_bad_file_is_reported() {
    let big = FileEntry { path: "big.bin".into(), content: "A".repeat(69905068) };
    let e = error_of(after_container(vec![file("ok.c", b"1"), big, file("/abs", b"")], Ok(())));
    assert_eq!(e.code, ErrorCode::PayloadTooLarge);
    assert_eq!(e.status(), 507);
    assert_eq!(e.message, "File exceeds 50MB limit: big.bin");
    let e = error_of(after_container(vec![file("ok.c", b"1"), file("/abs", b"")], Ok(())));
    assert_eq!(e.code, ErrorCode::InvalidPath);
    assert_eq!(e.message, "Invalid or unsafe file path: /abs");
}

fn to_first_dir(files: Vec<FileEntry>) -> remote_build::api::SyncHandler {
    match after_container(files, Ok(())) {
        SyncStep::Perform(h, SyncAction::CreateWorkspace { .. }) => match h.resume(Ok(())) {
            SyncStep::Perform(h, SyncAction::CreateParentDir { .. }) => h,
            _ => panic!(),
        },
        _ => panic!(),
    }
}

#[test]
fn workspace_creation_failure() {
    match after_container(vec![file("a.c", b"")], Ok(())) {
        SyncStep::Perform(h, SyncAction::CreateWorkspace { .. }) => {
            let e = error_of(h.resume(Err("disk full".into())));
            assert_eq!(e.code, ErrorCode::FileWriteFailed);
            assert_eq!(e.status(), 500);
            assert_eq!(e.message, "Failed to create workspace directory: disk full");
        }
        _ => panic!(),
    }
}

#[test]
fn bad_base64_is_reported_with_its_file() {
    let h = to_first_dir(vec![FileEntry { path: "a.c".into(), content: "@@@".into() }]);
    let e = error_of(h.resume(Ok(())));
    assert_eq!(e.code, ErrorCode::FileWriteFailed);
    assert!(e.message.starts_with("Invalid base64 in file a.c: "));
    assert!(e.message.len() > "Invalid base64 in file a.c: ".len());
}

#[test]
fn folder_and_write_failures() {
    let h = to_first_dir(vec![file("a.c", b"x")]);
    let e = error_of(h.resume(Err("denied".into())));
    assert_eq!(e.message, "Failed to create folder structure: denied");
    let h = to_first_dir(vec![file("a.c", b"x")]);
    match h.resume(Ok(())) {
        SyncStep::Perform(h, SyncAction::WriteFile { .. }) => {
            let e = error_of(h.resume(Err("io".into())));
            assert_eq!(e.code, ErrorCode::FileWriteFailed);
            assert_eq!(e.message, "Failed to write file a.c: io");
        }
        _ => panic!(),
    }
}

#[test]
fn copy_failure() {
    let h = to_first_dir(vec![file("a.c", b"x")]);
    let h = match h.resume(Ok(())) {
        SyncStep::Perform(h, SyncAction::WriteFile { .. }) => h,
        _ => panic!(),
    };
    match h.resume(Ok(())) {
        SyncStep::Perform(h, SyncAction::CopyWorkspace { .. }) => {
            let e = error_of(h.resume(Err("cp failed".into())));
            assert_eq!(e.code, ErrorCode::DockerExecFailed);
            assert_eq!(e.message, "Failed to copy workspace to Docker: cp failed");
        }
        _ => panic!(),
    }
}

fn compile_query(id: &str, t: &str) -> CompileQuery {
    CompileQuery { workspace_id: id.to_string(), source_type: t.to_string() }
}

#[test]
fn compile_flow() {
    let job = match compile_handler(Ok(()), compile_query(ID, "c")) {
        CompileStep::CheckWorkspace(j) => {
            assert_eq!(j.workspace_id(), ID);
            assert_eq!(j.source_type(), "c");
            j
        }
        _ => panic!(),
    };
    let job = match job.workspace_checked(true) {
        CompileStep::CheckContainer(j) => j,
        _ => panic!(),
    };
    let job = match job.container_checked(Ok(())) {
        CompileStep::Touch(j) => j,
        _ => panic!(),
    };
    let job = match job.touched() {
        CompileStep::Build(j) => j,
        _ => panic!(),
    };
    let r = job.built(CompileOutcome { success: false, status_code: 2, output: "log".into() });
    assert!(!r.success);
    assert_eq!(r.workspace_id, ID);
    assert_eq!(r.status_code, 2);
    assert_eq!(r.output, "log");
}

fn compile_failure(step: CompileStep) -> ApiError {
    match step {
        CompileStep::Reply(Err(e)) => e,
        _ => panic!(),
    }
}

#[test]
fn compile_checks() {
    let e = compile_failure(compile_handler(Ok(()), compile_query("nope", "go")));
    assert_eq!(e.code, ErrorCode::WorkspaceNotFound);
    assert_eq!(e.status(), 404);
    assert_eq!(e.message, "Workspace not found or expired");
    let e = compile_failure(compile_handler(Ok(()), compile_query(ID, "go")));
    assert_eq!(e.code, ErrorCode::InvalidSourceType);
    let job = match compile_handler(Ok(()), compile_query(ID, "cpp")) {
        CompileStep::CheckWorkspace(j) => j,
        _ => panic!(),
    };
    let e = compile_failure(job.workspace_checked(false));
    assert_eq!(e.code, ErrorCode::WorkspaceNotFound);
    let job = match compile_handler(Ok(()), compile_query(ID, "cpp")) {
        CompileStep::CheckWorkspace(j) => match j.workspace_checked(true) {
            CompileStep::CheckContainer(j) => j,
            _ => panic!(),
        },
        _ => panic!(),
    };
    let e = compile_failure(job.container_checked(Err("down".into())));
    assert_eq!(e.code, ErrorCode::DockerUnavailable);
    assert_eq!(e.message, "Docker unavailable: down");
}

fn to_packing() -> remote_build::api::OutputJob<remote_build::api::Packing> {
    let job = match output_handler(Ok(()), OutputQuery { workspace_id: ID.into() }) {
        OutputStep::CheckWorkspace(j) => j,
        _ => panic!(),
    };
    let job = match job.workspace_checked(true) {
        OutputStep::CheckContainer(j) => j,
        _ => panic!(),
    };
    let job = match job.container_checked(Ok(())) {
        OutputStep::Touch(j) => j,
        _ => panic!(),
    };
    match job.touched() {
        OutputStep::Package(j) => j,
        _ => panic!(),
    }
}

#[test]
fn output_flow() {
    let a = to_packing().packaged(Ok(vec![1, 2, 3])).ok().unwrap();
    assert_eq!(a.bytes, vec![1, 2, 3]);
    assert_eq!(a.content_disposition, format!("attachment; filename=\"{}-output.zip\"", ID));
    let e = to_packing().packaged(Err("WORKSPACE_NOT_FOUND".into())).err().unwrap();
    assert_eq!(e.code, ErrorCode::WorkspaceNotFound);
    assert_eq!(e.message, "Output directory not found (compile may have failed)");
    let e = to_packing().packaged(Err("zip: error".into())).err().unwrap();
    assert_eq!(e.code, ErrorCode::DockerExecFailed);
    assert_eq!(e.message, "Failed to package build output: zip: error");
}

#[test]
fn output_checks() {
    match output_handler(Ok(()), OutputQuery { workspace_id: "x".into() }) {
        OutputStep::Reply(Err(e)) => assert_eq!(e.code, ErrorCode::WorkspaceNotFound),
        _ => panic!(),
    }
    match output_handler(Ok(()), OutputQuery { workspace_id: ID.into() }) {
        OutputStep::CheckWorkspace(j) => match j.workspace_checked(false) {
            OutputStep::Reply(Err(e)) => assert_eq!(e.message, "Workspace not found or expired"),
            _ => panic!(),
        },
        _ => panic!(),
    }
}

#[test]
fn delete_flow() {
    let removal = match delete_workspace_handler(Ok(()), ID.to_string()) {
        DeleteStep::CheckWorkspace(j) => match j.workspace_checked(true) {
            DeleteStep::Remove(r) => r,
            _ => panic!(),
        },
        _ => panic!(),
    };
    assert_eq!(removal.workspace_id(), ID);
    let d = removal.removed(Ok(()), Ok(())).ok().unwrap();
    assert!(d.success);
    assert_eq!(d.workspace_id, ID);
    assert_eq!(d.message, "Workspace deleted");
}

#[test]
fn delete_failures_report_both_sides() {
    let removal = match delete_workspace_handler(Ok(()), ID.to_string()) {
        DeleteStep::CheckWorkspace(j) => match j.workspace_checked(true) {
            DeleteStep::Remove(r) => r,
            _ => panic!(),
        },
        _ => panic!(),
    };
    let e = removal.removed(Ok(()), Err("\"busy\"".into())).err().unwrap();
    assert_eq!(e.code, ErrorCode::FileWriteFailed);
    assert_eq!(
        e.message,
        "Failed to clean up workspace resources. Local error: None, Docker error: Some(\"busy\")"
    );
    match delete_workspace_handler(Ok(()), "../../etc".to_string()) {
        DeleteStep::Reply(Err(e)) => assert_eq!(e.code, ErrorCode::WorkspaceNotFound),
        _ => panic!(),
    }
}

#[test]
fn workspace_expiry() {
    let hour = WORKSPACE_TTL_NANOS;
    assert_eq!(hour, 3600 * 1_000_000_000);
    assert!(workspace_expired(Some(Some(hour + 1)), None));
    assert!(!workspace_expired(Some(Some(hour)), Some(Some(hour * 5))));
    assert!(!workspace_expired(Some(None), Some(Some(hour * 5))));
    assert!(workspace_expired(None, Some(Some(hour * 2))));
    assert!(!workspace_expired(None, Some(None)));
    assert!(!workspace_expired(None, None));
}

#[test]
fn upload_over_total_limit_is_refused() {
    // Each file decodes to 36,000,000 bytes, under the per-file limit; the
    // three together pass the 100 MB total.
    let part = "A".repeat(48_000_000);
    let files = vec![
        FileEntry { path: "a.bin".into(), content: part.clone() },
        FileEntry { path: "b.bin".into(), content: part.clone() },
        FileEntry { path: "c.bin".into(), content: part },
    ];
    let e = error_of(after_container(files, Ok(())));
    assert_eq!(e.code, ErrorCode::PayloadTooLarge);
    assert_eq!(e.status(), 507);
    assert_eq!(e.message, "Upload exceeds 100MB total limit");
    assert_eq!(e.to_response().error_code, "PAYLOAD_TOO_LARGE");
}

#[test]
fn upload_just_under_total_limit_goes_on() {
    // Two files of 51,750,000 decoded bytes each: 103,500,000 in all, under
    // 104,857,600.
    let part = "A".repeat(69_000_000);
    let files = vec![
        FileEntry { path: "a.bin".into(), content: part.clone() },
        FileEntry { path: "b.bin".into(), content: part },
    ];
    match after_container(files, Ok(())) {
        SyncStep::Perform(_, SyncAction::CreateWorkspace { .. }) => {}
        _ => panic!("expected the workspace to be made"),
    }
}

#[test]
fn new_workspace_id_is_version_4() {
    match after_container(vec![file("a.c", b"x")], Ok(())) {
        SyncStep::Perform(_, SyncAction::CreateWorkspace { workspace_id }) => {
            let c: Vec<char> = workspace_id.chars().collect();
            assert_eq!(c.len(), 36);
            assert_eq!(c[14], '4');
            assert!("89ab".contains(c[19]), "{}", workspace_id);
            assert!(is_valid_uuid(&workspace_id));
            assert_eq!(workspace_id, workspace_id.to_lowercase());
        }
        _ => panic!("expected the workspace to be made"),
    }
}

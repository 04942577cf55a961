use remote_build::codec::{decode_contents, encode_contents, is_valid_uuid, new_workspace_id};
use remote_build::error::{ApiError, ErrorCode};
use remote_build::exit_code::extract_exit_code;
use remote_build::validation::{exceeds_file_limit, is_path_safe, is_supported_source_type, MAX_FILE_BYTES};

#[test]
fn safe_paths_are_accepted() {
    assert!(is_path_safe("main.c"));
    assert!(is_path_safe("src/lib/util.cpp"));
    assert!(is_path_safe("a_b-c.d/e"));
    assert!(is_path_safe("dir\\file.c"));
    assert!(is_path_safe(".hidden"));
}

#[test]
fn unsafe_paths_are_refused() {
    assert!(!is_path_safe(""));
    assert!(!is_path_safe("/etc/passwd"));
    assert!(!is_path_safe("\\windows"));
    assert!(!is_path_safe("../escape.c"));
    assert!(!is_path_safe("a/../b"));
    assert!(!is_path_safe("a..b"));
    assert!(!is_path_safe("with space.c"));
    assert!(!is_path_safe("caf\u{e9}.c"));
    assert!(!is_path_safe("x:y"));
}

#[test]
fn source_types() {
    assert!(is_supported_source_type("c"));
    assert!(is_supported_source_type("cpp"));
    assert!(is_supported_source_type("rust"));
    assert!(!is_supported_source_type("C"));
    assert!(!is_supported_source_type("python"));
    assert!(!is_supported_source_type(""));
}

#[test]
fn file_size_limit_boundary() {
    assert_eq!(MAX_FILE_BYTES, 50 * 1024 * 1024);
    assert!(!exceeds_file_limit(0));
    assert!(!exceeds_file_limit(69905067));
    assert!(exceeds_file_limit(69905068));
    assert!(exceeds_file_limit(usize::MAX));
}

#[test]
fn exit_code_is_read_from_the_log() {
    assert_eq!(extract_exit_code("building...\n===EXIT_CODE:0===\n", 7), 0);
    assert_eq!(extract_exit_code("error: x\n===EXIT_CODE:2===\n", 0), 2);
    assert_eq!(extract_exit_code("===EXIT_CODE:-5===", 0), -5);
    assert_eq!(extract_exit_code("===EXIT_CODE:+7===", 0), 7);
    assert_eq!(extract_exit_code("===EXIT_CODE:2147483647===", 0), 2147483647);
    assert_eq!(extract_exit_code("===EXIT_CODE:-2147483648===", 0), -2147483648);
    assert_eq!(extract_exit_code("a===EXIT_CODE:1===b===EXIT_CODE:9===", 0), 1);
}

#[test]
fn exit_code_falls_back() {
    assert_eq!(extract_exit_code("no marker here", 42), 42);
    assert_eq!(extract_exit_code("===EXIT_CODE:3", 42), 42);
    assert_eq!(extract_exit_code("===EXIT_CODE:abc===", 42), 42);
    assert_eq!(extract_exit_code("===EXIT_CODE:===", 42), 42);
    assert_eq!(extract_exit_code("===EXIT_CODE:-===", 42), 42);
    assert_eq!(extract_exit_code("===EXIT_CODE:2147483648===", 42), 42);
    assert_eq!(extract_exit_code("===EXIT_CODE:99999999999999999999===", 42), 42);
    assert_eq!(extract_exit_code("===EXIT_CODE: 1===", 42), 42);
    assert_eq!(extract_exit_code("", -1), -1);
}

#[test]
fn exit_code_after_non_ascii_text() {
    assert_eq!(extract_exit_code("d\u{e9}j\u{e0} vu \u{1F600}\n===EXIT_CODE:13===\n", 0), 13);
}

#[test]
fn uuid_forms() {
    assert!(is_valid_uuid("550e8400-e29b-41d4-a716-446655440000"));
    assert!(is_valid_uuid("550E8400-E29B-41D4-A716-446655440000"));
    assert!(is_valid_uuid("550e8400e29b41d4a716446655440000"));
    assert!(is_valid_uuid("{550e8400-e29b-41d4-a716-446655440000}"));
    assert!(is_valid_uuid("urn:uuid:550e8400-e29b-41d4-a716-446655440000"));
    assert!(is_valid_uuid("URN:UUID:550e8400-e29b-41d4-a716-446655440000"));
    assert!(!is_valid_uuid(""));
    assert!(!is_valid_uuid("not-a-uuid"));
    assert!(!is_valid_uuid("550e8400-e29b-41d4-a716-44665544000g"));
    assert!(!is_valid_uuid("550e8400e29b-41d4-a716-4466554400000"));
    assert!(!is_valid_uuid("../550e8400-e29b-41d4-a716-446655440000"));
}

#[test]
fn fresh_workspace_ids_are_lower_case_hyphenated() {
    let id = new_workspace_id();
    assert_eq!(id.len(), 36);
    assert!(is_valid_uuid(&id));
    for (i, c) in id.chars().enumerate() {
        if i == 8 || i == 13 || i == 18 || i == 23 {
            assert_eq!(c, '-');
        } else {
            assert!(c.is_ascii_digit() || ('a'..='f').contains(&c));
        }
    }
    assert_ne!(new_workspace_id(), id);
}

#[test]
fn base64_contents() {
    assert_eq!(encode_contents(b""), "");
    assert_eq!(encode_contents(b"f"), "Zg==");
    assert_eq!(encode_contents(b"fo"), "Zm8=");
    assert_eq!(encode_contents(b"foo"), "Zm9v");
    assert_eq!(encode_contents(b"hello world~"), "aGVsbG8gd29ybGR+");
    assert_eq!(encode_contents(&[0xfb, 0xff]), "+/8=");
    assert_eq!(decode_contents("aGVsbG8=").unwrap(), b"hello".to_vec());
}

#[test]
fn base64_round_trip() {
    let data: Vec<u8> = (0u8..=255).collect();
    let text = encode_contents(&data);
    assert_eq!(decode_contents(&text).unwrap(), data);
}

#[test]
fn base64_refuses_bad_text() {
    assert!(decode_contents("a").is_err());
    assert!(decode_contents("@@@@").is_err());
    assert!(decode_contents("aGVsbG8").is_err());
}

#[test]
fn error_codes_and_statuses() {
    let table = [
        (ErrorCode::InvalidSourceType, "INVALID_SOURCE_TYPE", 400),
        (ErrorCode::InvalidPath, "INVALID_PATH", 400),
        (ErrorCode::PayloadTooLarge, "PAYLOAD_TOO_LARGE", 507),
        (ErrorCode::DockerUnavailable, "DOCKER_UNAVAILABLE", 503),
        (ErrorCode::WorkspaceNotFound, "WORKSPACE_NOT_FOUND", 404),
        (ErrorCode::FileWriteFailed, "FILE_WRITE_FAILED", 500),
        (ErrorCode::DockerExecFailed, "DOCKER_EXEC_FAILED", 500),
        (ErrorCode::RateLimitExceeded, "RATE_LIMIT_EXCEEDED", 429),
    ];
    for (code, name, status) in table {
        assert_eq!(code.name(), name);
        assert_eq!(code.status(), status);
        let e = ApiError { code, message: "m".to_string() };
        assert_eq!(e.status(), status);
        let body = e.to_response();
        assert!(!body.success);
        assert_eq!(body.error_code, name);
        assert_eq!(body.message, "m");
    }
}

use remote_build::client::{
    extract_zip, is_skipped_component, project_file, project_path, ExtractAction, ExtractStep,
};
use remote_build::codec::{decode_contents, encode_contents};
use std::io::Write;

fn parts(v: &[&str]) -> Vec<String> {
    v.iter().map(|s| s.to_string()).collect()
}

#[test]
fn skipped_components() {
    for name in [".git", ".vscode", "target", "build", "node_modules", "dist", "__pycache__", "."] {
        assert!(is_skipped_component(name), "{}", name);
    }
    for name in ["src", "Target", "builds", "main.c", ""] {
        assert!(!is_skipped_component(name), "{}", name);
    }
}

#[test]
fn project_paths() {
    assert_eq!(project_path(&parts(&["src", "main.c"]), "src/main.c"), Some("src/main.c".to_string()));
    assert_eq!(project_path(&parts(&["src", "main.c"]), "src\\main.c"), Some("src/main.c".to_string()));
    assert_eq!(project_path(&parts(&["target", "x"]), "target/x"), None);
    assert_eq!(project_path(&parts(&["src", ".env"]), "src/.env"), None);
    assert_eq!(project_path(&parts(&[]), ""), None);
}

#[test]
fn project_files_are_base64() {
    let e = project_file("a.c".to_string(), b"int main(){}");
    assert_eq!(e.path, "a.c");
    assert_eq!(e.content, "aW50IG1haW4oKXt9");
    assert_eq!(decode_contents(&e.content).unwrap(), b"int main(){}".to_vec());
}

fn archive(entries: &[(&str, Option<&[u8]>)]) -> Vec<u8> {
    let options = zip::write::SimpleFileOptions::default()
        .compression_method(zip::CompressionMethod::Stored);
    let mut w = zip::ZipWriter::new(std::io::Cursor::new(Vec::new()));
    for (name, data) in entries {
        match data {
            None => w.add_directory(*name, options).unwrap(),
            Some(d) => {
                w.start_file(*name, options).unwrap();
                w.write_all(d).unwrap();
            }
        }
    }
    w.finish().unwrap().into_inner()
}

fn action_text(a: &ExtractAction) -> String {
    match a {
        ExtractAction::CreateOutputDir { dir } => format!("output {}", dir),
        ExtractAction::CreateDir { name } => format!("dir {}", name),
        ExtractAction::CreateParentDir { name } => format!("parent {}", name),
        ExtractAction::CreateFile { name } => format!("create {}", name),
        ExtractAction::WriteFile { name, data } => {
            format!("write {} {}", name, String::from_utf8_lossy(data))
        }
    }
}

/// Runs an extraction to its end, every action succeeding, and gives the
/// actions asked for with the result.
fn run_extraction(data: &str) -> (Vec<String>, Result<Vec<String>, String>) {
    let mut actions = Vec::new();
    let mut step = extract_zip(data);
    loop {
        match step {
            ExtractStep::Finished(r) => return (actions, r),
            ExtractStep::Perform(job, action) => {
                actions.push(action_text(&action));
                step = job.resume(Ok(()));
            }
        }
    }
}

#[test]
fn extraction_follows_archive_order() {
    let bytes = archive(&[
        ("bin/", None),
        ("bin/app", Some(b"ELF")),
        ("build.log", Some(b"ok")),
    ]);
    let (actions, result) = run_extraction(&encode_contents(&bytes));
    assert_eq!(
        actions,
        vec![
            "output build-output".to_string(),
            "dir bin/".to_string(),
            "parent bin/app".to_string(),
            "create bin/app".to_string(),
            "write bin/app ELF".to_string(),
            "parent build.log".to_string(),
            "create build.log".to_string(),
            "write build.log ok".to_string(),
        ]
    );
    assert_eq!(result, Ok(vec!["bin/app".to_string(), "build.log".to_string()]));
}

#[test]
fn extraction_of_empty_archive() {
    let (actions, result) = run_extraction(&encode_contents(&archive(&[])));
    assert_eq!(actions, vec!["output build-output".to_string()]);
    assert_eq!(result, Ok(Vec::new()));
}

#[test]
fn extraction_rejects_bad_base64() {
    match extract_zip("not base64!") {
        ExtractStep::Finished(Err(e)) => assert!(e.contains("Invalid"), "{}", e),
        _ => panic!("expected an error"),
    }
}

#[test]
fn extraction_rejects_non_archive() {
    match extract_zip(&encode_contents(b"plain text, no archive")) {
        ExtractStep::Finished(Err(e)) => assert!(!e.is_empty()),
        _ => panic!("expected an error"),
    }
}

#[test]
fn extraction_stops_on_failed_action() {
    let bytes = archive(&[("a.txt", Some(b"x")), ("b.txt", Some(b"y"))]);
    let step = extract_zip(&encode_contents(&bytes));
    let step = match step {
        ExtractStep::Perform(job, ExtractAction::CreateOutputDir { .. }) => job.resume(Ok(())),
        _ => panic!("expected the output directory first"),
    };
    match step {
        ExtractStep::Perform(job, ExtractAction::CreateParentDir { name }) => {
            assert_eq!(name, "a.txt");
            match job.resume(Err("disk full".to_string())) {
                ExtractStep::Finished(Err(e)) => assert_eq!(e, "disk full"),
                _ => panic!("expected the failure to end the extraction"),
            }
        }
        _ => panic!("expected the first entry's parent directory"),
    }
}

#[test]
fn extraction_refuses_names_that_leave_the_output_directory() {
    for bad in ["../../x", "/abs/x", "a/../../x"] {
        let bytes = archive(&[("ok.txt", Some(b"1")), (bad, Some(b"2"))]);
        let (actions, result) = run_extraction(&encode_contents(&bytes));
        assert_eq!(
            actions,
            vec![
                "output build-output".to_string(),
                "parent ok.txt".to_string(),
                "create ok.txt".to_string(),
                "write ok.txt 1".to_string(),
            ]
        );
        assert_eq!(result, Err(format!("Unsafe path in archive: {}", bad)));
    }
}

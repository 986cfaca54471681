use neuronprompter::errors::{ApiError, CoreError, ServiceError};
use neuronprompter::files::{check_import_file, check_source_file, check_source_text, detect_language, script_from_file, FileKind, SyncAction, SyncReport, SyncedScript};

#[test]
fn languages_from_special_names() {
    assert_eq!(detect_language("Dockerfile"), "dockerfile");
    assert_eq!(detect_language("GNUmakefile"), "makefile");
    assert_eq!(detect_language("Gemfile"), "ruby");
    assert_eq!(detect_language("Jenkinsfile"), "groovy");
    assert_eq!(detect_language("CMakeLists.txt"), "cmake");
    assert_eq!(detect_language("dir/Makefile"), "makefile");
}

#[test]
fn languages_from_extensions() {
    assert_eq!(detect_language("build.py"), "python");
    assert_eq!(detect_language("MAIN.RS"), "rust");
    assert_eq!(detect_language("App.TSX"), "typescript");
    assert_eq!(detect_language("run.ps1"), "powershell");
    assert_eq!(detect_language("a.b.yml"), "yaml");
    assert_eq!(detect_language("README"), "text");
    assert_eq!(detect_language(".bashrc"), "text");
    assert_eq!(detect_language("archive.tar.gz"), "text");
    assert_eq!(detect_language("trailing."), "text");
}

#[test]
fn source_file_problems() {
    assert_eq!(check_source_file("/h/a.sh", &FileKind::Missing, 0), Err("file not found: /h/a.sh".to_string()));
    assert_eq!(check_source_file("/h/d", &FileKind::NotRegular, 0), Err("not a regular file: /h/d".to_string()));
    assert_eq!(check_source_file("/h/a.sh", &FileKind::Regular, 1_048_577), Err("file too large (1048577 bytes, max 1048576)".to_string()));
    assert_eq!(check_source_file("/h/a.sh", &FileKind::Regular, 1_048_576), Ok(()));
    assert_eq!(check_source_text("a\0b"), Err("file contains null bytes".to_string()));
    assert_eq!(check_source_text("ab"), Ok(()));
}

fn path_message(r: Result<(), ServiceError>) -> String {
    match r {
        Err(ServiceError::Core(CoreError::Validation { field, message })) => {
            assert_eq!(field, "path");
            message
        }
        _ => panic!("expected path validation error"),
    }
}

#[test]
fn import_file_checks_are_path_errors() {
    assert_eq!(path_message(check_import_file("/x", &FileKind::Missing, 0)), "file not found: /x");
    assert!(check_import_file("/x", &FileKind::Regular, 10).is_ok());
}

#[test]
fn imported_file_becomes_script() {
    let d = script_from_file(3, "/home/u/tools/deploy.sh", true, None, Some("echo hi".to_string())).ok().unwrap();
    assert_eq!(d.user_id, 3);
    assert_eq!(d.title, "deploy.sh");
    assert_eq!(d.content, "echo hi");
    assert_eq!(d.script_language, "bash");
    assert_eq!(d.source_path.as_deref(), Some("/home/u/tools/deploy.sh"));
    assert!(d.is_synced);
    let d = script_from_file(3, "/home/u/x.py", false, Some("ruby"), Some("p".to_string())).ok().unwrap();
    assert_eq!(d.script_language, "ruby");
    assert!(d.source_path.is_none());
    let d = script_from_file(3, "/", false, None, Some("p".to_string())).ok().unwrap();
    assert_eq!(d.title, "untitled");
    assert_eq!(d.script_language, "text");
}

#[test]
fn imported_file_text_problems() {
    let msg = |r: Result<_, ServiceError>| match r {
        Err(ServiceError::Core(CoreError::Validation { message, .. })) => message,
        _ => panic!("expected validation error"),
    };
    assert_eq!(msg(script_from_file(1, "/a/b.bin", false, None, None)), "file is not valid UTF-8: /a/b.bin");
    assert_eq!(msg(script_from_file(1, "/a/b.sh", false, None, Some("x\0".to_string()))), "file contains null bytes");
}

fn script(id: i64, content: &str, path: Option<&str>) -> SyncedScript {
    SyncedScript { id, title: format!("s{id}"), content: content.to_string(), source_path: path.map(|p| p.to_string()) }
}

#[test]
fn sync_report_counts_each_script_once() {
    let mut report = SyncReport::new();
    let unlinked = script(1, "a", None);
    assert!(matches!(report.begin_script(&unlinked), SyncAction::Done));

    let same = script(2, "b", Some("/p/2"));
    match report.begin_script(&same) {
        SyncAction::Read(p) => assert_eq!(p, "/p/2"),
        _ => panic!("expected read"),
    }
    assert!(matches!(report.after_read(&same, Ok("b".to_string())), SyncAction::Done));

    let failing = script(3, "c", Some("/p/3"));
    assert!(matches!(report.after_read(&failing, Err("file not found: /p/3".to_string())), SyncAction::Done));

    let changed = script(4, "d", Some("/p/4"));
    assert!(matches!(report.after_read(&changed, Ok("d2".to_string())), SyncAction::Update));
    report.after_update(&changed, Ok(()));

    let broken = script(5, "e", Some("/p/5"));
    assert!(matches!(report.after_read(&broken, Ok("e2".to_string())), SyncAction::Update));
    report.after_update(&broken, Err("locked".to_string()));

    assert_eq!((report.updated, report.unchanged, report.errors.len()), (1, 2, 2));
    assert_eq!(report.errors[0].script_id, 3);
    assert_eq!(report.errors[0].source_path, "/p/3");
    assert_eq!(report.errors[0].message, "file not found: /p/3");
    assert_eq!(report.errors[1].title, "s5");
    assert_eq!(report.errors[1].message, "failed to update script: locked");
}

#[test]
fn binary_import_answers_validation_error() {
    let err = script_from_file(1, "/home/u/test.bin", false, None, String::from_utf8(vec![0xFF, 0xFE, 0x00, 0x01, 0x80, 0x81]).ok()).err().unwrap();
    let api = ApiError::from_service_error(&err);
    assert_eq!(api.status, 400);
    assert_eq!(api.body.code, "VALIDATION_ERROR");
}

#[test]
fn directory_prefix_leaves_the_language_unchanged() {
    for name in ["Dockerfile", "CMakeLists.txt", "run.PY", "notes", "..", ".bashrc", "a.b.rs"] {
        let alone = detect_language(name);
        assert_eq!(detect_language(&format!("scripts/{name}")), alone);
        assert_eq!(detect_language(&format!("/home/u/deep/dir/{name}")), alone);
        assert_eq!(detect_language(&format!("/{name}")), alone);
    }
    assert_eq!(detect_language("/opt/tools/.."), "text");
    assert_eq!(detect_language("a.b.rs"), "rust");
}

#[test]
fn a_trailing_dot_component_is_not_a_file_name() {
    assert_eq!(detect_language("x/Makefile/."), "makefile");
    assert_eq!(detect_language("."), "text");
}

#[test]
fn blank_imported_files_are_refused() {
    for text in ["", "   ", "\n\t \r\n", "\u{3000}\u{a0}"] {
        match script_from_file(1, "/a/empty.sh", false, None, Some(text.to_string())) {
            Err(ServiceError::Core(CoreError::Validation { field, message })) => {
                assert_eq!(field, "content");
                assert_eq!(message, "content must not be empty or whitespace-only");
            }
            _ => panic!("expected a content error"),
        }
    }
    assert!(script_from_file(1, "/a/ok.sh", false, None, Some(" x ".to_string())).is_ok());
}

use neuronprompter::errors::ServiceError;
use neuronprompter::markdown::{check_import_file_count, check_import_size, export_file_name, is_markdown_file_name, markdown_file_content, split_markdown_frontmatter};

#[test]
fn frontmatter_is_split_from_body() {
    let (yaml, body) = split_markdown_frontmatter("---\ntitle: x\n---\n\nbody").ok().unwrap();
    assert_eq!(yaml, "\ntitle: x");
    assert_eq!(body, "body");
}

#[test]
fn frontmatter_line_endings_are_normalized() {
    let (yaml, body) = split_markdown_frontmatter("  \r\n---\r\ntitle: x\r---\r\n\r\nline1\rline2").ok().unwrap();
    assert_eq!(yaml, "\ntitle: x");
    assert_eq!(body, "line1\nline2");
}

#[test]
fn frontmatter_errors() {
    match split_markdown_frontmatter("no front matter") {
        Err(ServiceError::SerializationError(m)) => assert_eq!(m, "Markdown file missing YAML front-matter delimiter"),
        _ => panic!("expected missing delimiter"),
    }
    match split_markdown_frontmatter("---\ntitle: x\nbody") {
        Err(ServiceError::SerializationError(m)) => assert_eq!(m, "Markdown file missing closing front-matter delimiter"),
        _ => panic!("expected missing closing delimiter"),
    }
}

#[test]
fn export_layout() {
    assert_eq!(export_file_name(0), "prompt_001.md");
    assert_eq!(export_file_name(41), "prompt_042.md");
    assert_eq!(export_file_name(999), "prompt_1000.md");
    assert_eq!(markdown_file_content("title: x\n", "Hello"), "---\ntitle: x\n---\n\nHello");
}

#[test]
fn import_limits() {
    assert!(check_import_size(52428800).is_ok());
    match check_import_size(52428801) {
        Err(ServiceError::IoError(m)) => assert_eq!(m, "import file exceeds maximum allowed size of 52428800 bytes"),
        _ => panic!("expected size error"),
    }
    assert!(check_import_file_count(10000).is_ok());
    match check_import_file_count(10001) {
        Err(ServiceError::IoError(m)) => assert_eq!(m, "import directory contains 10001 files, exceeding maximum of 10000"),
        _ => panic!("expected count error"),
    }
}

#[test]
fn markdown_files_are_recognized_by_extension() {
    assert!(is_markdown_file_name("/tmp/bundle/prompt_001.md"));
    assert!(is_markdown_file_name("a.b.md"));
    assert!(!is_markdown_file_name(".md"));
    assert!(!is_markdown_file_name("notes.MD"));
    assert!(!is_markdown_file_name("notes.md.txt"));
    assert!(!is_markdown_file_name("dir.md/.."));
}

#[test]
fn markdown_export_then_import_round_trips() {
    let yaml = "title: Greeting\ntags:\n- hello\n";
    let body = "Hello {{name}}\n\n---\nfooter";
    let file = markdown_file_content(yaml, body);
    let (front, back) = split_markdown_frontmatter(&file).ok().unwrap();
    assert_eq!(front, "\ntitle: Greeting\ntags:\n- hello");
    assert_eq!(back, body);
    let (_, stripped) = split_markdown_frontmatter(&markdown_file_content(yaml, "\n\nx")).ok().unwrap();
    assert_eq!(stripped, "x");
}

use neuronprompter::ollama::{generate_request, improve_system_prompt, take_complete_lines, translate_system_prompt, trim_end_char, OllamaClient, OllamaStatus};

#[test]
fn client_urls_drop_trailing_slashes() {
    let c = OllamaClient::with_base_url("http://localhost:11434//");
    assert_eq!(c.base_url(), "http://localhost:11434");
    assert_eq!(c.endpoint("tags"), "http://localhost:11434/api/tags");
    assert_eq!(c.endpoint("generate"), "http://localhost:11434/api/generate");
    assert_eq!(trim_end_char("///", '/'), "");
    assert_eq!(trim_end_char("a/b", '/'), "a/b");
}

#[test]
fn generation_requests() {
    let r = generate_request("llama3", "hello", Some("sys"), None);
    assert_eq!((r.model.as_str(), r.prompt.as_str()), ("llama3", "hello"));
    assert!(!r.stream);
    assert_eq!(r.system.as_deref(), Some("sys"));
    assert!(r.format.is_none());
}

#[test]
fn workflow_instructions() {
    let t = translate_system_prompt("German");
    assert!(t.starts_with("Translate the following text to German. Rules:\n1. Preserve all formatting"));
    assert!(t.ends_with("4. Return only the translated text, no commentary"));
    let i = improve_system_prompt();
    assert!(i.starts_with("You are a prompt engineering expert."));
    assert!(i.ends_with("6. Return only the rewritten prompt"));
}

#[test]
fn status_from_health_check() {
    let s = OllamaStatus::from_health(Some(vec!["llama3".to_string()]));
    assert!(s.connected);
    assert_eq!(s.models, vec!["llama3"]);
    let s = OllamaStatus::from_health(None);
    assert!(!s.connected && s.models.is_empty());
}

#[test]
fn streamed_lines_are_cut_at_line_breaks() {
    let mut buf = String::from("{\"a\":1}\n  \n {\"b\":2} \n{\"c\"");
    let lines = take_complete_lines(&mut buf);
    assert_eq!(lines, vec!["{\"a\":1}", "{\"b\":2}"]);
    assert_eq!(buf, "{\"c\"");
    buf.push_str(":3}\n");
    assert_eq!(take_complete_lines(&mut buf), vec!["{\"c\":3}"]);
    assert_eq!(buf, "");
    let mut partial = String::from("no newline");
    assert!(take_complete_lines(&mut partial).is_empty());
    assert_eq!(partial, "no newline");
}

use neuronprompter::errors::ServiceError;
use neuronprompter::metadata::{clean_reply, language_code_from_reply, metadata_from_replies, parse_comma_list};

#[test]
fn comma_lists_are_cleaned_and_bounded() {
    assert_eq!(parse_comma_list(" coding, \"python\" ,, debugging , x", 4), vec!["coding", "python", "debugging", "x"]);
    assert_eq!(parse_comma_list("a,b,c,d,e", 3), vec!["a", "b", "c"]);
    assert!(parse_comma_list(" , ,", 4).is_empty());
    assert!(parse_comma_list("a", 0).is_empty());
}

#[test]
fn replies_are_cleaned() {
    assert_eq!(clean_reply("  \"A summary.\"\n"), "A summary.");
    assert_eq!(clean_reply("plain"), "plain");
}

#[test]
fn language_codes_fall_back_to_english() {
    assert_eq!(language_code_from_reply(" \"DE\" "), "de");
    assert_eq!(language_code_from_reply("fr"), "fr");
    assert_eq!(language_code_from_reply("English"), "en");
    assert_eq!(language_code_from_reply("e1"), "en");
}

#[test]
fn metadata_combines_partial_failures() {
    let m = metadata_from_replies(
        Ok("\"Does things.\"".to_string()),
        Err("Ollama error: bad".to_string()),
        Ok(" note ".to_string()),
        Ok("a, b, c, d, e".to_string()),
        Err("Ollama unavailable: down".to_string()),
    )
    .ok()
    .unwrap();
    assert_eq!(m.description, "Does things.");
    assert_eq!(m.language, "en");
    assert_eq!(m.notes, "note");
    assert_eq!(m.suggested_tags, vec!["a", "b", "c", "d"]);
    assert!(m.suggested_categories.is_empty());
    assert_eq!(m.errors, vec!["language: Ollama error: bad", "categories: Ollama unavailable: down"]);
}

#[test]
fn metadata_all_failed_means_unavailable() {
    let e = || Err("x".to_string());
    match metadata_from_replies(e(), e(), e(), e(), e()) {
        Err(ServiceError::OllamaUnavailable(m)) => assert_eq!(m, "All metadata derivation calls failed"),
        _ => panic!("expected OllamaUnavailable"),
    }
}

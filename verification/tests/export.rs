use neuronprompter::export::{build_exported_prompt, front_matter_for, is_false, ExportedBy, ImportSummary, PromptRecord, TaxonomyKind, VersionRecord};

fn record() -> PromptRecord {
    PromptRecord {
        title: "Title".to_string(),
        content: "Body".to_string(),
        description: Some("desc".to_string()),
        notes: None,
        language: Some("en".to_string()),
        is_favorite: true,
        tags: vec!["a".to_string(), "b".to_string()],
        categories: vec![],
        collections: vec!["c".to_string()],
    }
}

#[test]
fn exported_prompt_carries_all_fields() {
    let v = VersionRecord {
        version_number: 2,
        title: "Old".to_string(),
        content: "old body".to_string(),
        description: None,
        notes: Some("n".to_string()),
        language: None,
        created_at: "2026-01-01T00:00:00+00:00".to_string(),
    };
    let e = build_exported_prompt(&record(), &[v]);
    assert_eq!((e.title.as_str(), e.content.as_str()), ("Title", "Body"));
    assert_eq!(e.description.as_deref(), Some("desc"));
    assert!(e.notes.is_none());
    assert!(e.is_favorite);
    assert_eq!(e.tags, vec!["a", "b"]);
    assert!(e.categories.is_empty());
    assert_eq!(e.collections, vec!["c"]);
    assert_eq!(e.versions.len(), 1);
    assert_eq!(e.versions[0].version_number, 2);
    assert_eq!(e.versions[0].notes.as_deref(), Some("n"));
    assert_eq!(e.versions[0].created_at, "2026-01-01T00:00:00+00:00");
}

#[test]
fn front_matter_carries_metadata() {
    let f = front_matter_for(&record());
    assert_eq!(f.title, "Title");
    assert_eq!(f.language.as_deref(), Some("en"));
    assert_eq!(f.tags, vec!["a", "b"]);
    assert!(f.is_favorite);
    assert!(!is_false(&f.is_favorite));
    assert!(is_false(&false));
}

#[test]
fn import_summary_counts_created_entries() {
    let by = ExportedBy { username: "alice".to_string(), display_name: "Alice".to_string() };
    let mut s = ImportSummary::new(Some(by), 3);
    s.record_created(TaxonomyKind::Tag);
    s.record_created(TaxonomyKind::Tag);
    s.record_created(TaxonomyKind::Collection);
    assert_eq!((s.prompts_imported, s.tags_created, s.categories_created, s.collections_created), (3, 2, 0, 1));
    assert_eq!(s.source_user.unwrap().username, "alice");
}

use neuronprompter::changes::{check_import_versions, check_not_referenced, check_username_free, has_content_changes, has_field_updates, has_script_changes, new_chain_references, update_chain_references, ChainStepInput, PromptState, ScriptState, UpdateChain, UpdatePrompt, UpdateScript};
use neuronprompter::copy::StepType;
use neuronprompter::errors::CoreError;

fn prompt() -> PromptState {
    PromptState {
        title: "T".to_string(),
        content: "C".to_string(),
        description: None,
        notes: Some("n".to_string()),
        language: Some("en".to_string()),
    }
}

fn empty_update() -> UpdatePrompt {
    UpdatePrompt {
        prompt_id: 1,
        title: None,
        content: None,
        description: None,
        notes: None,
        language: None,
        tag_ids: None,
        category_ids: None,
        collection_ids: None,
        expected_version: None,
    }
}

#[test]
fn prompt_updates_detect_content_changes() {
    let p = prompt();
    assert!(!has_content_changes(&p, &empty_update()));
    let mut u = empty_update();
    u.title = Some("T".to_string());
    u.notes = Some(Some("n".to_string()));
    u.tag_ids = Some(vec![1]);
    assert!(!has_content_changes(&p, &u));
    u.description = Some(Some("d".to_string()));
    assert!(has_content_changes(&p, &u));
    let mut u = empty_update();
    u.language = Some(None);
    assert!(has_content_changes(&p, &u));
}

#[test]
fn script_updates_detect_content_changes() {
    let s = ScriptState {
        title: "T".to_string(),
        content: "C".to_string(),
        description: None,
        notes: None,
        script_language: "python".to_string(),
        language: None,
        source_path: None,
        is_synced: false,
    };
    let mut u = UpdateScript {
        script_id: 1,
        title: None,
        content: None,
        description: None,
        notes: None,
        script_language: Some("python".to_string()),
        language: None,
        source_path: None,
        is_synced: Some(false),
        tag_ids: None,
        category_ids: None,
        collection_ids: None,
        expected_version: None,
    };
    assert!(!has_script_changes(&s, &u));
    u.is_synced = Some(true);
    assert!(has_script_changes(&s, &u));
}

fn chain_update(prompt_ids: Option<Vec<i64>>, steps: Option<Vec<ChainStepInput>>) -> UpdateChain {
    UpdateChain {
        chain_id: 1,
        title: None,
        description: None,
        notes: None,
        language: None,
        separator: None,
        prompt_ids,
        steps,
        tag_ids: None,
        category_ids: None,
        collection_ids: None,
    }
}

#[test]
fn chain_step_references() {
    let steps = vec![ChainStepInput { step_type: StepType::Script, item_id: 4 }, ChainStepInput { step_type: StepType::Prompt, item_id: 5 }];
    let refs = new_chain_references(&steps, &[9]);
    let v: Vec<(bool, i64)> = refs.iter().map(|r| (r.is_prompt, r.id)).collect();
    assert_eq!(v, vec![(false, 4), (true, 5)]);
    let refs = new_chain_references(&[], &[9, 8]);
    let v: Vec<(bool, i64)> = refs.iter().map(|r| (r.is_prompt, r.id)).collect();
    assert_eq!(v, vec![(true, 9), (true, 8)]);

    assert!(update_chain_references(&chain_update(None, None)).is_none());
    let u = chain_update(Some(vec![1]), Some(vec![ChainStepInput { step_type: StepType::Script, item_id: 2 }]));
    let v: Vec<(bool, i64)> = update_chain_references(&u).unwrap().iter().map(|r| (r.is_prompt, r.id)).collect();
    assert_eq!(v, vec![(false, 2)]);
    assert!(!has_field_updates(&u));
    let mut u = chain_update(None, None);
    u.separator = Some("\n".to_string());
    assert!(has_field_updates(&u));
}

#[test]
fn referenced_entities_cannot_be_deleted() {
    assert!(check_not_referenced("prompt", 3, vec![]).is_ok());
    match check_not_referenced("prompt", 3, vec!["Chain A".to_string(), "Chain B".to_string()]) {
        Err(CoreError::EntityInUse { entity_type, entity_id, referencing_titles }) => {
            assert_eq!(entity_type, "prompt");
            assert_eq!(entity_id, 3);
            assert_eq!(referencing_titles, vec!["Chain A", "Chain B"]);
        }
        _ => panic!("expected entity in use"),
    }
}

#[test]
fn usernames_belong_to_one_user() {
    assert!(check_username_free(1, "alice", None).is_ok());
    assert!(check_username_free(1, "alice", Some(1)).is_ok());
    match check_username_free(1, "alice", Some(2)) {
        Err(CoreError::Duplicate { entity, field, value }) => assert_eq!((entity.as_str(), field.as_str(), value.as_str()), ("User", "username", "alice")),
        _ => panic!("expected duplicate"),
    }
}

#[test]
fn imported_version_numbers() {
    assert_eq!(check_import_versions(&[]).ok(), Some(None));
    assert_eq!(check_import_versions(&[1]).ok(), Some(None));
    assert_eq!(check_import_versions(&[2, 5, 3]).ok(), Some(Some(5)));
    match check_import_versions(&[1, 2, 1, 2]) {
        Err(CoreError::Validation { field, message }) => {
            assert_eq!(field, "version_number");
            assert_eq!(message, "Duplicate version number 1 in import data");
        }
        _ => panic!("expected duplicate version"),
    }
}

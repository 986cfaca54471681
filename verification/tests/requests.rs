use neuronprompter::files::FileKind;
use neuronprompter::requests::{SearchFilter, SearchPayload, chain_variables, check_app_setting, check_same_parent, check_version_parent, export_selection, health_response, step_title_and_content, toggle_value, unknown_user_error, BulkCopyRequest, BulkUpdatePayload, CreateTagPayload, ExportJsonPayload, ImportFilePayload, RestorePayload, SetAppSettingPayload, StepSource, StepVariableInfo, TogglePayload, VersionChoice};

#[test]
fn toggles_invert_unless_a_value_is_given() {
    assert!(toggle_value(&None, false));
    assert!(!toggle_value(&Some(TogglePayload { value: None }), true));
    assert!(toggle_value(&Some(TogglePayload { value: Some(true) }), true));
    assert!(!toggle_value(&Some(TogglePayload { value: Some(false) }), false));
}

fn bulk(ids: Vec<i64>) -> BulkUpdatePayload {
    BulkUpdatePayload {
        ids,
        set_favorite: Some(true),
        set_archived: None,
        add_tag_ids: vec![3],
        remove_tag_ids: vec![],
        add_category_ids: vec![],
        remove_category_ids: vec![],
        add_collection_ids: vec![],
        remove_collection_ids: vec![4],
    }
}

#[test]
fn bulk_payload_id_limits() {
    let i = bulk(vec![1, 2]).into_input().ok().unwrap();
    assert_eq!(i.ids, vec![1, 2]);
    assert_eq!(i.add_tag_ids, vec![3]);
    assert_eq!(i.remove_collection_ids, vec![4]);
    let e = bulk(vec![]).into_input().err().unwrap();
    assert_eq!((e.status, e.body.code.as_str(), e.body.message.as_str()), (400, "VALIDATION_ERROR", "ids must not be empty"));
    let e = bulk((0..1001).collect()).into_input().err().unwrap();
    assert_eq!(e.body.message, "too many IDs, maximum is 1000");
    assert!(bulk((0..1000).collect()).into_input().is_ok());
}

#[test]
fn restore_names_exactly_one_version() {
    assert!(matches!(RestorePayload { version_number: Some(3), version_id: None }.choice(), Ok(VersionChoice::Number(3))));
    assert!(matches!(RestorePayload { version_number: None, version_id: Some(9) }.choice(), Ok(VersionChoice::Id(9))));
    for p in [RestorePayload { version_number: None, version_id: None }, RestorePayload { version_number: Some(1), version_id: Some(2) }] {
        let e = p.choice().err().unwrap();
        assert_eq!(e.body.message, "Provide exactly one of version_number or version_id");
    }
    assert!(check_version_parent("prompt", 9, 4, 4).is_ok());
    let e = check_version_parent("script", 9, 5, 4).err().unwrap();
    assert_eq!((e.status, e.body.message.as_str()), (400, "Version 9 does not belong to script 4"));
    assert!(check_same_parent("prompt", 1, 1).is_ok());
    assert_eq!(check_same_parent("prompt", 1, 2).err().unwrap().body.message, "Both versions must belong to the same prompt");
}

#[test]
fn app_settings_allowlist() {
    let v = |s: &str| SetAppSettingPayload { value: s.to_string() };
    assert_eq!(check_app_setting("last_user_id", &v("42")).ok(), Some(42));
    let e = check_app_setting("theme", &v("dark")).err().unwrap();
    assert_eq!((e.status, e.body.code.as_str(), e.body.message.as_str()), (403, "FORBIDDEN", "app setting key 'theme' is not writable"));
    let e = check_app_setting("last_user_id", &v("4x")).err().unwrap();
    assert_eq!((e.status, e.body.message.as_str()), (400, "last_user_id must be a valid integer"));
    assert_eq!(unknown_user_error(7).body.message, "user with id 7 does not exist");
}

#[test]
fn payload_user_checks() {
    assert!(CreateTagPayload { user_id: 1, name: "t".to_string() }.authorize(1).is_ok());
    assert_eq!(CreateTagPayload { user_id: 2, name: "t".to_string() }.authorize(1).err().unwrap().status, 403);
    assert!(BulkCopyRequest { source_user_id: 1, target_user_id: 2 }.authorize(1).is_ok());
    assert!(BulkCopyRequest { source_user_id: 2, target_user_id: 1 }.authorize(1).is_err());
    let p = ExportJsonPayload { user_id: 1, prompt_ids: vec![], path: "/h/x.json".to_string() };
    assert!(p.exports_all());
    assert_eq!(export_selection(&p.prompt_ids, vec![4, 5]), vec![4, 5]);
    assert_eq!(export_selection(&vec![9], vec![4, 5]), vec![9]);
}

#[test]
fn import_file_payload_flow() {
    let p = ImportFilePayload { user_id: 1, path: "/h/run.lua".to_string(), is_synced: false, script_language: None };
    assert!(p.authorize(1).is_ok());
    assert!(p.check_file(&FileKind::Regular, 3).is_ok());
    assert!(p.check_file(&FileKind::Missing, 3).is_err());
    let d = p.to_script(Some("print(1)".to_string())).ok().unwrap();
    assert_eq!((d.title.as_str(), d.script_language.as_str()), ("run.lua", "lua"));
}

#[test]
fn chain_variables_are_deduplicated_in_order() {
    let step = |pos: i32, vars: &[&str]| StepVariableInfo {
        position: pos,
        step_type: "prompt".to_string(),
        title: format!("step {pos}"),
        variables: vars.iter().map(|v| v.to_string()).collect(),
    };
    let r = chain_variables(vec![step(0, &["name", "topic"]), step(1, &["topic", "tone", "name"]), step(2, &[])]);
    assert_eq!(r.variables, vec!["name", "topic", "tone"]);
    assert_eq!(r.steps.len(), 3);
    assert_eq!(r.steps[1].variables, vec!["topic", "tone", "name"]);
    let src = |t: &str, c: &str| Some(StepSource { title: t.to_string(), content: c.to_string() });
    assert_eq!(step_title_and_content(&src("P", "pc"), &src("S", "sc")), ("P".to_string(), "pc".to_string()));
    assert_eq!(step_title_and_content(&None, &src("S", "sc")), ("S".to_string(), "sc".to_string()));
    assert_eq!(step_title_and_content(&None, &None), (String::new(), String::new()));
}

#[test]
fn health_answer() {
    let h = health_response("1.2.3");
    assert_eq!((h.status.as_str(), h.version.as_str()), ("ok", "1.2.3"));
}

fn search(limit: Option<i64>) -> SearchPayload {
    SearchPayload {
        user_id: 1,
        query: "rust".to_string(),
        filter: SearchFilter {
            limit: Some(20),
            offset: Some(40),
            is_favorite: None,
            is_archived: Some(false),
            tag_id: None,
            category_id: Some(3),
            collection_id: None,
        },
        limit,
        offset: None,
        is_favorite: Some(true),
        is_archived: None,
        tag_id: Some(9),
        category_id: None,
        collection_id: None,
    }
}

#[test]
fn search_overrides_win_and_limit_is_clamped() {
    let mut p = search(Some(5000));
    p.apply_overrides();
    assert_eq!(p.filter.limit, Some(1000));
    assert_eq!(p.filter.offset, Some(40));
    assert_eq!(p.filter.is_favorite, Some(true));
    assert_eq!(p.filter.is_archived, Some(false));
    assert_eq!(p.filter.tag_id, Some(9));
    assert_eq!(p.filter.category_id, Some(3));
    let mut p = search(Some(0));
    p.apply_overrides();
    assert_eq!(p.filter.limit, Some(1));
    let mut p = search(None);
    p.apply_overrides();
    assert_eq!(p.filter.limit, Some(20));
    assert!(p.authorize(1).is_ok());
    assert!(p.authorize(2).is_err());
}

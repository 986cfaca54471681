use std::collections::BTreeSet;
use neuronprompter::associations::{check_bulk_owners, contains_id, id_difference, sync_associations, validate_bulk_update, verify_taxonomy_ownership, BulkUpdateInput, TaxonomyRef};
use neuronprompter::errors::CoreError;

fn set(v: &[i64]) -> BTreeSet<i64> {
    v.iter().copied().collect()
}

#[test]
fn sync_plan_reaches_desired_links() {
    let current = vec![1, 2, 3, 3];
    let desired = vec![3, 4, 4, 5];
    let plan = sync_associations(&current, &desired);
    assert_eq!(set(&plan.unlink), set(&[1, 2]));
    assert_eq!(set(&plan.link), set(&[4, 5]));
    assert_eq!(plan.link.len(), 2);
    let mut after = set(&current);
    for id in &plan.unlink {
        after.remove(id);
    }
    for id in &plan.link {
        after.insert(*id);
    }
    assert_eq!(after, set(&desired));
    assert!(contains_id(&[1, 2], 2));
    assert_eq!(id_difference(&[5, 6, 5], &[6]), vec![5]);
}

fn r(id: i64, owner: Option<i64>) -> TaxonomyRef {
    TaxonomyRef { id, owner }
}

#[test]
fn taxonomy_ownership_reports_first_failure() {
    assert!(verify_taxonomy_ownership(1, &[r(1, Some(1))], &[], &[r(5, Some(1))]).is_ok());
    match verify_taxonomy_ownership(1, &[r(1, Some(1)), r(2, None), r(3, Some(2))], &[], &[]) {
        Err(CoreError::NotFound { entity, id }) => {
            assert_eq!(entity, "Tag");
            assert_eq!(id, 2);
        }
        _ => panic!("expected not found"),
    }
    match verify_taxonomy_ownership(1, &[], &[r(7, Some(9))], &[r(8, None)]) {
        Err(CoreError::Validation { field, message }) => {
            assert_eq!(field, "category_ids");
            assert_eq!(message, "Category 7 belongs to another user");
        }
        _ => panic!("expected validation"),
    }
    match verify_taxonomy_ownership(1, &[], &[], &[r(4, Some(2))]) {
        Err(CoreError::Validation { field, message }) => {
            assert_eq!(field, "collection_ids");
            assert_eq!(message, "Collection 4 belongs to another user");
        }
        _ => panic!("expected validation"),
    }
}

fn bulk(ids: Vec<i64>, fav: Option<bool>) -> BulkUpdateInput {
    BulkUpdateInput {
        ids,
        set_favorite: fav,
        set_archived: None,
        add_tag_ids: vec![],
        remove_tag_ids: vec![],
        add_category_ids: vec![],
        remove_category_ids: vec![],
        add_collection_ids: vec![],
        remove_collection_ids: vec![],
    }
}

#[test]
fn bulk_update_validation() {
    assert!(validate_bulk_update(&bulk(vec![1], Some(true))).is_ok());
    let msg = |b: BulkUpdateInput| match validate_bulk_update(&b) {
        Err(CoreError::Validation { field, message }) => (field, message),
        _ => panic!("expected validation"),
    };
    assert_eq!(msg(bulk(vec![1], None)), ("operations".to_string(), "At least one operation must be specified".to_string()));
    assert!(!bulk(vec![1], None).has_operations());
}

#[test]
fn bulk_owners_must_match() {
    assert_eq!(check_bulk_owners("Prompt", 1, &[r(1, Some(1)), r(2, Some(1))]).ok(), Some(2));
    match check_bulk_owners("Prompt", 1, &[r(1, Some(1)), r(2, Some(3))]) {
        Err(CoreError::NotFound { entity, id }) => assert_eq!((entity.as_str(), id), ("Prompt", 2)),
        _ => panic!("expected not found"),
    }
}

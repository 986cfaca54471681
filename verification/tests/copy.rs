use std::collections::HashMap;
use neuronprompter::copy::{begin_chain_copy, ChainCopyStart, CopyRun, CopiedKind, build_step_mapping, decide_title, plan_step_copies, start_copy, steps_resolvable, title_candidate, ChainStepRef, CopySummary, StepType, TitleDecision};
use neuronprompter::errors::CoreError;
use neuronprompter::export::TaxonomyKind;

#[test]
fn copy_to_same_user_is_refused() {
    match start_copy(3, 3) {
        Err(CoreError::Validation { field, message }) => {
            assert_eq!(field, "target_user_id");
            assert_eq!(message, "Cannot copy to the same user");
        }
        _ => panic!("expected validation error"),
    }
    let s = start_copy(3, 4).ok().unwrap();
    assert_eq!((s.prompts_copied, s.scripts_copied, s.chains_copied), (0, 0, 0));
    assert!(s.skipped.is_empty());
}

#[test]
fn summary_records_skips() {
    let mut s = CopySummary::new();
    s.skip("prompt", "Hello", "Already exists with identical title and content");
    assert_eq!(s.skipped.len(), 1);
    assert_eq!(s.skipped[0].entity_type, "prompt");
    assert_eq!(s.skipped[0].title, "Hello");
}

#[test]
fn title_candidates_follow_the_pattern() {
    assert_eq!(title_candidate("Plan", "alice", 0), "Plan");
    assert_eq!(title_candidate("Plan", "alice", 1), "Plan (from alice)");
    assert_eq!(title_candidate("Plan", "alice", 2), "Plan (from alice 2)");
    assert_eq!(title_candidate("Plan", "alice", 10), "Plan (from alice 10)");
}

#[test]
fn title_search_steps_until_exhausted() {
    match decide_title("Plan", "bob", 0, false) {
        TitleDecision::Use(t) => assert_eq!(t, "Plan"),
        _ => panic!("expected use"),
    }
    match decide_title("Plan", "bob", 1, true) {
        TitleDecision::Check(n, t) => {
            assert_eq!(n, 2);
            assert_eq!(t, "Plan (from bob 2)");
        }
        _ => panic!("expected check"),
    }
    match decide_title("Plan", "bob", 10, true) {
        TitleDecision::Exhausted(CoreError::Validation { field, message }) => {
            assert_eq!(field, "title");
            assert_eq!(message, "Could not generate unique title for \"Plan\" after 10 attempts");
        }
        _ => panic!("expected exhausted"),
    }
}

fn step(t: StepType, p: Option<i64>, s: Option<i64>) -> ChainStepRef {
    ChainStepRef { step_type: t, prompt_id: p, script_id: s }
}

#[test]
fn chain_steps_are_planned_and_remapped() {
    let steps = vec![
        step(StepType::Prompt, Some(10), None),
        step(StepType::Script, None, Some(20)),
        step(StepType::Prompt, Some(10), None),
        step(StepType::Prompt, Some(11), None),
    ];
    assert!(steps_resolvable(&steps));
    let mut pm: HashMap<i64, i64> = HashMap::new();
    pm.insert(11, 111);
    let sm: HashMap<i64, i64> = HashMap::new();
    let pending = plan_step_copies(&steps, &pm, &sm);
    let p: Vec<(bool, i64)> = pending.iter().map(|c| (c.is_prompt, c.source_id)).collect();
    assert_eq!(p, vec![(true, 10), (false, 20)]);
    assert!(build_step_mapping(&steps, &pm, &sm).is_none());

    pm.insert(10, 110);
    let mut sm = sm;
    sm.insert(20, 220);
    assert!(plan_step_copies(&steps, &pm, &sm).is_empty());
    let m = build_step_mapping(&steps, &pm, &sm).unwrap();
    let m: Vec<(&str, i64)> = m.iter().map(|(k, v)| (k.as_str(), *v)).collect();
    assert_eq!(m, vec![("prompt", 110), ("script", 220), ("prompt", 110), ("prompt", 111)]);
}

#[test]
fn dangling_steps_are_unresolvable() {
    let steps = vec![step(StepType::Prompt, Some(1), None), step(StepType::Script, None, None)];
    assert!(!steps_resolvable(&steps));
}

#[test]
fn summary_counts_copies_and_created_entries() {
    let mut s = CopySummary::new();
    s.record_copy(CopiedKind::Prompt);
    s.record_copy(CopiedKind::Prompt);
    s.record_copy(CopiedKind::Chain);
    s.record_created(TaxonomyKind::Category);
    assert_eq!((s.prompts_copied, s.scripts_copied, s.chains_copied), (2, 0, 1));
    assert_eq!((s.tags_created, s.categories_created, s.collections_created), (0, 1, 0));
    assert!(s.skipped.is_empty());
}

#[test]
fn bulk_run_skips_identical_items_once_and_counts_copies() {
    assert!(CopyRun::begin(2, 2).is_err());
    let mut run = CopyRun::begin(1, 2).ok().unwrap();
    assert!(!run.item_found(true, 10, "Same", Some(100)));
    assert!(run.item_found(true, 11, "Fresh", None));
    run.entity_done(true, 11, 101, true);
    assert!(run.item_found(false, 20, "Tool", None));
    run.entity_done(false, 20, 200, true);
    assert_eq!(run.prompt_map.get(&10), Some(&100));
    assert_eq!(run.prompt_map.get(&11), Some(&101));
    assert_eq!(run.script_map.get(&20), Some(&200));
    assert_eq!((run.summary.prompts_copied, run.summary.scripts_copied), (1, 1));
    assert_eq!(run.summary.skipped.len(), 1);
    assert_eq!(run.summary.skipped[0].entity_type, "prompt");
    assert_eq!(run.summary.skipped[0].title, "Same");
    assert_eq!(run.summary.skipped[0].reason, "Already exists with identical title and content");

    let steps = vec![
        step(StepType::Prompt, Some(10), None),
        step(StepType::Prompt, Some(12), None),
        step(StepType::Script, None, Some(20)),
        step(StepType::Prompt, Some(12), None),
    ];
    let plan = run.chain_plan(&steps);
    assert_eq!(plan.len(), 1);
    assert!(plan[0].is_prompt);
    assert_eq!(plan[0].source_id, 12);
    run.entity_done(true, 12, 102, false);
    assert_eq!(run.summary.prompts_copied, 1);
    let mapping = run.chain_steps("Flow", &steps).unwrap();
    assert_eq!(
        mapping,
        vec![
            ("prompt".to_string(), 100),
            ("prompt".to_string(), 102),
            ("script".to_string(), 200),
            ("prompt".to_string(), 102),
        ]
    );
    run.chain_done();
    assert_eq!(run.summary.chains_copied, 1);

    let broken = vec![step(StepType::Prompt, Some(10), None), step(StepType::Script, None, None)];
    assert!(run.chain_steps("Broken", &broken).is_none());
    assert_eq!(run.summary.chains_copied, 1);
    assert_eq!(run.summary.skipped.len(), 2);
    assert_eq!(run.summary.skipped[1].entity_type, "chain");
    assert_eq!(run.summary.skipped[1].title, "Broken");
    assert_eq!(run.summary.skipped[1].reason, "Contains invalid or unresolvable steps");
}

#[test]
fn single_chain_copy_with_a_dangling_step_writes_nothing() {
    let steps = vec![step(StepType::Prompt, Some(1), None), step(StepType::Prompt, None, None)];
    match begin_chain_copy(5, 6, "Blocker", &steps) {
        Ok(ChainCopyStart::Skipped(s)) => {
            assert_eq!((s.prompts_copied, s.scripts_copied, s.chains_copied), (0, 0, 0));
            assert_eq!(s.skipped.len(), 1);
            assert_eq!(s.skipped[0].entity_type, "chain");
            assert_eq!(s.skipped[0].title, "Blocker");
            assert_eq!(s.skipped[0].reason, "Contains unresolvable steps");
        }
        _ => panic!("expected a skipped chain"),
    }
    assert!(begin_chain_copy(5, 5, "Blocker", &steps).is_err());
    let good = vec![step(StepType::Script, None, Some(7)), step(StepType::Prompt, Some(1), None), step(StepType::Script, None, Some(7))];
    match begin_chain_copy(5, 6, "Good", &good) {
        Ok(ChainCopyStart::Proceed(run, plan)) => {
            assert!(run.summary.skipped.is_empty());
            assert_eq!(plan.len(), 2);
            assert!(!plan[0].is_prompt);
            assert_eq!(plan[0].source_id, 7);
            assert!(plan[1].is_prompt);
            assert_eq!(plan[1].source_id, 1);
        }
        _ => panic!("expected the chain copy to proceed"),
    }
}

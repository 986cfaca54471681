use neuronprompter::clipboard::{ClipboardEntry, ClipboardState};
use neuronprompter::requests::CopyPayload;

fn entry(content: &str) -> ClipboardEntry {
    ClipboardEntry {
        content: content.to_string(),
        prompt_title: "test".to_string(),
        copied_at: "2026-01-01T00:00:00Z".to_string(),
    }
}

#[test]
fn clipboard_state_push_and_entries() {
    let mut state = ClipboardState::new();
    let user_id = 1;
    state.push(user_id, entry("hello"));
    let entries = state.entries(user_id);
    assert_eq!(entries.len(), 1);
    assert_eq!(entries[0].content, "hello");
}

#[test]
fn clipboard_state_user_isolation() {
    let mut state = ClipboardState::new();
    state.push(1, entry("user1"));
    state.push(2, entry("user2"));
    assert_eq!(state.entries(1).len(), 1);
    assert_eq!(state.entries(1)[0].content, "user1");
    assert_eq!(state.entries(2).len(), 1);
    assert_eq!(state.entries(2)[0].content, "user2");
}

#[test]
fn clipboard_state_clear() {
    let mut state = ClipboardState::new();
    let user_id = 1;
    state.push(user_id, entry("hello"));
    state.clear(user_id);
    assert!(state.entries(user_id).is_empty());
}

#[test]
fn clipboard_state_capacity_50() {
    let mut state = ClipboardState::new();
    let user_id = 1;
    for i in 0..60 {
        state.push(user_id, entry(&format!("item-{i}")));
    }
    assert_eq!(state.entries(user_id).len(), 50);
    assert_eq!(state.entries(user_id)[0].content, "item-59");
}

#[test]
fn clipboard_history_is_newest_first_and_drops_oldest() {
    let mut state = ClipboardState::new();
    for i in 0..51 {
        state.push(7, entry(&format!("c{i}")));
    }
    let h = state.entries(7);
    assert_eq!(h.len(), 50);
    assert_eq!(h[0].content, "c50");
    assert_eq!(h[49].content, "c1");
    assert!(state.entries(8).is_empty());
}

#[test]
fn clipboard_copy_with_unresolved_variables_records_nothing() {
    let mut state = ClipboardState::new();
    let payload = CopyPayload { content: "Hi {{name}}".to_string(), prompt_title: "t".to_string() };
    let r = state.copy_content(1, payload, vec!["name".to_string()], "now".to_string());
    assert!(!r.copied);
    assert_eq!(r.variables, vec!["name".to_string()]);
    assert!(state.entries(1).is_empty());

    let payload = CopyPayload { content: "Hi".to_string(), prompt_title: "t".to_string() };
    let r = state.copy_content(1, payload, Vec::new(), "now".to_string());
    assert!(r.copied);
    assert!(r.variables.is_empty());
    let h = state.entries(1);
    assert_eq!((h[0].content.as_str(), h[0].prompt_title.as_str(), h[0].copied_at.as_str()), ("Hi", "t", "now"));
}

#[test]
fn history_holds_the_newest_copies_since_the_last_clear() {
    let mut state = ClipboardState::new();
    for i in 0..5 {
        state.push(3, entry(&format!("old-{i}")));
    }
    state.push(4, entry("other"));
    state.clear(3);
    for i in 0..55 {
        state.push(3, entry(&format!("new-{i}")));
        state.push(4, entry(&format!("other-{i}")));
    }
    let h = state.entries(3);
    assert_eq!(h.len(), 50);
    for (k, e) in h.iter().enumerate() {
        assert_eq!(e.content, format!("new-{}", 54 - k));
    }
    state.clear(4);
    state.push(4, entry("fresh"));
    let o = state.entries(4);
    assert_eq!(o.len(), 1);
    assert_eq!(o[0].content, "fresh");
    assert_eq!(state.entries(3).len(), 50);
}

use oxideterm_workspace::workspace::disclosure_motion::{DisclosureMotions, MotionStart};

#[test]
fn retained_disclosures_ignore_stale_completion_and_invalidate_only_their_owner() {
    let mut motions = DisclosureMotions::new();
    let close = motions.begin("ai:message-tools-0:call:tool".into(), false).generation;
    assert!(motions.retained("ai:message-tools-0:call:tool", false));
    assert!(!motions.message_signature("message").is_still());
    assert!(motions.message_signature("other-message").is_still());
    let reopen = motions.begin("ai:message-tools-0:call:tool".into(), true).generation;
    motions.finish("ai:message-tools-0:call:tool", close);
    assert!(!motions.message_signature("message").is_still());
    motions.finish("ai:message-tools-0:call:tool", reopen);
    assert!(motions.message_signature("message").is_still());
    assert!(!motions.retained("ai:message-tools-0:call:tool", false));
    let thinking = motions.begin("ai:message-thinking-1:thinking".into(), true).generation;
    assert!(!motions.message_signature("message").is_still());
    motions.finish("ai:message-thinking-1:thinking", thinking);
    assert!(motions.message_signature("message").is_still());
}

#[test]
fn motions_start_where_the_last_one_is() {
    let mut motions = DisclosureMotions::new();
    assert_eq!(motions.begin("a".into(), true).start, MotionStart::Closed);
    assert_eq!(motions.begin("a".into(), false).start, MotionStart::WhereItIs);
    assert_eq!(motions.begin("b".into(), false).start, MotionStart::Open);
    assert!(!motions.finish("a", 1));
    assert!(motions.finish("a", 2));
}

#[test]
fn signatures_list_motions_in_order() {
    let mut motions = DisclosureMotions::new();
    motions.begin("x:b".into(), true);
    motions.begin("y:a".into(), true);
    motions.begin("x:a".into(), true);
    assert_eq!(motions.signature("x:"), vec![("x:a".to_string(), 3), ("x:b".to_string(), 1)]);
    motions.clear();
    assert!(motions.signature("").is_empty());
}

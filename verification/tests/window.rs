use cass_ffi::{anchor_position, expand_window, Message, MessageRole};

fn convo(idxs: &[i64]) -> Vec<Message> {
    idxs.iter()
        .map(|&idx| Message {
            id: Some(100 + idx),
            idx,
            role: MessageRole::User,
            author: None,
            created_at_ms: None,
            content: format!("m{idx}"),
        })
        .collect()
}

fn idxs(ms: &[Message]) -> Vec<i64> {
    ms.iter().map(|m| m.idx).collect()
}

#[test]
fn window_around_middle_anchor() {
    let w = expand_window(convo(&[0, 1, 2, 3, 4, 5, 6]), 3, 1, 2);
    assert_eq!(idxs(&w), vec![2, 3, 4, 5]);
}

#[test]
fn window_clipped_at_both_ends() {
    assert_eq!(idxs(&expand_window(convo(&[0, 1, 2, 3]), 1, 5, 0)), vec![0, 1]);
    assert_eq!(idxs(&expand_window(convo(&[0, 1, 2, 3]), 2, 0, 9)), vec![2, 3]);
    assert_eq!(idxs(&expand_window(convo(&[0, 1, 2, 3]), 2, u32::MAX, u32::MAX)), vec![0, 1, 2, 3]);
}

#[test]
fn anchor_matched_by_ordinal_not_position() {
    let w = expand_window(convo(&[10, 20, 30, 40]), 30, 1, 0);
    assert_eq!(idxs(&w), vec![20, 30]);
    assert_eq!(w[1].content, "m30");
}

#[test]
fn first_of_duplicate_ordinals_is_anchor() {
    assert_eq!(anchor_position(&convo(&[5, 7, 7, 9]), 7), Some(1));
    assert_eq!(idxs(&expand_window(convo(&[5, 7, 7, 9]), 7, 0, 0)), vec![7]);
}

#[test]
fn missing_anchor_falls_back_to_conversation_start() {
    assert_eq!(anchor_position(&convo(&[1, 2, 3]), 99), None);
    let w = expand_window(convo(&[0, 1, 2, 3, 4, 5, 6, 7]), 99, 2, 1);
    assert_eq!(idxs(&w), vec![0, 1, 2, 3]);
    let w = expand_window(convo(&[0, 1]), 99, 2, 1);
    assert_eq!(idxs(&w), vec![0, 1]);
}

#[test]
fn empty_conversation_gives_empty_window() {
    assert!(expand_window(Vec::new(), 0, 3, 3).is_empty());
}

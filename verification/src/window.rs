//! The window of messages around an anchor message, as `expand_around`
//! returns it.

use vstd::prelude::*;
use crate::types::Message;

verus! {

/// The ordinals of a list of messages, in order.
pub open spec fn message_idxs(messages: Seq<Message>) -> Seq<i64> {
    messages.map_values(|m: Message| m.idx)
}

pub open spec fn min_int(a: int, b: int) -> int {
    if a <= b { a } else { b }
}

pub open spec fn max_int(a: int, b: int) -> int {
    if a >= b { a } else { b }
}

/// Start (inclusive) and end (exclusive) of the window in a conversation
/// whose ordinals are `idxs`: `before` messages before and `after` messages
/// after the first message with ordinal `anchor`, cut at both ends of the
/// conversation. With no such message, the first `before + after + 1`
/// messages.
pub open spec fn window_bounds(idxs: Seq<i64>, anchor: i64, before: int, after: int) -> (int, int) {
    match idxs.index_of_first(anchor) {
        Some(a) => (max_int(a - before, 0), min_int(a + after + 1, idxs.len() as int)),
        None => (0, min_int(before + after + 1, idxs.len() as int)),
    }
}

/// The messages that `expand_around` returns.
pub open spec fn window(messages: Seq<Message>, anchor: i64, before: int, after: int) -> Seq<Message> {
    let b = window_bounds(message_idxs(messages), anchor, before, after);
    messages.subrange(b.0, b.1)
}

/// Position of the first message whose ordinal is `message_idx`.
pub fn anchor_position(messages: &Vec<Message>, message_idx: i64) -> (r: Option<usize>)
    ensures
        match r {
            Some(p) => message_idxs(messages@).index_of_first(message_idx) == Some(p as int),
            None => message_idxs(messages@).index_of_first(message_idx) is None,
        },
{
    let ghost idxs = message_idxs(messages@);
    proof {
        idxs.index_of_first_ensures(message_idx);
    }
    let mut i: usize = 0;
    while i < messages.len()
        invariant
            0 <= i <= messages@.len(),
            idxs == message_idxs(messages@),
            idxs.len() == messages@.len(),
            forall|j: int| 0 <= j < i ==> #[trigger] idxs[j] != message_idx,
            match idxs.index_of_first(message_idx) {
                Some(index) => {
                    &&& idxs.contains(message_idx)
                    &&& 0 <= index < idxs.len()
                    &&& idxs[index] == message_idx
                    &&& forall|j: int| 0 <= j < index < idxs.len() ==> idxs[j] != message_idx
                },
                None => !idxs.contains(message_idx),
            },
        decreases messages.len() - i,
    {
        assert(idxs[i as int] == messages@[i as int].idx);
        if messages[i].idx == message_idx {
            assert(idxs.contains(message_idx));
            return Some(i);
        }
        i += 1;
    }
    proof {
        if idxs.contains(message_idx) {
            let k = choose|k: int| 0 <= k < idxs.len() && idxs[k] == message_idx;
            assert(idxs[k] != message_idx);
        }
    }
    None
}

/// The window of `before` messages preceding and `after` messages following
/// the first message whose ordinal is `message_idx`. When no message has that
/// ordinal, the first `before + after + 1` messages.
pub fn expand_window(messages: Vec<Message>, message_idx: i64, before: u32, after: u32) -> (r: Vec<Message>)
    ensures
        r@ == window(messages@, message_idx, before as int, after as int),
{
    let len: usize = messages.len();
    let ghost idxs = message_idxs(messages@);
    proof {
        idxs.index_of_first_ensures(message_idx);
        assert(idxs.len() == messages@.len());
    }
    if len == 0 {
        proof {
            assert(window(messages@, message_idx, before as int, after as int) =~= Seq::<Message>::empty());
        }
        return Vec::new();
    }
    let (start, end): (usize, usize) = match anchor_position(&messages, message_idx) {
        Some(a) => {
            let reach: usize = a.saturating_add(after as usize).saturating_add(1);
            (a.saturating_sub(before as usize), if reach < len { reach } else { len })
        },
        None => {
            let reach: usize = (before as usize).saturating_add(after as usize).saturating_add(1);
            (0, if reach < len { reach } else { len })
        },
    };
    assert(start <= end <= len);
    let mut kept = messages;
    kept.truncate(end);
    let r = kept.split_off(start);
    assert(r@ =~= messages@.subrange(start as int, end as int));
    r
}

/// The window around the first message of ordinal `anchor`, at position `p`,
/// holds that message, the `min(before, p)` messages just before it and the
/// `min(after, len - 1 - p)` messages just after it, in conversation order.
pub proof fn lemma_window_around_anchor(messages: Seq<Message>, anchor: i64, before: u32, after: u32, p: int)
    requires
        0 <= p < messages.len(),
        messages[p].idx == anchor,
        forall|j: int| 0 <= j < p ==> #[trigger] messages[j].idx != anchor,
    ensures
        ({
            let w = window(messages, anchor, before as int, after as int);
            let k: int = if before <= p { before as int } else { p };
            let m: int = if after <= messages.len() - 1 - p { after as int } else { messages.len() - 1 - p };
            &&& w.len() == k + 1 + m
            &&& w[k] == messages[p]
            &&& forall|i: int| 0 <= i < w.len() ==> #[trigger] w[i] == messages[p - k + i]
        }),
{
    let idxs = message_idxs(messages);
    idxs.index_of_first_ensures(anchor);
    assert(idxs[p] == anchor);
    assert(idxs.contains(anchor));
    let q: int = idxs.index_of_first(anchor)->0;
    if q < p {
        assert(messages[q].idx != anchor);
        assert(idxs[q] == messages[q].idx);
    }
    if q > p {
        assert(idxs[p] != anchor);
    }
    assert(q == p);
}

/// The window is never longer than `before + after + 1` messages, nor than
/// the conversation.
pub proof fn lemma_window_size(messages: Seq<Message>, anchor: i64, before: u32, after: u32)
    ensures
        window(messages, anchor, before as int, after as int).len() <= before + after + 1,
        window(messages, anchor, before as int, after as int).len() <= messages.len(),
{
    let idxs = message_idxs(messages);
    idxs.index_of_first_ensures(anchor);
}

/// When no message has ordinal `anchor`, the window is the first
/// `before + after + 1` messages of the conversation (all of them when it is
/// shorter).
pub proof fn lemma_window_fallback(messages: Seq<Message>, anchor: i64, before: u32, after: u32)
    requires
        forall|j: int| 0 <= j < messages.len() ==> #[trigger] messages[j].idx != anchor,
    ensures
        before + after + 1 <= messages.len() ==> window(messages, anchor, before as int, after as int)
            == messages.take(before + after + 1),
        before + after + 1 > messages.len() ==> window(messages, anchor, before as int, after as int)
            == messages,
{
    let idxs = message_idxs(messages);
    idxs.index_of_first_ensures(anchor);
    if idxs.contains(anchor) {
        let k = choose|k: int| 0 <= k < idxs.len() && idxs[k] == anchor;
        assert(messages[k].idx != anchor);
    }
    assert(window(messages, anchor, before as int, after as int)
        =~= messages.take(min_int(before + after + 1, messages.len() as int)));
    if before + after + 1 > messages.len() {
        assert(messages.take(messages.len() as int) =~= messages);
    }
}

} // verus!

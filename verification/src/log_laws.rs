//! What the log of admin actions gives back of what was done.

use vstd::prelude::*;

use crate::admin_log::{AdminActionType, AdminLogState, AuditSource};
use crate::filters::lemma_filter_keeps_all;
use crate::types::Address;

verus! {

/// The log after a series of actions, each with its time and who did it, that began
/// without entries.
pub open spec fn after_actions(actions: Seq<(u64, Address, AdminActionType)>) -> AdminLogState
    decreases actions.len(),
{
    if actions.len() == 0 {
        AdminLogState::blank()
    } else {
        let log = after_actions(actions.drop_last());
        let (now, actor, action) = actions.last();
        log.appended(log.entry(now, actor, action))
    }
}

/// An entry made for an action holds that action, who did it and when, and the number
/// of entries before it. It takes the place at the head of the ring, which moves on by
/// one; every other place keeps what it has.
pub proof fn law_entry_holds_the_action(
    log: AdminLogState,
    now: u64,
    actor: Address,
    action: AdminActionType,
)
    requires
        log.has_room(),
    ensures
        ({
            let next = log.appended(log.entry(now, actor, action));
            let e = next.entries[log.head];
            &&& next.entries.contains_key(log.head)
            &&& e.action == action
            &&& e.actor == actor
            &&& e.timestamp == now
            &&& e.sequence == log.total
            &&& e.source == AuditSource::Treasury
            &&& next.total == log.total + 1
            &&& next.head == (log.head + 1) % 500
            &&& forall|pos: u64|
                pos != log.head ==> (#[trigger] next.entries.contains_key(pos)
                    <==> log.entries.contains_key(pos)) && (log.entries.contains_key(pos)
                    ==> next.entries[pos] == log.entries[pos])
        }),
        log.has_room() <==> log.head < 500 && log.total < u64::MAX,
{
}

/// Whether the entry at a place of the ring is that of action `k`.
spec fn entry_is(
    log: AdminLogState,
    pos: u64,
    actions: Seq<(u64, Address, AdminActionType)>,
    k: int,
) -> bool {
    let e = log.entries[pos];
    &&& log.entries.contains_key(pos)
    &&& e.sequence == k
    &&& e.timestamp == actions[k].0
    &&& e.actor == actions[k].1
    &&& e.action == actions[k].2
    &&& e.source == AuditSource::Treasury
}

/// What the ring holds after a series of actions.
proof fn lemma_ring_after(actions: Seq<(u64, Address, AdminActionType)>)
    requires
        actions.len() <= u64::MAX,
    ensures
        ({
            let log = after_actions(actions);
            let n = actions.len() as int;
            &&& log.total == n
            &&& log.head == n % 500
            &&& forall|k: int|
                0 <= k < n && k >= n - 500 ==> #[trigger] entry_is(
                    log,
                    (k % 500) as u64,
                    actions,
                    k,
                )
        }),
    decreases actions.len(),
{
    let n = actions.len() as int;
    if n > 0 {
        let rest = actions.drop_last();
        let before = after_actions(rest);
        let log = after_actions(actions);
        lemma_ring_after(rest);
        assert forall|k: int| 0 <= k < n && k >= n - 500 implies #[trigger] entry_is(
            log,
            (k % 500) as u64,
            actions,
            k,
        ) by {
            if k < n - 1 {
                assert(entry_is(before, (k % 500) as u64, rest, k));
                assert(rest[k] == actions[k]);
                assert(k % 500 != (n - 1) % 500);
            }
        }
    }
}

/// The log gives back what was done: the entries of a page are the actions, newest
/// first, that as many newer ones follow as the pages before hold, up to the latest
/// 500. A page has between 1 and 50 entries, as asked for, unless the log ends on it.
pub proof fn law_log_gives_back_what_was_done(
    actions: Seq<(u64, Address, AdminActionType)>,
    page: u32,
    page_size: u32,
)
    requires
        actions.len() <= u64::MAX,
    ensures
        ({
            let r = after_actions(actions).page(page, page_size);
            let n = actions.len() as int;
            let size: int = if page_size == 0 {
                1
            } else if page_size > 50 {
                50
            } else {
                page_size as int
            };
            let kept: int = if n > 500 {
                500
            } else {
                n
            };
            let skip = page * size;
            &&& r.len() == (if skip >= kept {
                0
            } else if skip + size > kept {
                kept - skip
            } else {
                size
            })
            &&& forall|i: int|
                0 <= i < r.len() ==> {
                    let k = n - 1 - skip - i;
                    &&& (#[trigger] r[i]).sequence == k
                    &&& r[i].timestamp == actions[k].0
                    &&& r[i].actor == actions[k].1
                    &&& r[i].action == actions[k].2
                    &&& r[i].source == AuditSource::Treasury
                }
        }),
{
    let log = after_actions(actions);
    let positions = log.page_positions(page, page_size);
    let present = |pos: u64| log.entries.contains_key(pos);
    let n = actions.len() as int;
    let size: int = if page_size == 0 {
        1
    } else if page_size > 50 {
        50
    } else {
        page_size as int
    };
    let skip = page * size;
    assert(skip >= 0) by (nonlinear_arith)
        requires
            skip == page * size,
            size >= 0,
    ;
    lemma_ring_after(actions);
    let kept: int = if n > 500 {
        500
    } else {
        n
    };
    assert(positions.len() == (if skip >= kept {
        0
    } else if skip + size > kept {
        kept - skip
    } else {
        size
    }));
    assert forall|i: int| 0 <= i < positions.len() implies #[trigger] entry_is(
        log,
        positions[i],
        actions,
        n - 1 - skip - i,
    ) by {
        let k = n - 1 - skip - i;
        lemma_place(n, skip + i);
        assert(positions[i] == (k % 500) as u64);
        assert(entry_is(log, (k % 500) as u64, actions, k));
    }
    assert forall|i: int| 0 <= i < positions.len() implies present(#[trigger] positions[i]) by {
        assert(entry_is(log, positions[i], actions, n - 1 - skip - i));
    }
    lemma_filter_keeps_all(positions, present);
    let r = log.page(page, page_size);
    assert(r.len() == positions.len());
    assert forall|i: int| 0 <= i < r.len() implies {
        let k = n - 1 - skip - i;
        &&& (#[trigger] r[i]).sequence == k
        &&& r[i].timestamp == actions[k].0
        &&& r[i].actor == actions[k].1
        &&& r[i].action == actions[k].2
        &&& r[i].source == AuditSource::Treasury
    } by {
        assert(r[i] == log.entries[positions[i]]);
        assert(entry_is(log, positions[i], actions, n - 1 - skip - i));
    }
}

/// Going back `offset + 1` places from the head after `n` entries leads to the place
/// of the entry that `offset` newer ones follow.
proof fn lemma_place(n: int, offset: int)
    requires
        0 <= offset < n,
        offset < 500,
    ensures
        (n % 500 + 499 - offset) % 500 == (n - 1 - offset) % 500,
{
}

/// A page of any log, also of one that has lost entries: the places that make it up
/// go back from the head one by one, and the page holds what is at them, in their
/// order, leaving out the empty ones.
pub proof fn law_page_goes_back_from_head(log: AdminLogState, page: u32, page_size: u32)
    requires
        log.head < 500,
    ensures
        ({
            let places = log.page_positions(page, page_size);
            let size: int = if page_size == 0 {
                1
            } else if page_size > 50 {
                50
            } else {
                page_size as int
            };
            let kept: int = if log.total > 500 {
                500
            } else {
                log.total as int
            };
            let skip = page * size;
            &&& places.len() == (if skip >= kept {
                0
            } else if skip + size > kept {
                kept - skip
            } else {
                size
            })
            &&& forall|i: int|
                0 <= i < places.len() ==> (#[trigger] places[i]) < 500 && (places[i] + skip + i + 1)
                    % 500 == log.head
            &&& log.page(page, page_size) == places.filter(
                |pos: u64| log.entries.contains_key(pos),
            ).map_values(|pos: u64| log.entries[pos])
        }),
{
    let size: int = if page_size == 0 {
        1
    } else if page_size > 50 {
        50
    } else {
        page_size as int
    };
    let skip = page * size;
    assert(skip >= 0) by (nonlinear_arith)
        requires
            skip == page * size,
            size >= 0,
    ;
}

} // verus!

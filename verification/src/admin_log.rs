//! The on-chain log of admin actions: a ring of the latest entries.

use vstd::prelude::*;

use crate::audit::MAX_AUDIT_LOG_SIZE;
use crate::filters::lemma_filter_keeps_all;
use crate::table::Table;
use crate::types::{Address, Key};

verus! {

/// The most entries on one page.
pub const MAX_PAGE_SIZE: u32 = 50;

/// What an admin did.
#[derive(Clone, Copy, Debug, PartialEq, Eq, Structural)]
pub enum AdminActionType {
    SetAccessControl,
    SetFeeBps,
    WhitelistToken,
    Withdraw,
    EmergencyWithdraw,
    DeclareEmergency,
    RevokeEmergency,
    ProposeWithdrawalCap,
    ExecuteWithdrawalCap,
    TreasuryProposeUpgrade,
    TreasuryExecuteUpgrade,
}

/// Where the action took place.
#[derive(Clone, Copy, Debug, PartialEq, Eq, Structural)]
pub enum AuditSource {
    Treasury,
}

/// One admin action.
#[derive(Clone, Copy, Debug, PartialEq, Eq)]
pub struct AdminAuditEntry {
    pub sequence: u64,
    pub timestamp: u64,
    pub actor: Address,
    pub action: AdminActionType,
    pub source: AuditSource,
}

impl Key for u64 {
    fn same(&self, other: &Self) -> (r: bool) {
        *self == *other
    }
}

/// The log as a mathematical value.
#[verifier::ext_equal]
pub struct AdminLogState {
    /// Where the next entry goes.
    pub head: u64,
    /// How many entries were ever made.
    pub total: u64,
    /// The entry at each position of the ring.
    pub entries: Map<u64, AdminAuditEntry>,
}

/// The number of entries per page that a request for `page_size` gets.
pub open spec fn clamped(page_size: u32) -> int {
    if page_size < 1 {
        1
    } else if page_size > MAX_PAGE_SIZE {
        MAX_PAGE_SIZE as int
    } else {
        page_size as int
    }
}

impl AdminLogState {
    /// A log without entries.
    pub open spec fn blank() -> AdminLogState {
        AdminLogState { head: 0, total: 0, entries: Map::empty() }
    }

    /// Whether another entry can be made.
    pub open spec fn has_room(self) -> bool {
        self.head < MAX_AUDIT_LOG_SIZE && self.total < u64::MAX
    }

    /// The entry that an action of `actor` at time `now` makes.
    pub open spec fn entry(self, now: u64, actor: Address, action: AdminActionType) -> AdminAuditEntry {
        AdminAuditEntry {
            sequence: self.total,
            timestamp: now,
            actor,
            action,
            source: AuditSource::Treasury,
        }
    }

    /// The log with one more entry, in place of the one it had at the head.
    pub open spec fn appended(self, entry: AdminAuditEntry) -> AdminLogState {
        AdminLogState {
            head: ((self.head + 1) % MAX_AUDIT_LOG_SIZE as int) as u64,
            total: (self.total + 1) as u64,
            entries: self.entries.insert(self.head, entry),
        }
    }

    /// The position of the entry that `offset` newer ones follow.
    pub open spec fn position(self, offset: int) -> u64 {
        ((self.head + MAX_AUDIT_LOG_SIZE - 1 - offset) % MAX_AUDIT_LOG_SIZE as int) as u64
    }

    /// How many entries the log holds at most.
    pub open spec fn stored(self) -> int {
        if self.total < MAX_AUDIT_LOG_SIZE {
            self.total as int
        } else {
            MAX_AUDIT_LOG_SIZE as int
        }
    }

    /// The positions whose entries make up a page, newest first.
    pub open spec fn page_positions(self, page: u32, page_size: u32) -> Seq<u64> {
        let skip = page * clamped(page_size);
        let full = skip + clamped(page_size);
        let end = if full < self.stored() {
            full
        } else {
            self.stored()
        };
        if skip >= end {
            Seq::empty()
        } else {
            Seq::new((end - skip) as nat, |i: int| self.position(skip + i))
        }
    }

    /// Whether the log holds the latest entries, each where it belongs: the one
    /// that `offset` newer ones follow is numbered accordingly.
    pub open spec fn complete(self) -> bool {
        &&& self.head == self.total % MAX_AUDIT_LOG_SIZE
        &&& forall|offset: int|
            0 <= offset < self.stored() ==> self.holds_entry(offset)
    }

    /// Whether the entry that `offset` newer ones follow is in the log.
    pub open spec fn holds_entry(self, offset: int) -> bool {
        self.entries.contains_key(self.position(offset)) && self.entries[self.position(
            offset,
        )].sequence == self.total - 1 - offset
    }

    /// A page of entries, newest first; positions without an entry are left out.
    pub open spec fn page(self, page: u32, page_size: u32) -> Seq<AdminAuditEntry> {
        self.page_positions(page, page_size).filter(
            |pos: u64| self.entries.contains_key(pos),
        ).map_values(|pos: u64| self.entries[pos])
    }
}

/// The log of admin actions.
#[derive(Debug)]
pub struct AdminLog {
    pub head: u64,
    pub total: u64,
    pub entries: Table<u64, AdminAuditEntry>,
}

impl View for AdminLog {
    type V = AdminLogState;

    open spec fn view(&self) -> AdminLogState {
        AdminLogState { head: self.head, total: self.total, entries: self.entries@ }
    }
}

impl AdminLog {
    /// A log without entries.
    pub fn new() -> (r: AdminLog)
        ensures
            r@ == AdminLogState::blank(),
    {
        AdminLog { head: 0, total: 0, entries: Table::new() }
    }

    /// Makes an entry for an action of `actor` at time `now`.
    pub fn append(&mut self, now: u64, actor: Address, action: AdminActionType) -> (r:
        AdminAuditEntry)
        requires
            old(self)@.has_room(),
        ensures
            r == old(self)@.entry(now, actor, action),
            final(self)@ == old(self)@.appended(r),
    {
        let entry: AdminAuditEntry = AdminAuditEntry {
            sequence: self.total,
            timestamp: now,
            actor,
            action,
            source: AuditSource::Treasury,
        };
        self.entries.set(self.head, entry);
        self.head = (self.head + 1) % MAX_AUDIT_LOG_SIZE;
        self.total = self.total + 1;
        entry
    }

    /// The positions whose entries make up a page, newest first. Pages count from
    /// 0; `page_size` is clamped to between 1 and `MAX_PAGE_SIZE`.
    pub fn page_positions(&self, page: u32, page_size: u32) -> (r: Vec<u64>)
        requires
            self@.head < MAX_AUDIT_LOG_SIZE,
        ensures
            r@ == self@.page_positions(page, page_size),
    {
        let size: u64 = if page_size < 1 {
            1
        } else if page_size > MAX_PAGE_SIZE {
            MAX_PAGE_SIZE as u64
        } else {
            page_size as u64
        };
        let stored: u64 = if self.total < MAX_AUDIT_LOG_SIZE {
            self.total
        } else {
            MAX_AUDIT_LOG_SIZE
        };
        assert(0 <= page * size <= u32::MAX * 50) by (nonlinear_arith)
            requires
                page <= u32::MAX,
                size <= 50,
        ;
        let skip: u64 = page as u64 * size;
        let ghost positions = self@.page_positions(page, page_size);
        let mut results: Vec<u64> = Vec::new();
        let mut i: u64 = 0;
        while i < size && skip + i < stored
            invariant
                self@.head < MAX_AUDIT_LOG_SIZE,
                size == clamped(page_size),
                stored == self@.stored(),
                skip == page * size,
                skip <= u32::MAX * 50,
                i <= size <= 50,
                positions == self@.page_positions(page, page_size),
                i <= positions.len(),
                results@ == positions.take(i as int),
            decreases size - i,
        {
            let offset: u64 = skip + i;
            let pos: u64 = (self.head + MAX_AUDIT_LOG_SIZE - 1 - offset) % MAX_AUDIT_LOG_SIZE;
            assert(positions.take(i + 1) =~= positions.take(i as int).push(pos));
            results.push(pos);
            i = i + 1;
        }
        assert(positions.take(i as int) =~= positions);
        results
    }

    /// A page of entries, newest first. Pages count from 0; `page_size` is
    /// clamped to between 1 and `MAX_PAGE_SIZE`.
    pub fn page(&self, page: u32, page_size: u32) -> (r: Vec<AdminAuditEntry>)
        requires
            self@.head < MAX_AUDIT_LOG_SIZE,
        ensures
            r@ == self@.page(page, page_size),
    {
        let positions: Vec<u64> = self.page_positions(page, page_size);
        let ghost present = |pos: u64| self@.entries.contains_key(pos);
        let ghost value = |pos: u64| self@.entries[pos];
        let mut results: Vec<AdminAuditEntry> = Vec::new();
        let mut i: usize = 0;
        while i < positions.len()
            invariant
                i <= positions@.len(),
                present == (|pos: u64| self@.entries.contains_key(pos)),
                value == (|pos: u64| self@.entries[pos]),
                results@ == positions@.take(i as int).filter(present).map_values(value),
            decreases positions@.len() - i,
        {
            let pos: u64 = positions[i];
            proof {
                reveal(Seq::filter);
                assert(positions@.take(i + 1).drop_last() =~= positions@.take(i as int));
                let kept = positions@.take(i as int).filter(present);
                assert(kept.push(pos).map_values(value) =~= kept.map_values(value).push(
                    value(pos),
                ));
            }
            if let Some(entry) = self.entries.get(&pos) {
                results.push(entry);
            }
            i = i + 1;
        }
        assert(positions@.take(i as int) =~= positions@);
        results
    }
}

/// A log is complete to begin with, and stays so as entries are made.
pub proof fn law_log_stays_complete(
    log: AdminLogState,
    now: u64,
    actor: Address,
    action: AdminActionType,
)
    requires
        log.complete(),
        log.total < u64::MAX,
    ensures
        AdminLogState::blank().complete(),
        log.has_room(),
        log.appended(log.entry(now, actor, action)).complete(),
{
    let next = log.appended(log.entry(now, actor, action));
    assert forall|offset: int| 0 <= offset < next.stored() implies next.holds_entry(offset) by {
        if offset > 0 {
            assert(log.holds_entry(offset - 1));
            assert(next.position(offset) == log.position(offset - 1));
        }
        assert(next.position(0) == log.head);
    }
}

/// A page of a complete log gives its entries newest first, without a gap: each
/// is numbered one below the entry before it. It is full unless the log ends
/// on it.
pub proof fn law_pages_run_newest_first(log: AdminLogState, page: u32, page_size: u32)
    requires
        log.complete(),
    ensures
        ({
            let r = log.page(page, page_size);
            let skip = page * clamped(page_size);
            &&& forall|i: int|
                0 <= i < r.len() ==> (#[trigger] r[i]).sequence == log.total - 1 - skip - i
            &&& skip >= log.stored() ==> r.len() == 0
            &&& skip + clamped(page_size) <= log.stored() ==> r.len() == clamped(page_size)
            &&& skip <= log.stored() <= skip + clamped(page_size) ==> r.len() == log.stored()
                - skip
        }),
{
    let positions = log.page_positions(page, page_size);
    let present = |pos: u64| log.entries.contains_key(pos);
    let skip = page * clamped(page_size);
    assert(skip >= 0) by (nonlinear_arith)
        requires
            skip == page * clamped(page_size),
            clamped(page_size) >= 0,
    ;
    assert forall|i: int| 0 <= i < positions.len() implies present(#[trigger] positions[i])
        && log.entries[positions[i]].sequence == log.total - 1 - skip - i by {
        assert(log.holds_entry(skip + i));
    }
    lemma_filter_keeps_all(positions, present);
}

/// The entry that was just made is the first on the first page, and what the
/// log had before follows it, up to its size.
pub proof fn law_latest_entry_comes_first(
    log: AdminLogState,
    now: u64,
    actor: Address,
    action: AdminActionType,
    page_size: u32,
)
    requires
        log.complete(),
        log.total < u64::MAX,
    ensures
        ({
            let entry = log.entry(now, actor, action);
            let next = log.appended(entry);
            &&& next.page(0, page_size).len() >= 1
            &&& next.page(0, page_size)[0] == entry
            &&& next.stored() == if log.stored() < MAX_AUDIT_LOG_SIZE {
                log.stored() + 1
            } else {
                log.stored()
            }
            &&& forall|offset: int|
                1 <= offset < next.stored() ==> next.entries[#[trigger] next.position(offset)]
                    == log.entries[log.position(offset - 1)]
        }),
{
    let entry = log.entry(now, actor, action);
    let next = log.appended(entry);
    let positions = next.page_positions(0, page_size);
    let present = |pos: u64| next.entries.contains_key(pos);
    law_log_stays_complete(log, now, actor, action);
    assert forall|i: int| 0 <= i < positions.len() implies present(#[trigger] positions[i]) by {
        assert(next.holds_entry(i));
    }
    lemma_filter_keeps_all(positions, present);
    assert(positions[0] == log.head);
    assert forall|offset: int| 1 <= offset < next.stored() implies next.entries[
        #[trigger] next.position(offset)
    ] == log.entries[log.position(offset - 1)] by {
        assert(next.position(offset) == log.position(offset - 1));
    }
}

} // verus!

//! The events that off-chain systems follow the protocol by.

use vstd::prelude::*;

use crate::types::{is_symbol_char, Address};

verus! {

/// What an event reports.
#[derive(Clone, Copy, Debug, PartialEq, Eq, Structural)]
pub enum EventKind {
    /// An invoice was minted.
    InvoiceCreated,
    /// An invoice was listed for sale.
    InvoiceListed,
    /// An investor funded an invoice.
    InvoiceFunded,
    /// An invoice was repaid.
    InvoiceRepaid,
    /// An invoice defaulted.
    InvoiceDefaulted,
    /// A repayment was made.
    RepaymentMade,
    /// Yield was paid out to an investor.
    YieldDistributed,
    /// A listing was cancelled.
    ListingCancelled,
    /// A listing expired.
    ListingExpired,
    /// A fee was collected.
    FeeCollected,
    /// The protocol was paused.
    ProtocolPaused,
    /// The protocol was unpaused.
    ProtocolUnpaused,
    /// Collected fees were withdrawn.
    FeeWithdrawn,
    /// Another admin took over.
    AdminTransferred,
    /// An admin acted.
    AdminAction,
    /// The audit log is about to overwrite its oldest entry.
    AuditCheckpoint,
}

impl EventKind {
    /// The topic under which events of this kind are published.
    pub open spec fn spec_topic(self) -> Seq<char> {
        match self {
            EventKind::InvoiceCreated => "INV_CRT"@,
            EventKind::InvoiceListed => "INV_LST"@,
            EventKind::InvoiceFunded => "INV_FND"@,
            EventKind::InvoiceRepaid => "INV_RPD"@,
            EventKind::InvoiceDefaulted => "INV_DFT"@,
            EventKind::RepaymentMade => "REPAY"@,
            EventKind::YieldDistributed => "YIELD"@,
            EventKind::ListingCancelled => "LST_CXL"@,
            EventKind::ListingExpired => "LST_EXP"@,
            EventKind::FeeCollected => "FEE_COL"@,
            EventKind::ProtocolPaused => "PAUSED"@,
            EventKind::ProtocolUnpaused => "UNPAUSED"@,
            EventKind::FeeWithdrawn => "FEE_WTH"@,
            EventKind::AdminTransferred => "ADM_TRF"@,
            EventKind::AdminAction => "ADM_AUDIT"@,
            EventKind::AuditCheckpoint => "AUDT_CHK"@,
        }
    }

    /// The topic under which events of this kind are published.
    pub fn topic(self) -> (r: &'static str)
        ensures
            r@ == self.spec_topic(),
    {
        match self {
            EventKind::InvoiceCreated => "INV_CRT",
            EventKind::InvoiceListed => "INV_LST",
            EventKind::InvoiceFunded => "INV_FND",
            EventKind::InvoiceRepaid => "INV_RPD",
            EventKind::InvoiceDefaulted => "INV_DFT",
            EventKind::RepaymentMade => "REPAY",
            EventKind::YieldDistributed => "YIELD",
            EventKind::ListingCancelled => "LST_CXL",
            EventKind::ListingExpired => "LST_EXP",
            EventKind::FeeCollected => "FEE_COL",
            EventKind::ProtocolPaused => "PAUSED",
            EventKind::ProtocolUnpaused => "UNPAUSED",
            EventKind::FeeWithdrawn => "FEE_WTH",
            EventKind::AdminTransferred => "ADM_TRF",
            EventKind::AdminAction => "ADM_AUDIT",
            EventKind::AuditCheckpoint => "AUDT_CHK",
        }
    }
}

/// One value of an event's payload.
#[derive(Debug, PartialEq, Eq)]
pub enum EventValue {
    U64(u64),
    I128(i128),
    Address(Address),
    Digest([u8; 32]),
    Text(Vec<u8>),
}

/// What an event carries: a bare value, or a tuple.
#[derive(Debug, PartialEq, Eq)]
pub enum Payload {
    Single(EventValue),
    Tuple(Vec<EventValue>),
}

/// The payload as a mathematical value.
pub enum PayloadView {
    Single(EventValue),
    Tuple(Seq<EventValue>),
}

impl View for Payload {
    type V = PayloadView;

    open spec fn view(&self) -> PayloadView {
        match self {
            Payload::Single(value) => PayloadView::Single(*value),
            Payload::Tuple(values) => PayloadView::Tuple(values@),
        }
    }
}

/// An event to be published.
#[derive(Debug, PartialEq, Eq)]
pub struct Event {
    pub topic: &'static str,
    pub payload: Payload,
}

/// The event as a mathematical value.
pub struct EventView {
    pub topic: Seq<char>,
    pub payload: PayloadView,
}

impl View for Event {
    type V = EventView;

    open spec fn view(&self) -> EventView {
        EventView { topic: self.topic@, payload: self.payload@ }
    }
}

/// The events of a call, in the order in which they are to be published.
#[derive(Debug, PartialEq, Eq)]
pub struct EventLog {
    pub events: Vec<Event>,
}

impl View for EventLog {
    type V = Seq<EventView>;

    open spec fn view(&self) -> Seq<EventView> {
        self.events@.map_values(|e: Event| e@)
    }
}

impl EventLog {
    /// A log without events.
    pub fn new() -> (r: EventLog)
        ensures
            r@ == Seq::<EventView>::empty(),
    {
        let r: EventLog = EventLog { events: Vec::new() };
        assert(r@ =~= Seq::<EventView>::empty());
        r
    }
}

/// The event of kind `kind` that carries a tuple of values.
pub open spec fn tuple_event(kind: EventKind, values: Seq<EventValue>) -> EventView {
    EventView { topic: kind.spec_topic(), payload: PayloadView::Tuple(values) }
}

/// The event of kind `kind` that carries a bare value.
pub open spec fn single_event(kind: EventKind, value: EventValue) -> EventView {
    EventView { topic: kind.spec_topic(), payload: PayloadView::Single(value) }
}

/// Appends an event to the log.
fn emit(log: &mut EventLog, kind: EventKind, payload: Payload)
    ensures
        final(log)@ == old(log)@.push(
            EventView { topic: kind.spec_topic(), payload: payload@ },
        ),
{
    let ghost before = log@;
    log.events.push(Event { topic: kind.topic(), payload });
    assert(log@ =~= before.push(EventView { topic: kind.spec_topic(), payload: payload@ }));
}

/// An invoice was minted for `sme`.
pub fn invoice_created(log: &mut EventLog, invoice_id: u64, sme: &Address, amount: i128)
    ensures
        final(log)@ == old(log)@.push(
            tuple_event(
                EventKind::InvoiceCreated,
                seq![
                    EventValue::U64(invoice_id),
                    EventValue::Address(*sme),
                    EventValue::I128(amount),
                ],
            ),
        ),
{
    let mut values: Vec<EventValue> = Vec::new();
    values.push(EventValue::U64(invoice_id));
    values.push(EventValue::Address(*sme));
    values.push(EventValue::I128(amount));
    assert(values@ =~= seq![
        EventValue::U64(invoice_id),
        EventValue::Address(*sme),
        EventValue::I128(amount),
    ]);
    emit(log, EventKind::InvoiceCreated, Payload::Tuple(values));
}

/// `seller` listed an invoice.
pub fn invoice_listed(log: &mut EventLog, invoice_id: u64, seller: &Address, asking_price: i128)
    ensures
        final(log)@ == old(log)@.push(
            tuple_event(
                EventKind::InvoiceListed,
                seq![
                    EventValue::U64(invoice_id),
                    EventValue::Address(*seller),
                    EventValue::I128(asking_price),
                ],
            ),
        ),
{
    let mut values: Vec<EventValue> = Vec::new();
    values.push(EventValue::U64(invoice_id));
    values.push(EventValue::Address(*seller));
    values.push(EventValue::I128(asking_price));
    assert(values@ =~= seq![
        EventValue::U64(invoice_id),
        EventValue::Address(*seller),
        EventValue::I128(asking_price),
    ]);
    emit(log, EventKind::InvoiceListed, Payload::Tuple(values));
}

/// `investor` funded an invoice with `amount`.
pub fn invoice_funded(log: &mut EventLog, invoice_id: u64, investor: &Address, amount: i128)
    ensures
        final(log)@ == old(log)@.push(
            tuple_event(
                EventKind::InvoiceFunded,
                seq![
                    EventValue::U64(invoice_id),
                    EventValue::Address(*investor),
                    EventValue::I128(amount),
                ],
            ),
        ),
{
    let mut values: Vec<EventValue> = Vec::new();
    values.push(EventValue::U64(invoice_id));
    values.push(EventValue::Address(*investor));
    values.push(EventValue::I128(amount));
    assert(values@ =~= seq![
        EventValue::U64(invoice_id),
        EventValue::Address(*investor),
        EventValue::I128(amount),
    ]);
    emit(log, EventKind::InvoiceFunded, Payload::Tuple(values));
}

/// `sme` repaid an invoice.
pub fn invoice_repaid(log: &mut EventLog, invoice_id: u64, sme: &Address, amount: i128)
    ensures
        final(log)@ == old(log)@.push(
            tuple_event(
                EventKind::InvoiceRepaid,
                seq![
                    EventValue::U64(invoice_id),
                    EventValue::Address(*sme),
                    EventValue::I128(amount),
                ],
            ),
        ),
{
    let mut values: Vec<EventValue> = Vec::new();
    values.push(EventValue::U64(invoice_id));
    values.push(EventValue::Address(*sme));
    values.push(EventValue::I128(amount));
    assert(values@ =~= seq![
        EventValue::U64(invoice_id),
        EventValue::Address(*sme),
        EventValue::I128(amount),
    ]);
    emit(log, EventKind::InvoiceRepaid, Payload::Tuple(values));
}

/// `sme` defaulted on an invoice.
pub fn invoice_defaulted(log: &mut EventLog, invoice_id: u64, sme: &Address)
    ensures
        final(log)@ == old(log)@.push(
            tuple_event(
                EventKind::InvoiceDefaulted,
                seq![
                    EventValue::U64(invoice_id),
                    EventValue::Address(*sme),
                ],
            ),
        ),
{
    let mut values: Vec<EventValue> = Vec::new();
    values.push(EventValue::U64(invoice_id));
    values.push(EventValue::Address(*sme));
    assert(values@ =~= seq![
        EventValue::U64(invoice_id),
        EventValue::Address(*sme),
    ]);
    emit(log, EventKind::InvoiceDefaulted, Payload::Tuple(values));
}

/// `payer` made a repayment.
pub fn repayment_made(log: &mut EventLog, invoice_id: u64, payer: &Address, amount: i128)
    ensures
        final(log)@ == old(log)@.push(
            tuple_event(
                EventKind::RepaymentMade,
                seq![
                    EventValue::U64(invoice_id),
                    EventValue::Address(*payer),
                    EventValue::I128(amount),
                ],
            ),
        ),
{
    let mut values: Vec<EventValue> = Vec::new();
    values.push(EventValue::U64(invoice_id));
    values.push(EventValue::Address(*payer));
    values.push(EventValue::I128(amount));
    assert(values@ =~= seq![
        EventValue::U64(invoice_id),
        EventValue::Address(*payer),
        EventValue::I128(amount),
    ]);
    emit(log, EventKind::RepaymentMade, Payload::Tuple(values));
}

/// `investor` was paid yield.
pub fn yield_distributed(
    log: &mut EventLog,
    invoice_id: u64,
    investor: &Address,
    yield_amount: i128,
)
    ensures
        final(log)@ == old(log)@.push(
            tuple_event(
                EventKind::YieldDistributed,
                seq![
                    EventValue::U64(invoice_id),
                    EventValue::Address(*investor),
                    EventValue::I128(yield_amount),
                ],
            ),
        ),
{
    let mut values: Vec<EventValue> = Vec::new();
    values.push(EventValue::U64(invoice_id));
    values.push(EventValue::Address(*investor));
    values.push(EventValue::I128(yield_amount));
    assert(values@ =~= seq![
        EventValue::U64(invoice_id),
        EventValue::Address(*investor),
        EventValue::I128(yield_amount),
    ]);
    emit(log, EventKind::YieldDistributed, Payload::Tuple(values));
}

/// `seller` cancelled a listing at time `now`.
pub fn listing_cancelled(log: &mut EventLog, invoice_id: u64, seller: &Address, now: u64)
    ensures
        final(log)@ == old(log)@.push(
            tuple_event(
                EventKind::ListingCancelled,
                seq![
                    EventValue::U64(invoice_id),
                    EventValue::Address(*seller),
                    EventValue::U64(now),
                ],
            ),
        ),
{
    let mut values: Vec<EventValue> = Vec::new();
    values.push(EventValue::U64(invoice_id));
    values.push(EventValue::Address(*seller));
    values.push(EventValue::U64(now));
    assert(values@ =~= seq![
        EventValue::U64(invoice_id),
        EventValue::Address(*seller),
        EventValue::U64(now),
    ]);
    emit(log, EventKind::ListingCancelled, Payload::Tuple(values));
}

/// The listing of `seller` expired at time `now`.
pub fn listing_expired(log: &mut EventLog, invoice_id: u64, seller: &Address, now: u64)
    ensures
        final(log)@ == old(log)@.push(
            tuple_event(
                EventKind::ListingExpired,
                seq![
                    EventValue::U64(invoice_id),
                    EventValue::Address(*seller),
                    EventValue::U64(now),
                ],
            ),
        ),
{
    let mut values: Vec<EventValue> = Vec::new();
    values.push(EventValue::U64(invoice_id));
    values.push(EventValue::Address(*seller));
    values.push(EventValue::U64(now));
    assert(values@ =~= seq![
        EventValue::U64(invoice_id),
        EventValue::Address(*seller),
        EventValue::U64(now),
    ]);
    emit(log, EventKind::ListingExpired, Payload::Tuple(values));
}

/// A fee was collected in `token`.
pub fn fee_collected(log: &mut EventLog, invoice_id: u64, fee_amount: i128, token: &Address)
    ensures
        final(log)@ == old(log)@.push(
            tuple_event(
                EventKind::FeeCollected,
                seq![
                    EventValue::U64(invoice_id),
                    EventValue::I128(fee_amount),
                    EventValue::Address(*token),
                ],
            ),
        ),
{
    let mut values: Vec<EventValue> = Vec::new();
    values.push(EventValue::U64(invoice_id));
    values.push(EventValue::I128(fee_amount));
    values.push(EventValue::Address(*token));
    assert(values@ =~= seq![
        EventValue::U64(invoice_id),
        EventValue::I128(fee_amount),
        EventValue::Address(*token),
    ]);
    emit(log, EventKind::FeeCollected, Payload::Tuple(values));
}

/// `by` paused the protocol at time `now`.
pub fn protocol_paused(log: &mut EventLog, by: &Address, now: u64)
    ensures
        final(log)@ == old(log)@.push(
            tuple_event(
                EventKind::ProtocolPaused,
                seq![
                    EventValue::Address(*by),
                    EventValue::U64(now),
                ],
            ),
        ),
{
    let mut values: Vec<EventValue> = Vec::new();
    values.push(EventValue::Address(*by));
    values.push(EventValue::U64(now));
    assert(values@ =~= seq![
        EventValue::Address(*by),
        EventValue::U64(now),
    ]);
    emit(log, EventKind::ProtocolPaused, Payload::Tuple(values));
}

/// `by` unpaused the protocol at time `now`.
pub fn protocol_unpaused(log: &mut EventLog, by: &Address, now: u64)
    ensures
        final(log)@ == old(log)@.push(
            tuple_event(
                EventKind::ProtocolUnpaused,
                seq![
                    EventValue::Address(*by),
                    EventValue::U64(now),
                ],
            ),
        ),
{
    let mut values: Vec<EventValue> = Vec::new();
    values.push(EventValue::Address(*by));
    values.push(EventValue::U64(now));
    assert(values@ =~= seq![
        EventValue::Address(*by),
        EventValue::U64(now),
    ]);
    emit(log, EventKind::ProtocolUnpaused, Payload::Tuple(values));
}

/// Fees were withdrawn in `token`.
pub fn fee_withdrawn(log: &mut EventLog, token: &Address, amount: i128)
    ensures
        final(log)@ == old(log)@.push(
            tuple_event(
                EventKind::FeeWithdrawn,
                seq![
                    EventValue::Address(*token),
                    EventValue::I128(amount),
                ],
            ),
        ),
{
    let mut values: Vec<EventValue> = Vec::new();
    values.push(EventValue::Address(*token));
    values.push(EventValue::I128(amount));
    assert(values@ =~= seq![
        EventValue::Address(*token),
        EventValue::I128(amount),
    ]);
    emit(log, EventKind::FeeWithdrawn, Payload::Tuple(values));
}

/// `new_admin` took over as the admin. The payload is the bare address.
pub fn admin_transferred(log: &mut EventLog, new_admin: &Address)
    ensures
        final(log)@ == old(log)@.push(
            single_event(EventKind::AdminTransferred, EventValue::Address(*new_admin)),
        ),
{
    emit(log, EventKind::AdminTransferred, Payload::Single(EventValue::Address(*new_admin)));
}

/// An admin action: the canonical off-chain history.
pub fn adm_audit(
    log: &mut EventLog,
    sequence: u64,
    action: Vec<u8>,
    actor: &Address,
    timestamp: u64,
)
    ensures
        final(log)@ == old(log)@.push(
            tuple_event(
                EventKind::AdminAction,
                seq![
                    EventValue::U64(sequence),
                    EventValue::Text(action),
                    EventValue::Address(*actor),
                    EventValue::U64(timestamp),
                ],
            ),
        ),
{
    let mut values: Vec<EventValue> = Vec::new();
    values.push(EventValue::U64(sequence));
    values.push(EventValue::Text(action));
    values.push(EventValue::Address(*actor));
    values.push(EventValue::U64(timestamp));
    assert(values@ =~= seq![
        EventValue::U64(sequence),
        EventValue::Text(action),
        EventValue::Address(*actor),
        EventValue::U64(timestamp),
    ]);
    emit(log, EventKind::AdminAction, Payload::Tuple(values));
}

/// The audit log is about to overwrite an entry. Carries the rolling checksum
/// over the full history so far, and the entry that is discarded.
pub fn audit_checkpoint(
    log: &mut EventLog,
    total_entries: u64,
    checksum: [u8; 32],
    discarded_action: Vec<u8>,
    discarded_actor: &Address,
    discarded_timestamp: u64,
    discarded_sequence: u64,
)
    ensures
        final(log)@ == old(log)@.push(
            tuple_event(
                EventKind::AuditCheckpoint,
                seq![
                    EventValue::U64(total_entries),
                    EventValue::Digest(checksum),
                    EventValue::Text(discarded_action),
                    EventValue::Address(*discarded_actor),
                    EventValue::U64(discarded_timestamp),
                    EventValue::U64(discarded_sequence),
                ],
            ),
        ),
{
    let mut values: Vec<EventValue> = Vec::new();
    values.push(EventValue::U64(total_entries));
    values.push(EventValue::Digest(checksum));
    values.push(EventValue::Text(discarded_action));
    values.push(EventValue::Address(*discarded_actor));
    values.push(EventValue::U64(discarded_timestamp));
    values.push(EventValue::U64(discarded_sequence));
    assert(values@ =~= seq![
        EventValue::U64(total_entries),
        EventValue::Digest(checksum),
        EventValue::Text(discarded_action),
        EventValue::Address(*discarded_actor),
        EventValue::U64(discarded_timestamp),
        EventValue::U64(discarded_sequence),
    ]);
    emit(log, EventKind::AuditCheckpoint, Payload::Tuple(values));
}

/// Every topic is a short symbol, of at most nine characters.
pub proof fn law_topics_are_short_symbols(kind: EventKind)
    ensures
        kind.spec_topic().len() <= 9,
        forall|i: int|
            0 <= i < kind.spec_topic().len() ==> is_symbol_char(
                (#[trigger] kind.spec_topic()[i]) as u8,
            ),
{
    reveal_strlit("INV_CRT");
    reveal_strlit("INV_LST");
    reveal_strlit("INV_FND");
    reveal_strlit("INV_RPD");
    reveal_strlit("INV_DFT");
    reveal_strlit("REPAY");
    reveal_strlit("YIELD");
    reveal_strlit("LST_CXL");
    reveal_strlit("LST_EXP");
    reveal_strlit("FEE_COL");
    reveal_strlit("PAUSED");
    reveal_strlit("UNPAUSED");
    reveal_strlit("FEE_WTH");
    reveal_strlit("ADM_TRF");
    reveal_strlit("ADM_AUDIT");
    reveal_strlit("AUDT_CHK");
}

/// Every kind of event has a topic of its own, so the topic tells the kind.
pub proof fn law_topics_are_unique(a: EventKind, b: EventKind)
    ensures
        a.spec_topic() == b.spec_topic() <==> a == b,
{
    reveal_strlit("INV_CRT");
    reveal_strlit("INV_LST");
    reveal_strlit("INV_FND");
    reveal_strlit("INV_RPD");
    reveal_strlit("INV_DFT");
    reveal_strlit("REPAY");
    reveal_strlit("YIELD");
    reveal_strlit("LST_CXL");
    reveal_strlit("LST_EXP");
    reveal_strlit("FEE_COL");
    reveal_strlit("PAUSED");
    reveal_strlit("UNPAUSED");
    reveal_strlit("FEE_WTH");
    reveal_strlit("ADM_TRF");
    reveal_strlit("ADM_AUDIT");
    reveal_strlit("AUDT_CHK");
    let x = a.spec_topic();
    let y = b.spec_topic();
    if x == y {
        assert(x[0] == y[0] && x[4] == y[4]);
    }
}

/// An event carries the values it was made with, all of them and in their order, and
/// its topic tells what it reports: two events are the same only if both are.
pub proof fn law_events_carry_their_values(
    kind: EventKind,
    values: Seq<EventValue>,
    other_kind: EventKind,
    other_values: Seq<EventValue>,
    value: EventValue,
)
    ensures
        tuple_event(kind, values).payload == PayloadView::Tuple(values),
        single_event(kind, value).payload == PayloadView::Single(value),
        tuple_event(kind, values).topic == single_event(kind, value).topic,
        tuple_event(kind, values) == tuple_event(other_kind, other_values) <==> kind == other_kind
            && values == other_values,
        tuple_event(kind, values) != single_event(other_kind, value),
{
    law_topics_are_unique(kind, other_kind);
}

} // verus!

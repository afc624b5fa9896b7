//! Audit entries and the rolling checksum that commits to their history.

use vstd::bytes::{spec_u64_to_le_bytes, u64_to_le_bytes};
use vstd::prelude::*;

use crate::host::{sha256, sha256_digest};
use crate::types::Address;

verus! {

/// How many entries the on-chain audit log keeps. Older entries are
/// overwritten; the rolling checksum still covers them.
pub const MAX_AUDIT_LOG_SIZE: u64 = 500;

/// A single audit log entry.
#[derive(Debug)]
pub struct AuditEntry {
    /// The text of the action.
    pub action: Vec<u8>,
    pub actor: Address,
    pub timestamp: u64,
    /// Counts all entries ever made; never resets.
    pub sequence: u64,
}

impl AuditEntry {
    /// What the entry is hashed as after the checksum `prev`: that checksum, the
    /// sequence number and the timestamp in eight little-endian bytes each, and
    /// the 32 bytes of the actor.
    pub open spec fn hashed_after(self, prev: Seq<u8>) -> Seq<u8> {
        prev + spec_u64_to_le_bytes(self.sequence) + spec_u64_to_le_bytes(self.timestamp)
            + self.actor.payload@
    }
}

/// Appends a block of 32 bytes to `buf`.
fn append_block(buf: &mut Vec<u8>, block: &[u8; 32])
    ensures
        final(buf)@ == old(buf)@ + block@,
{
    let ghost before = buf@;
    let mut i: usize = 0;
    while i < 32
        invariant
            i <= 32,
            buf@ == before + block@.take(i as int),
        decreases 32 - i,
    {
        buf.push(block[i]);
        i = i + 1;
        assert(buf@ =~= before + block@.take(i as int));
    }
    assert(buf@ =~= before + block@);
}

/// The 80 bytes that the checksum after `prev` and `entry` is the digest of.
pub fn encode_entry(prev: &[u8; 32], entry: &AuditEntry) -> (r: Vec<u8>)
    ensures
        r@ == entry.hashed_after(prev@),
        r@.len() == 80,
{
    proof {
        vstd::bytes::lemma_auto_spec_u64_to_from_le_bytes();
    }
    let mut buf: Vec<u8> = Vec::new();
    append_block(&mut buf, prev);
    assert(buf@ =~= prev@);
    let mut sequence: Vec<u8> = u64_to_le_bytes(entry.sequence);
    buf.append(&mut sequence);
    let mut timestamp: Vec<u8> = u64_to_le_bytes(entry.timestamp);
    buf.append(&mut timestamp);
    append_block(&mut buf, &entry.actor.payload);
    buf
}

/// The rolling checksum that follows `prev` once `entry` is appended: the
/// SHA-256 digest of `prev` and the entry.
pub fn chain_checksum(env: &soroban_sdk::Env, prev: &[u8; 32], entry: &AuditEntry) -> (r: [u8; 32])
    ensures
        r@ == sha256_digest(entry.hashed_after(prev@)),
        r@ == sha256_digest(
            prev@ + spec_u64_to_le_bytes(entry.sequence) + spec_u64_to_le_bytes(entry.timestamp)
                + entry.actor.payload@,
        ),
{
    let buf: Vec<u8> = encode_entry(prev, entry);
    sha256(env, &buf)
}

/// What is hashed determines the previous checksum and, of the entry, the
/// sequence number, the timestamp and the bytes of the actor: where any of these
/// differ, other bytes are hashed.
pub proof fn law_checksum_covers_entry(
    prev: Seq<u8>,
    entry: AuditEntry,
    other_prev: Seq<u8>,
    other: AuditEntry,
)
    requires
        prev.len() == 32,
        other_prev.len() == 32,
    ensures
        entry.hashed_after(prev) == other.hashed_after(other_prev) <==> {
            &&& prev == other_prev
            &&& entry.sequence == other.sequence
            &&& entry.timestamp == other.timestamp
            &&& entry.actor.payload == other.actor.payload
        },
{
    vstd::bytes::lemma_auto_spec_u64_to_from_le_bytes();
    let a = entry.hashed_after(prev);
    let b = other.hashed_after(other_prev);
    if a == b {
        assert(prev =~= a.subrange(0, 32));
        assert(other_prev =~= b.subrange(0, 32));
        assert(spec_u64_to_le_bytes(entry.sequence) =~= a.subrange(32, 40));
        assert(spec_u64_to_le_bytes(other.sequence) =~= b.subrange(32, 40));
        assert(spec_u64_to_le_bytes(entry.timestamp) =~= a.subrange(40, 48));
        assert(spec_u64_to_le_bytes(other.timestamp) =~= b.subrange(40, 48));
        assert(entry.actor.payload@ =~= a.subrange(48, 80));
        assert(other.actor.payload@ =~= b.subrange(48, 80));
        assert(entry.actor.payload =~= other.actor.payload);
    }
}

/// The 80 bytes that are hashed, one by one: those of the previous checksum, then
/// eight that give the sequence number and eight that give the timestamp, the lowest
/// first, then those of the actor.
pub proof fn law_checksum_layout(prev: Seq<u8>, entry: AuditEntry)
    requires
        prev.len() == 32,
    ensures
        ({
            let b = entry.hashed_after(prev);
            &&& b.len() == 80
            &&& forall|i: int| 0 <= i < 32 ==> #[trigger] b[i] == prev[i]
            &&& entry.sequence == b[32] + 0x100 * b[33] + 0x1_0000 * b[34] + 0x100_0000 * b[35]
                + 0x1_0000_0000 * b[36] + 0x100_0000_0000 * b[37] + 0x1_0000_0000_0000 * b[38]
                + 0x100_0000_0000_0000 * b[39]
            &&& entry.timestamp == b[40] + 0x100 * b[41] + 0x1_0000 * b[42] + 0x100_0000 * b[43]
                + 0x1_0000_0000 * b[44] + 0x100_0000_0000 * b[45] + 0x1_0000_0000_0000 * b[46]
                + 0x100_0000_0000_0000 * b[47]
            &&& forall|i: int| 48 <= i < 80 ==> #[trigger] b[i] == entry.actor.payload@[i - 48]
        }),
{
    vstd::bytes::lemma_auto_spec_u64_to_from_le_bytes();
    lemma_le_value(entry.sequence);
    lemma_le_value(entry.timestamp);
    let b = entry.hashed_after(prev);
    let s = spec_u64_to_le_bytes(entry.sequence);
    let t = spec_u64_to_le_bytes(entry.timestamp);
    assert forall|i: int| 0 <= i < 8 implies b[32 + i] == #[trigger] s[i] && b[40 + i]
        == #[trigger] t[i] by {}
    assert(b[32] == s[0] && b[33] == s[1] && b[34] == s[2] && b[35] == s[3]);
    assert(b[36] == s[4] && b[37] == s[5] && b[38] == s[6] && b[39] == s[7]);
    assert(b[40] == t[0] && b[41] == t[1] && b[42] == t[2] && b[43] == t[3]);
    assert(b[44] == t[4] && b[45] == t[5] && b[46] == t[6] && b[47] == t[7]);
}

/// The number that eight little-endian bytes stand for.
proof fn lemma_le_value(x: u64)
    ensures
        ({
            let s = spec_u64_to_le_bytes(x);
            x == s[0] + 0x100 * s[1] + 0x1_0000 * s[2] + 0x100_0000 * s[3] + 0x1_0000_0000 * s[4]
                + 0x100_0000_0000 * s[5] + 0x1_0000_0000_0000 * s[6] + 0x100_0000_0000_0000 * s[7]
        }),
{
    vstd::bytes::spec_u64_to_le_bytes_to_open(x);
    assert(x == (x & 0xff) as u8 + 0x100 * ((x >> 8) & 0xff) as u8 + 0x1_0000 * ((x >> 16)
        & 0xff) as u8 + 0x100_0000 * ((x >> 24) & 0xff) as u8 + 0x1_0000_0000 * ((x >> 32)
        & 0xff) as u8 + 0x100_0000_0000 * ((x >> 40) & 0xff) as u8 + 0x1_0000_0000_0000 * ((x >> 48)
        & 0xff) as u8 + 0x100_0000_0000_0000 * ((x >> 56) & 0xff) as u8) by (bit_vector);
}

} // verus!

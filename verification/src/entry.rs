//! The selector entry codec: one fixed-layout, 32-byte metadata record
//! ("descriptor") per firmware slot, stored twice in the metadata partition.
//! Layout, all little-endian, matching the external bootloader bit for bit:
//! sequence (4 bytes), label (20 opaque bytes), lifecycle state tag (4 bytes),
//! checksum (4 bytes, CRC-32 of the sequence bytes alone).

use vstd::prelude::*;
use vstd::bytes::{
    lemma_auto_spec_u32_to_from_le_bytes, spec_u32_from_le_bytes, spec_u32_to_le_bytes,
    u32_from_le_bytes, u32_to_le_bytes,
};
use vstd::slice::{slice_index_get, slice_subrange};
use crate::checksum::{crc32, sequence_checksum};
use crate::SENTINEL_SEQUENCE;

verus! {

/// Number of bytes one encoded selector entry occupies on flash.
pub const SELECT_ENTRY_SIZE: usize = 32;

/// Lifecycle of a firmware slot, as the external bootloader understands it.
/// `Undefined` is what any unrecognized tag decodes to.
#[derive(Debug, Clone, Copy, PartialEq, Eq, Structural)]
pub enum OtaSelectEntryState {
    New,
    PendingVerify,
    Valid,
    Invalid,
    Aborted,
    Undefined,
}

/// The on-flash tag of a lifecycle state.
pub open spec fn spec_state_tag(s: OtaSelectEntryState) -> u32 {
    match s {
        OtaSelectEntryState::New => 0x0,
        OtaSelectEntryState::PendingVerify => 0x1,
        OtaSelectEntryState::Valid => 0x2,
        OtaSelectEntryState::Invalid => 0x3,
        OtaSelectEntryState::Aborted => 0x4,
        OtaSelectEntryState::Undefined => 0xFFFFFFFF,
    }
}

/// The lifecycle state a tag decodes to; decoding is total, unknown tags
/// become `Undefined`.
pub open spec fn spec_state_from_tag(tag: u32) -> OtaSelectEntryState {
    if tag == 0x0 {
        OtaSelectEntryState::New
    } else if tag == 0x1 {
        OtaSelectEntryState::PendingVerify
    } else if tag == 0x2 {
        OtaSelectEntryState::Valid
    } else if tag == 0x3 {
        OtaSelectEntryState::Invalid
    } else if tag == 0x4 {
        OtaSelectEntryState::Aborted
    } else {
        OtaSelectEntryState::Undefined
    }
}

impl OtaSelectEntryState {
    /// The tag this state is stored as.
    pub fn tag(self) -> (r: u32)
        ensures
            r == spec_state_tag(self),
    {
        match self {
            OtaSelectEntryState::New => 0x0,
            OtaSelectEntryState::PendingVerify => 0x1,
            OtaSelectEntryState::Valid => 0x2,
            OtaSelectEntryState::Invalid => 0x3,
            OtaSelectEntryState::Aborted => 0x4,
            OtaSelectEntryState::Undefined => 0xFFFFFFFF,
        }
    }
}

impl From<u32> for OtaSelectEntryState {
    fn from(value: u32) -> (r: Self) {
        match value {
            0x0 => OtaSelectEntryState::New,
            0x1 => OtaSelectEntryState::PendingVerify,
            0x2 => OtaSelectEntryState::Valid,
            0x3 => OtaSelectEntryState::Invalid,
            0x4 => OtaSelectEntryState::Aborted,
            _ => OtaSelectEntryState::Undefined,
        }
    }
}

impl vstd::std_specs::convert::FromSpecImpl<u32> for OtaSelectEntryState {
    open spec fn obeys_from_spec() -> bool {
        true
    }

    open spec fn from_spec(value: u32) -> Self {
        spec_state_from_tag(value)
    }
}

/// Every state survives a trip through its tag: the six tags are distinct and
/// `Undefined`'s tag is itself unrecognized-as-anything-else.
pub proof fn lemma_state_tag_roundtrip(s: OtaSelectEntryState)
    ensures
        spec_state_from_tag(spec_state_tag(s)) == s,
{
}

/// The mathematical shape of a selector entry: what one record says,
/// independent of its byte representation.
#[verifier::ext_equal]
pub struct EntryModel {
    pub sequence: u32,
    pub label: Seq<u8>,
    pub state: OtaSelectEntryState,
    pub checksum: u32,
}

/// A well-formed model carries exactly the twenty label bytes of the layout.
pub open spec fn entry_model_wf(m: EntryModel) -> bool {
    m.label.len() == 20
}

/// The exact byte image of a selector entry, as the bootloader reads it.
pub open spec fn spec_encode(m: EntryModel) -> Seq<u8> {
    spec_u32_to_le_bytes(m.sequence) + m.label + spec_u32_to_le_bytes(spec_state_tag(m.state))
        + spec_u32_to_le_bytes(m.checksum)
}

/// The record any 32-byte pattern decodes to; decoding is total.
pub open spec fn spec_decode(bytes: Seq<u8>) -> EntryModel
    recommends
        bytes.len() == SELECT_ENTRY_SIZE,
{
    EntryModel {
        sequence: spec_u32_from_le_bytes(bytes.subrange(0, 4)),
        label: bytes.subrange(4, 24),
        state: spec_state_from_tag(spec_u32_from_le_bytes(bytes.subrange(24, 28))),
        checksum: spec_u32_from_le_bytes(bytes.subrange(28, 32)),
    }
}

/// An entry's stored checksum is valid exactly when it equals the checksum of
/// its sequence bytes; the label and state play no part.
pub open spec fn spec_checksum_ok(m: EntryModel) -> bool {
    m.checksum == sequence_checksum(m.sequence)
}

/// The blank record: no sequence, erased label, undefined state, and a
/// checksum that makes the blank internally consistent.
pub open spec fn blank_model() -> EntryModel {
    EntryModel {
        sequence: SENTINEL_SEQUENCE,
        label: Seq::new(20, |i: int| 0xFFu8),
        state: OtaSelectEntryState::Undefined,
        checksum: sequence_checksum(SENTINEL_SEQUENCE),
    }
}

/// What a record is worth for decision making: itself if its checksum
/// validates, the blank record otherwise. The substitution is transient — it
/// is never persisted by itself, only a commit writes flash.
pub open spec fn effective(m: EntryModel) -> EntryModel {
    if spec_checksum_ok(m) {
        m
    } else {
        blank_model()
    }
}

/// One selector entry ("descriptor"): the persisted metadata record that
/// describes a firmware slot's version and lifecycle state.
#[derive(Debug, Clone, Copy, PartialEq, Eq)]
pub struct OtaSelectEntry {
    pub ota_seq: u32,
    pub seq_label: [u8; 20],
    pub ota_state: OtaSelectEntryState,
    pub crc: u32,
}

impl View for OtaSelectEntry {
    type V = EntryModel;

    open spec fn view(&self) -> EntryModel {
        EntryModel {
            sequence: self.ota_seq,
            label: self.seq_label@,
            state: self.ota_state,
            checksum: self.crc,
        }
    }
}

impl OtaSelectEntry {
    /// The checksum this entry's sequence number calls for.
    pub fn calculate_checksum(&self) -> (r: u32)
        ensures
            r == sequence_checksum(self.ota_seq),
    {
        let bytes = u32_to_le_bytes(self.ota_seq);
        crc32(bytes.as_slice())
    }

    /// Whether the stored checksum validates; an entry is trusted only if it
    /// does.
    pub fn checksum_ok(&self) -> (r: bool)
        ensures
            r == spec_checksum_ok(self@),
    {
        let crc = self.calculate_checksum();
        crc == self.crc
    }

    /// Reset to the blank record, recomputing the checksum so the blanked
    /// value is itself internally consistent.
    pub fn reset(&mut self)
        ensures
            final(self)@ == blank_model(),
    {
        self.ota_seq = SENTINEL_SEQUENCE;
        self.seq_label = [0xFF; 20];
        self.ota_state = OtaSelectEntryState::Undefined;
        self.crc = self.calculate_checksum();
        proof {
            assert(final(self)@.label =~= blank_model().label);
            assert(final(self)@ =~= blank_model());
        }
    }

    /// The exact 32-byte image of this entry.
    pub fn encode(&self) -> (r: Vec<u8>)
        ensures
            r@ == spec_encode(self@),
            r@.len() == SELECT_ENTRY_SIZE,
    {
        proof {
            lemma_auto_spec_u32_to_from_le_bytes();
        }
        let mut out = u32_to_le_bytes(self.ota_seq);
        let mut i: usize = 0;
        while i < 20
            invariant
                0 <= i <= 20,
                out@ == spec_u32_to_le_bytes(self.ota_seq) + self.seq_label@.subrange(0, i as int),
            decreases 20 - i,
        {
            out.push(self.seq_label[i]);
            proof {
                assert(self.seq_label@.subrange(0, i + 1) =~= self.seq_label@.subrange(0, i as int)
                    .push(self.seq_label@[i as int]));
                assert(out@ =~= spec_u32_to_le_bytes(self.ota_seq) + self.seq_label@.subrange(
                    0,
                    i + 1,
                ));
            }
            i = i + 1;
        }
        let mut state_bytes = u32_to_le_bytes(self.ota_state.tag());
        out.append(&mut state_bytes);
        let mut crc_bytes = u32_to_le_bytes(self.crc);
        out.append(&mut crc_bytes);
        proof {
            assert(self.seq_label@.subrange(0, 20) =~= self.seq_label@);
            assert(out@ =~= spec_encode(self@));
        }
        out
    }

    /// The entry any 32-byte pattern decodes to; total, with unknown state
    /// tags becoming `Undefined`.
    pub fn decode(bytes: &[u8]) -> (r: OtaSelectEntry)
        requires
            bytes@.len() == SELECT_ENTRY_SIZE,
        ensures
            r@ == spec_decode(bytes@),
    {
        let ota_seq = u32_from_le_bytes(slice_subrange(bytes, 0, 4));
        let label_bytes = slice_subrange(bytes, 4, 24);
        let mut seq_label: [u8; 20] = [0; 20];
        let mut i: usize = 0;
        while i < 20
            invariant
                0 <= i <= 20,
                label_bytes@ == bytes@.subrange(4, 24),
                label_bytes@.len() == 20,
                seq_label@.len() == 20,
                forall|j: int| 0 <= j < i ==> seq_label@[j] == label_bytes@[j],
            decreases 20 - i,
        {
            seq_label[i] = *slice_index_get(label_bytes, i);
            i = i + 1;
        }
        let ota_state = OtaSelectEntryState::from(u32_from_le_bytes(slice_subrange(bytes, 24, 28)));
        let crc = u32_from_le_bytes(slice_subrange(bytes, 28, 32));
        let r = OtaSelectEntry { ota_seq, seq_label, ota_state, crc };
        proof {
            assert(r@.label =~= spec_decode(bytes@).label);
            assert(r@ =~= spec_decode(bytes@));
        }
        r
    }
}

/// Round-trip: every well-formed selector entry survives encoding to bytes
/// and decoding back unchanged.
pub proof fn lemma_decode_encode_roundtrip(m: EntryModel)
    requires
        entry_model_wf(m),
    ensures
        spec_decode(spec_encode(m)) == m,
{
    lemma_auto_spec_u32_to_from_le_bytes();
    let b = spec_encode(m);
    assert(b.subrange(0, 4) =~= spec_u32_to_le_bytes(m.sequence));
    assert(b.subrange(4, 24) =~= m.label);
    assert(b.subrange(24, 28) =~= spec_u32_to_le_bytes(spec_state_tag(m.state)));
    assert(b.subrange(28, 32) =~= spec_u32_to_le_bytes(m.checksum));
    lemma_state_tag_roundtrip(m.state);
    assert(spec_decode(spec_encode(m)) =~= m);
}

/// Checksum validity is determined by the sequence number and the stored
/// checksum alone: two entries agreeing on those agree on validity, whatever
/// their labels and states.
pub proof fn lemma_checksum_ignores_label_and_state(a: EntryModel, b: EntryModel)
    requires
        a.sequence == b.sequence,
        a.checksum == b.checksum,
    ensures
        spec_checksum_ok(a) == spec_checksum_ok(b),
{
}

} // verus!

//! The A/B update slot manager: reads the two redundant selector entries,
//! derives the active slot and the correct update target, and runs the staged
//! update session (prepare, stream writes, commit). No failure path here ever
//! writes to the slot currently selected for boot.

use vstd::prelude::*;
use crate::checksum::sequence_checksum;
use crate::entry::{
    effective, entry_model_wf, lemma_decode_encode_roundtrip, spec_checksum_ok, spec_decode,
    spec_encode, EntryModel, OtaSelectEntry, OtaSelectEntryState, SELECT_ENTRY_SIZE,
};
use crate::flash::{FlashStorage, StorageError};
use crate::partitions::{
    FLASH_SPAN, OTA_0_OFFSET, OTA_0_SIZE, OTA_1_OFFSET, OTA_1_SIZE, OTA_DATA_OFFSET, SECTOR_SIZE,
};
use crate::SENTINEL_SEQUENCE;

verus! {

/// Which of the two selector entries inside the metadata partition: they sit
/// at the front of two sequential sectors.
#[derive(Debug, Copy, Clone, PartialEq, Eq, Structural, PartialOrd)]
pub enum SelectEntrySlot {
    Zero,
    One,
}

/// Byte offset of a selector entry within the metadata partition.
pub open spec fn spec_select_offset(slot: SelectEntrySlot) -> u32 {
    match slot {
        SelectEntrySlot::Zero => 0,
        SelectEntrySlot::One => SECTOR_SIZE,
    }
}

/// Absolute flash address of a selector entry.
pub open spec fn spec_entry_offset(slot: SelectEntrySlot) -> int {
    OTA_DATA_OFFSET + spec_select_offset(slot)
}

impl SelectEntrySlot {
    /// Byte offset of this entry within the metadata partition.
    pub fn offset(self) -> (r: u32)
        ensures
            r == spec_select_offset(self),
    {
        match self {
            SelectEntrySlot::Zero => 0,
            SelectEntrySlot::One => SECTOR_SIZE,
        }
    }
}

/// A coordination bug between the caller and this component: the staging
/// protocol was driven from the wrong state, or the caller's expected target
/// disagrees with the recomputed one. The application should halt on these
/// rather than attempt recovery.
#[derive(Debug, Clone, Copy, PartialEq, Eq, Structural)]
pub enum Fault {
    /// A staging operation was called with no session in progress.
    NotStaging,
    /// `prepare_for_update` was called while a session was already staged.
    AlreadyStaging,
    /// The caller's expected target slot is not the policy's target.
    TargetMismatch,
}

/// What an update operation can report.
#[derive(Debug, Clone, Copy, PartialEq, Eq, Structural)]
pub enum Error {
    /// A descriptor failed checksum validation where a valid one was
    /// required before writing it back unchanged.
    ChecksumInvalid,
    /// A staged write would overflow the target partition; nothing was
    /// written and the cursor did not move.
    TooLarge,
    /// An I/O failure from the storage adapter, surfaced verbatim.
    Storage(StorageError),
    /// A programming-logic fault of the caller.
    Fault(Fault),
}

impl From<StorageError> for Error {
    fn from(value: StorageError) -> (r: Self) {
        Error::Storage(value)
    }
}

impl vstd::std_specs::convert::FromSpecImpl<StorageError> for Error {
    open spec fn obeys_from_spec() -> bool {
        true
    }

    open spec fn from_spec(value: StorageError) -> Self {
        Error::Storage(value)
    }
}

/// A firmware slot: one of the two interchangeable image partitions, or
/// `Neither` for "no committed image yet" (factory state).
#[derive(Debug, Copy, Clone, PartialEq, Eq, Structural, PartialOrd)]
pub enum Slot {
    Neither,
    Slot0,
    Slot1,
}

pub open spec fn spec_slot_number(s: Slot) -> int {
    match s {
        Slot::Neither => 0,
        Slot::Slot0 => 0,
        Slot::Slot1 => 1,
    }
}

pub open spec fn spec_slot_next(s: Slot) -> Slot {
    match s {
        Slot::Neither => Slot::Slot0,
        Slot::Slot0 => Slot::Slot1,
        Slot::Slot1 => Slot::Slot0,
    }
}

pub open spec fn spec_slot_offset(s: Slot) -> u32 {
    if spec_slot_number(s) == 0 {
        OTA_0_OFFSET
    } else {
        OTA_1_OFFSET
    }
}

pub open spec fn spec_slot_size(s: Slot) -> u32 {
    if spec_slot_number(s) == 0 {
        OTA_0_SIZE
    } else {
        OTA_1_SIZE
    }
}

impl Slot {
    /// The image partition index this slot maps to.
    pub fn number(&self) -> (r: usize)
        ensures
            r == spec_slot_number(*self),
    {
        match self {
            Slot::Neither => 0,
            Slot::Slot0 => 0,
            Slot::Slot1 => 1,
        }
    }

    /// The slot an update would move to from this one.
    pub fn next(&self) -> (r: Slot)
        ensures
            r == spec_slot_next(*self),
    {
        match self {
            Slot::Neither => Slot::Slot0,
            Slot::Slot0 => Slot::Slot1,
            Slot::Slot1 => Slot::Slot0,
        }
    }

    /// Absolute flash address of this slot's image partition.
    pub fn offset(&self) -> (r: u32)
        ensures
            r == spec_slot_offset(*self),
    {
        match self.number() {
            0 => OTA_0_OFFSET,
            _ => OTA_1_OFFSET,
        }
    }

    /// Size in bytes of this slot's image partition.
    pub fn size(&self) -> (r: u32)
        ensures
            r == spec_slot_size(*self),
    {
        match self.number() {
            0 => OTA_0_SIZE,
            _ => OTA_1_SIZE,
        }
    }
}

/// The selector entry holding a slot's descriptor.
pub open spec fn spec_select_of_slot(s: Slot) -> SelectEntrySlot {
    if s == Slot::Slot1 {
        SelectEntrySlot::One
    } else {
        SelectEntrySlot::Zero
    }
}

/// The 32 bytes of `flash` holding `slot`'s descriptor.
pub open spec fn spec_entry_region(flash: Seq<u8>, slot: SelectEntrySlot) -> Seq<u8> {
    flash.subrange(spec_entry_offset(slot), spec_entry_offset(slot) + SELECT_ENTRY_SIZE)
}

/// The descriptor currently stored for `slot`.
pub open spec fn spec_entry_at(flash: Seq<u8>, slot: SelectEntrySlot) -> EntryModel {
    spec_decode(spec_entry_region(flash, slot))
}

/// The validated sequence number of a descriptor: its sequence if its
/// checksum holds, the sentinel ("absent") otherwise.
pub open spec fn spec_validated_sequence(m: EntryModel) -> u32 {
    effective(m).sequence
}

/// Which slot the next update must overwrite, given the two descriptors as
/// read (corrupted ones counting as blank). A slot whose state is not
/// `Valid` is repaired first; when both are `Valid`, the one with the lower
/// sequence — the older, non-booted image — is overwritten.
pub open spec fn spec_update_target(e0: EntryModel, e1: EntryModel) -> Slot {
    let a = effective(e0);
    let b = effective(e1);
    if a.state != OtaSelectEntryState::Valid {
        Slot::Slot0
    } else if b.state != OtaSelectEntryState::Valid {
        Slot::Slot1
    } else if a.sequence == SENTINEL_SEQUENCE && b.sequence == SENTINEL_SEQUENCE {
        Slot::Slot1
    } else if a.sequence == SENTINEL_SEQUENCE {
        Slot::Slot0
    } else if b.sequence == SENTINEL_SEQUENCE {
        Slot::Slot1
    } else if a.sequence > b.sequence {
        Slot::Slot1
    } else {
        Slot::Slot0
    }
}

/// The slot the bootloader selects at startup: the higher validated sequence
/// wins, the sentinel counting as absent, `Slot::Neither` when both are absent.
pub open spec fn spec_current_boot_slot(e0: EntryModel, e1: EntryModel) -> Slot {
    let s0 = spec_validated_sequence(e0);
    let s1 = spec_validated_sequence(e1);
    if s0 == SENTINEL_SEQUENCE && s1 == SENTINEL_SEQUENCE {
        Slot::Neither
    } else if s0 == SENTINEL_SEQUENCE {
        Slot::Slot1
    } else if s1 == SENTINEL_SEQUENCE {
        Slot::Slot0
    } else if s1 > s0 {
        Slot::Slot1
    } else {
        Slot::Slot0
    }
}

/// The sequence number a commit publishes: one greater than the highest
/// validated sequence either descriptor holds, 1 when neither holds one.
pub open spec fn spec_next_sequence(s0: u32, s1: u32) -> u32 {
    if s0 == SENTINEL_SEQUENCE && s1 == SENTINEL_SEQUENCE {
        1
    } else if s0 == SENTINEL_SEQUENCE {
        (s1 + 1) as u32
    } else if s1 == SENTINEL_SEQUENCE {
        (s0 + 1) as u32
    } else if s0 > s1 {
        (s0 + 1) as u32
    } else {
        (s1 + 1) as u32
    }
}

/// The descriptor a commit writes for the target slot: the next sequence
/// number, state `New`, a fresh checksum, and the target's previous
/// (effective) label preserved.
pub open spec fn spec_committed_entry(e0: EntryModel, e1: EntryModel) -> EntryModel {
    let t = spec_update_target(e0, e1);
    let ns = spec_next_sequence(spec_validated_sequence(e0), spec_validated_sequence(e1));
    let base = if t == Slot::Slot1 {
        effective(e1)
    } else {
        effective(e0)
    };
    EntryModel {
        sequence: ns,
        label: base.label,
        state: OtaSelectEntryState::New,
        checksum: sequence_checksum(ns),
    }
}

/// Compute the update target from two descriptors as read from flash;
/// corrupted descriptors count as blank.
pub fn update_target_from_entries(entry0: &OtaSelectEntry, entry1: &OtaSelectEntry) -> (r: Slot)
    ensures
        r == spec_update_target(entry0@, entry1@),
{
    let mut e0 = *entry0;
    if !e0.checksum_ok() {
        e0.reset();
    }
    let mut e1 = *entry1;
    if !e1.checksum_ok() {
        e1.reset();
    }
    if e0.ota_state != OtaSelectEntryState::Valid {
        Slot::Slot0
    } else if e1.ota_state != OtaSelectEntryState::Valid {
        Slot::Slot1
    } else if e0.ota_seq == SENTINEL_SEQUENCE && e1.ota_seq == SENTINEL_SEQUENCE {
        Slot::Slot1
    } else if e0.ota_seq == SENTINEL_SEQUENCE {
        Slot::Slot0
    } else if e1.ota_seq == SENTINEL_SEQUENCE {
        Slot::Slot1
    } else if e0.ota_seq > e1.ota_seq {
        Slot::Slot1
    } else {
        Slot::Slot0
    }
}

/// Compute the boot slot from two descriptors as read from flash.
pub fn boot_slot_from_entries(entry0: &OtaSelectEntry, entry1: &OtaSelectEntry) -> (r: Slot)
    ensures
        r == spec_current_boot_slot(entry0@, entry1@),
{
    let s0 = validated_sequence(entry0);
    let s1 = validated_sequence(entry1);
    if s0 == SENTINEL_SEQUENCE && s1 == SENTINEL_SEQUENCE {
        Slot::Neither
    } else if s0 == SENTINEL_SEQUENCE {
        Slot::Slot1
    } else if s1 == SENTINEL_SEQUENCE {
        Slot::Slot0
    } else if s1 > s0 {
        Slot::Slot1
    } else {
        Slot::Slot0
    }
}

/// The validated sequence number of a descriptor as read from flash.
pub fn validated_sequence(entry: &OtaSelectEntry) -> (r: u32)
    ensures
        r == spec_validated_sequence(entry@),
{
    if entry.checksum_ok() {
        entry.ota_seq
    } else {
        SENTINEL_SEQUENCE
    }
}

/// The sequence number the next commit will publish, from the two validated
/// sequence numbers.
pub fn next_sequence(s0: u32, s1: u32) -> (r: u32)
    ensures
        r == spec_next_sequence(s0, s1),
{
    if s0 == SENTINEL_SEQUENCE && s1 == SENTINEL_SEQUENCE {
        1
    } else if s0 == SENTINEL_SEQUENCE {
        s1 + 1
    } else if s1 == SENTINEL_SEQUENCE {
        s0 + 1
    } else if s0 > s1 {
        s0 + 1
    } else {
        s1 + 1
    }
}

impl OtaSelectEntry {
    /// Read the descriptor stored for `slot`; any 32-byte pattern decodes.
    pub fn read<F: FlashStorage>(slot: SelectEntrySlot, flash: &mut F) -> (r: Result<
        OtaSelectEntry,
        Error,
    >)
        requires
            spec_entry_offset(slot) + SELECT_ENTRY_SIZE <= old(flash).contents().len(),
        ensures
            final(flash).contents() == old(flash).contents(),
            r matches Ok(e) ==> e@ == spec_entry_at(old(flash).contents(), slot),
            r matches Err(e) ==> e matches Error::Storage(_),
    {
        let offset = OTA_DATA_OFFSET + slot.offset();
        match flash.read(offset, SELECT_ENTRY_SIZE as u32) {
            Ok(buf) => {
                let e = Self::decode(buf.as_slice());
                Ok(e)
            },
            Err(e) => Err(Error::Storage(e)),
        }
    }

    /// Write this descriptor at `slot`'s spot in the metadata partition,
    /// first recomputing its checksum (`update_crc`) or refusing to persist
    /// an entry whose stored checksum does not validate.
    pub fn write<F: FlashStorage>(
        &mut self,
        slot: SelectEntrySlot,
        flash: &mut F,
        update_crc: bool,
    ) -> (r: Result<(), Error>)
        requires
            spec_entry_offset(slot) + SELECT_ENTRY_SIZE <= old(flash).contents().len(),
        ensures
            final(flash).contents().len() == old(flash).contents().len(),
            forall|i: int|
                0 <= i < final(flash).contents().len() && !(spec_entry_offset(slot) <= i
                    < spec_entry_offset(slot) + SELECT_ENTRY_SIZE) ==> final(flash).contents()[i]
                    == old(flash).contents()[i],
            update_crc ==> {
                &&& final(self).ota_seq == old(self).ota_seq
                &&& final(self).seq_label == old(self).seq_label
                &&& final(self).ota_state == old(self).ota_state
                &&& final(self).crc == sequence_checksum(old(self).ota_seq)
            },
            !update_crc ==> *final(self) == *old(self),
            !update_crc && !spec_checksum_ok(old(self)@) ==> r == Err::<(), Error>(
                Error::ChecksumInvalid,
            )
                && final(flash).contents() == old(flash).contents(),
            r matches Ok(u) ==> spec_entry_region(final(flash).contents(), slot) == spec_encode(
                final(self)@,
            ),
            r matches Err(e) ==> (e == Error::ChecksumInvalid || e matches Error::Storage(_)),
            r matches Err(e) ==> ((update_crc || spec_checksum_ok(old(self)@)) ==> e matches Error::Storage(_)),
    {
        if update_crc {
            self.crc = self.calculate_checksum();
        } else if !self.checksum_ok() {
            return Err(Error::ChecksumInvalid);
        }
        let offset = OTA_DATA_OFFSET + slot.offset();
        let buf = self.encode();
        match flash.write(offset, buf.as_slice()) {
            Ok(u) => {
                proof {
                    assert(spec_entry_region(final(flash).contents(), slot) =~= spec_encode(
                        final(self)@,
                    ));
                }
                Ok(())
            },
            Err(e) => Err(Error::Storage(e)),
        }
    }
}

/// Everything a commit is allowed and required to do to the flash, relative
/// to the descriptors it found: at most the target descriptor's 32 bytes
/// change, and on success they change to exactly the committed descriptor; a
/// target mismatch is reported as a caller fault and changes nothing.
pub open spec fn spec_commit_outcome(
    pre: Seq<u8>,
    post: Seq<u8>,
    expected: Slot,
    r: Result<(), Error>,
) -> bool {
    let e0 = spec_entry_at(pre, SelectEntrySlot::Zero);
    let e1 = spec_entry_at(pre, SelectEntrySlot::One);
    let t = spec_update_target(e0, e1);
    let sel = spec_select_of_slot(t);
    &&& post.len() == pre.len()
    &&& forall|i: int|
        0 <= i < post.len() && !(spec_entry_offset(sel) <= i < spec_entry_offset(sel)
            + SELECT_ENTRY_SIZE) ==> post[i] == pre[i]
    &&& (r matches Ok(u) ==> {
        &&& expected == t
        &&& spec_entry_region(post, sel) == spec_encode(spec_committed_entry(e0, e1))
        &&& spec_entry_at(post, sel) == spec_committed_entry(e0, e1)
    })
    &&& (r == Err::<(), Error>(Error::Fault(Fault::TargetMismatch)) ==> expected != t && post
        == pre)
    &&& (r matches Err(e) ==> (e matches Error::Storage(_) || e == Error::Fault(
        Fault::TargetMismatch,
    )))
}

/// Write `entry`, repointed to sequence `seq` and state `New` with a fresh
/// checksum, as `sel`'s descriptor.
fn publish_entry<F: FlashStorage>(
    entry: OtaSelectEntry,
    sel: SelectEntrySlot,
    flash: &mut F,
    seq: u32,
) -> (r: Result<(), Error>)
    requires
        spec_entry_offset(sel) + SELECT_ENTRY_SIZE <= old(flash).contents().len(),
    ensures
        final(flash).contents().len() == old(flash).contents().len(),
        forall|i: int|
            0 <= i < final(flash).contents().len() && !(spec_entry_offset(sel) <= i
                < spec_entry_offset(sel) + SELECT_ENTRY_SIZE) ==> final(flash).contents()[i]
                == old(flash).contents()[i],
        r matches Ok(u) ==> spec_entry_region(final(flash).contents(), sel) == spec_encode(
            EntryModel {
                sequence: seq,
                label: entry@.label,
                state: OtaSelectEntryState::New,
                checksum: sequence_checksum(seq),
            },
        ),
        r matches Err(e) ==> e matches Error::Storage(_),
{
    let mut e = entry;
    e.ota_seq = seq;
    e.ota_state = OtaSelectEntryState::New;
    e.write(sel, flash, true)
}

/// The update manager: the slot selection policy and the staged update
/// session, over an exclusively owned flash medium. There is no hidden
/// state: the session, if any, lives in `update_state`.
pub struct Ota<F: FlashStorage> {
    /// The exclusively owned flash medium.
    pub flash: F,
    /// The live session: the slot being staged and how many bytes of it have
    /// been written, or `None` when idle.
    pub update_state: Option<(Slot, u32)>,
}

impl<F: FlashStorage> Ota<F> {
    /// The bytes of the managed flash medium.
    pub open spec fn contents(&self) -> Seq<u8> {
        self.flash.contents()
    }

    /// The medium covers every partition, and a staged session targets a
    /// real slot with its cursor within bounds.
    pub open spec fn wf(&self) -> bool {
        &&& self.contents().len() >= FLASH_SPAN
        &&& match self.update_state {
            Option::Some(session) => (session.0 == Slot::Slot0 || session.0 == Slot::Slot1)
                && session.1 <= spec_slot_size(session.0),
            Option::None => true,
        }
    }

    /// Take exclusive charge of `flash`, which must cover the partition
    /// table, with no session in progress.
    pub fn new(flash: F) -> (r: Ota<F>)
        requires
            flash.contents().len() >= FLASH_SPAN,
        ensures
            r.wf(),
            r.contents() == flash.contents(),
            r.update_state is None,
    {
        Ota { flash, update_state: Option::None }
    }

    /// Hand the flash medium back, ending the manager's exclusive access.
    pub fn into_flash(self) -> (r: F)
        ensures
            r.contents() == self.contents(),
    {
        self.flash
    }

    /// Read the descriptor stored for one of the two selector entries.
    pub fn get_ota_entry(&mut self, slot: SelectEntrySlot) -> (r: Result<OtaSelectEntry, Error>)
        requires
            old(self).wf(),
        ensures
            final(self).wf(),
            final(self).contents() == old(self).contents(),
            final(self).update_state == old(self).update_state,
            r matches Ok(e) ==> e@ == spec_entry_at(old(self).contents(), slot),
            r matches Err(e) ==> e matches Error::Storage(_),
    {
        OtaSelectEntry::read(slot, &mut self.flash)
    }

    /// Read both descriptors, slot 0's first.
    fn get_ota_entries(&mut self) -> (r: Result<(OtaSelectEntry, OtaSelectEntry), Error>)
        requires
            old(self).wf(),
        ensures
            final(self).wf(),
            final(self).contents() == old(self).contents(),
            final(self).update_state == old(self).update_state,
            r matches Ok(p) ==> p.0@ == spec_entry_at(old(self).contents(), SelectEntrySlot::Zero)
                && p.1@ == spec_entry_at(old(self).contents(), SelectEntrySlot::One),
            r matches Err(e) ==> e matches Error::Storage(_),
    {
        let entry0 = match self.get_ota_entry(SelectEntrySlot::Zero) {
            Ok(e) => e,
            Err(e) => {
                return Err(e);
            },
        };
        let entry1 = match self.get_ota_entry(SelectEntrySlot::One) {
            Ok(e) => e,
            Err(e) => {
                return Err(e);
            },
        };
        Ok((entry0, entry1))
    }

    /// The two validated sequence numbers, with the sentinel standing in for
    /// a descriptor whose checksum does not hold.
    pub fn get_slot_seq(&mut self) -> (r: Result<(u32, u32), Error>)
        requires
            old(self).wf(),
        ensures
            final(self).wf(),
            final(self).contents() == old(self).contents(),
            final(self).update_state == old(self).update_state,
            r matches Ok(p) ==> p.0 == spec_validated_sequence(
                spec_entry_at(old(self).contents(), SelectEntrySlot::Zero),
            ) && p.1 == spec_validated_sequence(
                spec_entry_at(old(self).contents(), SelectEntrySlot::One),
            ),
            r matches Err(e) ==> e matches Error::Storage(_),
    {
        let (entry0, entry1) = match self.get_ota_entries() {
            Ok(p) => p,
            Err(e) => {
                return Err(e);
            },
        };
        let seq0 = validated_sequence(&entry0);
        let seq1 = validated_sequence(&entry1);
        Ok((seq0, seq1))
    }

    /// The slot the next update must overwrite, read fresh from flash.
    pub fn update_slot(&mut self) -> (r: Result<Slot, Error>)
        requires
            old(self).wf(),
        ensures
            final(self).wf(),
            final(self).contents() == old(self).contents(),
            final(self).update_state == old(self).update_state,
            r matches Ok(s) ==> s == spec_update_target(
                spec_entry_at(old(self).contents(), SelectEntrySlot::Zero),
                spec_entry_at(old(self).contents(), SelectEntrySlot::One),
            ),
            r matches Err(e) ==> e matches Error::Storage(_),
    {
        let (entry0, entry1) = match self.get_ota_entries() {
            Ok(p) => p,
            Err(e) => {
                return Err(e);
            },
        };
        Ok(update_target_from_entries(&entry0, &entry1))
    }

    /// The slot the bootloader currently selects, read fresh from flash.
    pub fn current_boot_slot(&mut self) -> (r: Result<Slot, Error>)
        requires
            old(self).wf(),
        ensures
            final(self).wf(),
            final(self).contents() == old(self).contents(),
            final(self).update_state == old(self).update_state,
            r matches Ok(s) ==> s == spec_current_boot_slot(
                spec_entry_at(old(self).contents(), SelectEntrySlot::Zero),
                spec_entry_at(old(self).contents(), SelectEntrySlot::One),
            ),
            r matches Err(e) ==> e matches Error::Storage(_),
    {
        let (entry0, entry1) = match self.get_ota_entries() {
            Ok(p) => p,
            Err(e) => {
                return Err(e);
            },
        };
        Ok(boot_slot_from_entries(&entry0, &entry1))
    }

    /// Open a staging session: compute the update target and start the write
    /// cursor at zero. A session already in progress is a caller fault.
    pub fn prepare_for_update(&mut self) -> (r: Result<(), Error>)
        requires
            old(self).wf(),
        ensures
            final(self).wf(),
            final(self).contents() == old(self).contents(),
            old(self).update_state is Some ==> r == Err::<(), Error>(
                Error::Fault(Fault::AlreadyStaging),
            ),
            r matches Err(e) ==> final(self).update_state == old(self).update_state && (e
                == Error::Fault(Fault::AlreadyStaging) || e matches Error::Storage(_)),
            old(self).update_state is None ==> (r matches Err(e) ==> e matches Error::Storage(_)),
            r matches Ok(u) ==> old(self).update_state is None && final(self).update_state
                == Option::Some(
                (
                    spec_update_target(
                        spec_entry_at(old(self).contents(), SelectEntrySlot::Zero),
                        spec_entry_at(old(self).contents(), SelectEntrySlot::One),
                    ),
                    0u32,
                ),
            ),
    {
        if self.update_state.is_some() {
            return Err(Error::Fault(Fault::AlreadyStaging));
        }
        let slot = match self.update_slot() {
            Ok(s) => s,
            Err(e) => {
                return Err(e);
            },
        };
        self.update_state = Option::Some((slot, 0));
        Ok(())
    }

    /// Stage the next chunk of the new image: write it at the session cursor
    /// inside the target partition and advance the cursor. A chunk is
    /// refused whole with `TooLarge` exactly when it would overflow the
    /// target; an empty chunk is an accepted no-op, never an error; an
    /// in-bounds chunk can fail only by a storage error surfaced verbatim,
    /// with the cursor unmoved so the caller may retry the same chunk. No
    /// byte outside the chunk's range is touched, so neither descriptor nor
    /// the other slot ever changes here.
    pub fn write_update(&mut self, buf: &[u8]) -> (r: Result<(), Error>)
        requires
            old(self).wf(),
        ensures
            final(self).wf(),
            final(self).contents().len() == old(self).contents().len(),
            old(self).update_state is None ==> r == Err::<(), Error>(
                Error::Fault(Fault::NotStaging),
            ) && final(self).contents() == old(self).contents()
                && final(self).update_state == old(self).update_state,
            match old(self).update_state {
                Option::Some(session) => {
                    let slot = session.0;
                    let cursor = session.1;
                    let start = spec_slot_offset(slot) + cursor;
                    &&& (cursor + buf@.len() > spec_slot_size(slot) ==> r == Err::<(), Error>(
                        Error::TooLarge,
                    ) && final(self).contents() == old(self).contents() && final(self).update_state
                        == old(self).update_state)
                    &&& (forall|i: int|
                        0 <= i < final(self).contents().len() && !(start <= i < start + buf@.len())
                            ==> final(self).contents()[i] == old(self).contents()[i])
                    &&& (r matches Ok(u) ==> {
                        &&& cursor + buf@.len() <= spec_slot_size(slot)
                        &&& forall|i: int|
                            start <= i < start + buf@.len() ==> final(self).contents()[i] == buf@[i
                                - start]
                        &&& final(self).update_state == Option::Some(
                            (slot, (cursor + buf@.len()) as u32),
                        )
                    })
                    &&& (r == Err::<(), Error>(Error::TooLarge) ==> cursor + buf@.len()
                        > spec_slot_size(slot))
                    &&& (buf@.len() == 0 ==> r == Ok::<(), Error>(()))
                    &&& (r matches Err(e) ==> {
                        &&& final(self).update_state == old(self).update_state
                        &&& (e == Error::TooLarge || e matches Error::Storage(_))
                    })
                },
                Option::None => true,
            },
    {
        let session = match self.update_state {
            Option::Some(s) => s,
            Option::None => {
                return Err(Error::Fault(Fault::NotStaging));
            },
        };
        let slot = session.0;
        let cursor = session.1;
        let len = buf.len();
        if len as u64 > (slot.size() - cursor) as u64 {
            return Err(Error::TooLarge);
        }
        if len > 0 {
            let offset = slot.offset() + cursor;
            match self.flash.write(offset, buf) {
                Ok(u) => {},
                Err(e) => {
                    return Err(Error::Storage(e));
                },
            }
            self.update_state = Option::Some((slot, cursor + len as u32));
        }
        Ok(())
    }

    /// Close the session and publish its target: the session is consumed
    /// either way, and the descriptor write follows `spec_commit_outcome`
    /// with the staged slot as the expected target.
    pub fn commit_update(&mut self) -> (r: Result<(), Error>)
        requires
            old(self).wf(),
        ensures
            final(self).wf(),
            final(self).update_state is None,
            match old(self).update_state {
                Option::Some(session) => spec_commit_outcome(
                    old(self).contents(),
                    final(self).contents(),
                    session.0,
                    r,
                ),
                Option::None => r == Err::<(), Error>(Error::Fault(Fault::NotStaging))
                    && final(self).contents() == old(self).contents(),
            },
    {
        let session = match self.update_state {
            Option::Some(s) => s,
            Option::None => {
                return Err(Error::Fault(Fault::NotStaging));
            },
        };
        self.update_state = Option::None;
        self.set_current_slot(session.0)
    }

    /// Publish `expected_slot` as the next boot image: recompute the target
    /// and the next sequence number from the descriptors on flash, check the
    /// caller's expectation, and write the one new descriptor. The other
    /// descriptor is left byte-for-byte unchanged, and a corrupted
    /// descriptor is substituted in memory only — never persisted by itself.
    pub fn set_current_slot(&mut self, expected_slot: Slot) -> (r: Result<(), Error>)
        requires
            old(self).wf(),
        ensures
            final(self).wf(),
            final(self).update_state == old(self).update_state,
            spec_commit_outcome(old(self).contents(), final(self).contents(), expected_slot, r),
    {
        let ghost pre = self.contents();
        let (entry0_raw, entry1_raw) = match self.get_ota_entries() {
            Ok(p) => p,
            Err(e) => {
                return Err(e);
            },
        };
        let slot = update_target_from_entries(&entry0_raw, &entry1_raw);
        let mut entry0 = entry0_raw;
        if !entry0.checksum_ok() {
            entry0.reset();
        }
        let mut entry1 = entry1_raw;
        if !entry1.checksum_ok() {
            entry1.reset();
        }
        let seq = next_sequence(entry0.ota_seq, entry1.ota_seq);
        if slot != expected_slot {
            return Err(Error::Fault(Fault::TargetMismatch));
        }
        let r = match slot {
            Slot::Slot1 => publish_entry(entry1, SelectEntrySlot::One, &mut self.flash, seq),
            _ => publish_entry(entry0, SelectEntrySlot::Zero, &mut self.flash, seq),
        };
        proof {
            let e0 = spec_entry_at(pre, SelectEntrySlot::Zero);
            let e1 = spec_entry_at(pre, SelectEntrySlot::One);
            if r is Ok {
                assert(entry_model_wf(spec_committed_entry(e0, e1)));
                lemma_decode_encode_roundtrip(spec_committed_entry(e0, e1));
            }
        }
        r
    }
}

/// Self-preservation: whenever exactly one slot is in state `Valid` (after
/// the checksum substitution) and that slot is the one the bootloader
/// selects, the update target is never that slot.
pub proof fn lemma_self_preservation(e0: EntryModel, e1: EntryModel)
    requires
        (effective(e0).state == OtaSelectEntryState::Valid) != (effective(e1).state
            == OtaSelectEntryState::Valid),
        effective(e0).state == OtaSelectEntryState::Valid ==> spec_current_boot_slot(e0, e1)
            == Slot::Slot0,
        effective(e1).state == OtaSelectEntryState::Valid ==> spec_current_boot_slot(e0, e1)
            == Slot::Slot1,
    ensures
        spec_update_target(e0, e1) != spec_current_boot_slot(e0, e1),
{
}

/// Sequence monotonicity: the sequence number a commit publishes is strictly
/// greater than every validated sequence number either descriptor held.
pub proof fn lemma_commit_sequence_monotonic(e0: EntryModel, e1: EntryModel)
    ensures
        spec_validated_sequence(e0) != SENTINEL_SEQUENCE ==> spec_committed_entry(e0, e1).sequence
            > spec_validated_sequence(e0),
        spec_validated_sequence(e1) != SENTINEL_SEQUENCE ==> spec_committed_entry(e0, e1).sequence
            > spec_validated_sequence(e1),
{
}

/// After a successful commit the bootloader selects the committed slot: the
/// fresh descriptor's checksum validates and its sequence number is strictly
/// the highest, so long as the sequence space is not exhausted (a committed
/// sequence equal to the sentinel would read back as "absent").
pub proof fn lemma_commit_wins_boot(e0: EntryModel, e1: EntryModel)
    requires
        spec_committed_entry(e0, e1).sequence != SENTINEL_SEQUENCE,
    ensures
        spec_update_target(e0, e1) == Slot::Slot0 ==> spec_current_boot_slot(
            spec_committed_entry(e0, e1),
            e1,
        ) == Slot::Slot0,
        spec_update_target(e0, e1) == Slot::Slot1 ==> spec_current_boot_slot(
            e0,
            spec_committed_entry(e0, e1),
        ) == Slot::Slot1,
{
    lemma_commit_sequence_monotonic(e0, e1);
}

} // verus!


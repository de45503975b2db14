use blind_controller::entry::{OtaSelectEntry, OtaSelectEntryState};
use blind_controller::flash::{FlashStorage, MemFlash, StorageError};
use blind_controller::ota::{Error, Fault, Ota, SelectEntrySlot, Slot};
use blind_controller::partitions::{FLASH_SPAN, OTA_0_OFFSET, OTA_0_SIZE, OTA_DATA_OFFSET};

/// A flash medium whose writes always fail, as a stuck hardware driver's
/// would; reads pass through.
struct StuckFlash(MemFlash);

impl FlashStorage for StuckFlash {
    fn contents(&self) -> vstd::seq::Seq<u8> {
        // Ghost-only item: never called at run time.
        panic!()
    }

    fn read(&mut self, offset: u32, len: u32) -> Result<Vec<u8>, StorageError> {
        self.0.read(offset, len)
    }

    fn write(&mut self, _offset: u32, _data: &[u8]) -> Result<(), StorageError> {
        Err(StorageError::IoError)
    }
}

fn fresh_flash() -> MemFlash {
    MemFlash::new(FLASH_SPAN as usize)
}

fn descriptor(seq: u32, state: OtaSelectEntryState) -> OtaSelectEntry {
    let mut e = OtaSelectEntry { ota_seq: seq, seq_label: [0; 20], ota_state: state, crc: 0 };
    e.crc = e.calculate_checksum();
    e
}

fn store(flash: &mut MemFlash, sel: SelectEntrySlot, seq: u32, state: OtaSelectEntryState) {
    let mut e = descriptor(seq, state);
    e.write(sel, flash, true).unwrap();
}

fn raw_region(flash: &mut MemFlash, sel: SelectEntrySlot) -> Vec<u8> {
    flash.read(OTA_DATA_OFFSET + sel.offset(), 32).unwrap()
}

fn read_entry(flash: &mut MemFlash, sel: SelectEntrySlot) -> OtaSelectEntry {
    OtaSelectEntry::read(sel, flash).unwrap()
}

#[test]
fn scenario_factory_first_update_commits_slot0_sequence_1() {
    let mut ota = Ota::new(fresh_flash());
    assert_eq!(ota.update_slot().unwrap(), Slot::Slot0);
    ota.prepare_for_update().unwrap();
    let image = [0x42u8; 64];
    ota.write_update(&image).unwrap();
    ota.commit_update().unwrap();
    assert_eq!(ota.current_boot_slot().unwrap(), Slot::Slot0);
    let mut flash = ota.into_flash();
    let e0 = read_entry(&mut flash, SelectEntrySlot::Zero);
    assert_eq!(e0.ota_seq, 1);
    assert_eq!(e0.ota_state, OtaSelectEntryState::New);
    assert!(e0.checksum_ok());
    assert_eq!(raw_region(&mut flash, SelectEntrySlot::One), vec![0xFF; 32]);
}

#[test]
fn scenario_both_valid_updates_older_slot() {
    let mut flash = fresh_flash();
    store(&mut flash, SelectEntrySlot::Zero, 5, OtaSelectEntryState::Valid);
    store(&mut flash, SelectEntrySlot::One, 4, OtaSelectEntryState::Valid);
    let entry0_before = raw_region(&mut flash, SelectEntrySlot::Zero);
    let mut ota = Ota::new(flash);
    assert_eq!(ota.current_boot_slot().unwrap(), Slot::Slot0);
    assert_eq!(ota.update_slot().unwrap(), Slot::Slot1);
    ota.prepare_for_update().unwrap();
    ota.write_update(&[1, 2, 3]).unwrap();
    ota.commit_update().unwrap();
    assert_eq!(ota.current_boot_slot().unwrap(), Slot::Slot1);
    let mut flash = ota.into_flash();
    let e1 = read_entry(&mut flash, SelectEntrySlot::One);
    assert_eq!(e1.ota_seq, 6);
    assert_eq!(e1.ota_state, OtaSelectEntryState::New);
    assert!(e1.checksum_ok());
    assert_eq!(raw_region(&mut flash, SelectEntrySlot::Zero), entry0_before);
}

#[test]
fn scenario_corrupted_descriptor_is_repaired_first() {
    let mut flash = fresh_flash();
    store(&mut flash, SelectEntrySlot::Zero, 7, OtaSelectEntryState::Valid);
    // Corrupt slot 0's stored checksum in place.
    let offset = OTA_DATA_OFFSET + SelectEntrySlot::Zero.offset();
    flash.write(offset + 28, &[0x00, 0x11, 0x22, 0x33]).unwrap();
    store(&mut flash, SelectEntrySlot::One, 10, OtaSelectEntryState::Valid);
    let entry1_before = raw_region(&mut flash, SelectEntrySlot::One);
    let mut ota = Ota::new(flash);
    assert_eq!(ota.update_slot().unwrap(), Slot::Slot0);
    ota.set_current_slot(Slot::Slot0).unwrap();
    let mut flash = ota.into_flash();
    let e0 = read_entry(&mut flash, SelectEntrySlot::Zero);
    assert_eq!(e0.ota_seq, 11);
    assert_eq!(e0.ota_state, OtaSelectEntryState::New);
    assert!(e0.checksum_ok());
    assert_eq!(raw_region(&mut flash, SelectEntrySlot::One), entry1_before);
}

#[test]
fn scenario_two_chunks_advance_cursor_and_land_in_order() {
    let mut ota = Ota::new(fresh_flash());
    ota.prepare_for_update().unwrap();
    let chunk_a: Vec<u8> = (0..100u32).map(|i| i as u8).collect();
    let chunk_b: Vec<u8> = (100..150u32).map(|i| i as u8).collect();
    ota.write_update(chunk_a.as_slice()).unwrap();
    ota.write_update(chunk_b.as_slice()).unwrap();
    assert_eq!(ota.update_state, Some((Slot::Slot0, 150)));
    let mut flash = ota.into_flash();
    let written = flash.read(OTA_0_OFFSET, 150).unwrap();
    let mut expected = chunk_a.clone();
    expected.extend_from_slice(chunk_b.as_slice());
    assert_eq!(written, expected);
    assert_eq!(flash.read(OTA_0_OFFSET + 150, 1).unwrap(), vec![0xFF]);
}

#[test]
fn oversized_write_is_rejected_whole_and_cursor_stays() {
    let mut ota = Ota::new(fresh_flash());
    ota.prepare_for_update().unwrap();
    ota.write_update(&[9; 100]).unwrap();
    let too_big = vec![0u8; OTA_0_SIZE as usize];
    assert_eq!(ota.write_update(too_big.as_slice()), Err(Error::TooLarge));
    assert_eq!(ota.update_state, Some((Slot::Slot0, 100)));
    let mut flash = ota.into_flash();
    assert_eq!(flash.read(OTA_0_OFFSET + 100, 1).unwrap(), vec![0xFF]);
}

#[test]
fn zero_length_write_is_a_no_op() {
    let mut ota = Ota::new(fresh_flash());
    ota.prepare_for_update().unwrap();
    ota.write_update(&[]).unwrap();
    assert_eq!(ota.update_state, Some((Slot::Slot0, 0)));
}

#[test]
fn staging_calls_outside_a_session_are_faults() {
    let mut ota = Ota::new(fresh_flash());
    assert_eq!(ota.write_update(&[1]), Err(Error::Fault(Fault::NotStaging)));
    assert_eq!(ota.commit_update(), Err(Error::Fault(Fault::NotStaging)));
    ota.prepare_for_update().unwrap();
    assert_eq!(ota.prepare_for_update(), Err(Error::Fault(Fault::AlreadyStaging)));
}

#[test]
fn commit_to_wrong_slot_is_a_fault_and_writes_nothing() {
    let mut ota = Ota::new(fresh_flash());
    assert_eq!(
        ota.set_current_slot(Slot::Slot1),
        Err(Error::Fault(Fault::TargetMismatch))
    );
    let mut flash = ota.into_flash();
    assert_eq!(raw_region(&mut flash, SelectEntrySlot::Zero), vec![0xFF; 32]);
    assert_eq!(raw_region(&mut flash, SelectEntrySlot::One), vec![0xFF; 32]);
}

#[test]
fn abandoned_session_leaves_descriptors_unchanged() {
    let mut flash = fresh_flash();
    store(&mut flash, SelectEntrySlot::Zero, 3, OtaSelectEntryState::Valid);
    let entry0_before = raw_region(&mut flash, SelectEntrySlot::Zero);
    let entry1_before = raw_region(&mut flash, SelectEntrySlot::One);
    let mut ota = Ota::new(flash);
    ota.prepare_for_update().unwrap();
    ota.write_update(&[7; 32]).unwrap();
    // Drop the session without committing: the partial image is wasted but
    // both descriptors still read back byte for byte.
    let mut flash = ota.into_flash();
    assert_eq!(raw_region(&mut flash, SelectEntrySlot::Zero), entry0_before);
    assert_eq!(raw_region(&mut flash, SelectEntrySlot::One), entry1_before);
}

#[test]
fn writing_unvalidated_descriptor_without_crc_update_is_refused() {
    let mut flash = fresh_flash();
    let mut e = descriptor(5, OtaSelectEntryState::Valid);
    e.crc ^= 0xFF;
    assert_eq!(
        e.write(SelectEntrySlot::Zero, &mut flash, false),
        Err(Error::ChecksumInvalid)
    );
    assert_eq!(raw_region(&mut flash, SelectEntrySlot::Zero), vec![0xFF; 32]);
}

#[test]
fn storage_failure_propagates_and_cursor_stays() {
    let mut ota = Ota::new(StuckFlash(fresh_flash()));
    ota.prepare_for_update().unwrap();
    assert_eq!(
        ota.write_update(&[1, 2, 3]),
        Err(Error::Storage(StorageError::IoError))
    );
    assert_eq!(ota.update_state, Some((Slot::Slot0, 0)));
    assert_eq!(
        ota.commit_update(),
        Err(Error::Storage(StorageError::IoError))
    );
    assert_eq!(ota.update_state, None);
    let mut flash = ota.into_flash();
    assert_eq!(flash.read(OTA_DATA_OFFSET, 32).unwrap(), vec![0xFF; 32]);
}

#[test]
fn sequence_grows_past_both_descriptors_across_updates() {
    let mut flash = fresh_flash();
    store(&mut flash, SelectEntrySlot::Zero, 8, OtaSelectEntryState::Valid);
    store(&mut flash, SelectEntrySlot::One, 9, OtaSelectEntryState::Valid);
    let mut ota = Ota::new(flash);
    assert_eq!(ota.get_slot_seq().unwrap(), (8, 9));
    assert_eq!(ota.update_slot().unwrap(), Slot::Slot0);
    ota.set_current_slot(Slot::Slot0).unwrap();
    let mut flash = ota.into_flash();
    let e0 = read_entry(&mut flash, SelectEntrySlot::Zero);
    let e1 = read_entry(&mut flash, SelectEntrySlot::One);
    assert!(e0.ota_seq > 8 && e0.ota_seq > 9);
    assert_eq!(e0.ota_seq, 10);
    assert_eq!(e1.ota_seq, 9);
}

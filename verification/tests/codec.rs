use blind_controller::entry::{OtaSelectEntry, OtaSelectEntryState};

fn sample_entry() -> OtaSelectEntry {
    let mut label = [0u8; 20];
    for (i, b) in label.iter_mut().enumerate() {
        *b = i as u8;
    }
    OtaSelectEntry {
        ota_seq: 0x01020304,
        seq_label: label,
        ota_state: OtaSelectEntryState::Valid,
        crc: 0xDEADBEEF,
    }
}

#[test]
fn encode_layout_is_bootloader_exact() {
    let e = OtaSelectEntry {
        ota_seq: 5,
        seq_label: [0xAB; 20],
        ota_state: OtaSelectEntryState::Valid,
        crc: 0xC8210FCD,
    };
    let bytes = e.encode();
    assert_eq!(bytes.len(), 32);
    assert_eq!(&bytes[0..4], &[0x05, 0x00, 0x00, 0x00]);
    assert_eq!(&bytes[4..24], &[0xAB; 20]);
    assert_eq!(&bytes[24..28], &[0x02, 0x00, 0x00, 0x00]);
    assert_eq!(&bytes[28..32], &[0xCD, 0x0F, 0x21, 0xC8]);
}

#[test]
fn decode_encode_round_trip() {
    let e = sample_entry();
    let bytes = e.encode();
    let back = OtaSelectEntry::decode(bytes.as_slice());
    assert_eq!(back, e);
}

#[test]
fn decode_is_total_on_any_pattern() {
    let mut bytes = [0u8; 32];
    for (i, b) in bytes.iter_mut().enumerate() {
        *b = (37 * i + 11) as u8;
    }
    let e = OtaSelectEntry::decode(&bytes);
    assert_eq!(e.ota_seq, u32::from_le_bytes([bytes[0], bytes[1], bytes[2], bytes[3]]));
    assert_eq!(&e.seq_label[..], &bytes[4..24]);
    assert_eq!(e.crc, u32::from_le_bytes([bytes[28], bytes[29], bytes[30], bytes[31]]));
}

#[test]
fn unknown_state_tag_decodes_to_undefined() {
    let mut e = sample_entry();
    e.ota_state = OtaSelectEntryState::Aborted;
    let mut bytes = e.encode();
    bytes[24] = 0x07;
    let back = OtaSelectEntry::decode(bytes.as_slice());
    assert_eq!(back.ota_state, OtaSelectEntryState::Undefined);
}

#[test]
fn undefined_state_round_trips_as_sentinel_tag() {
    let mut e = sample_entry();
    e.ota_state = OtaSelectEntryState::Undefined;
    let bytes = e.encode();
    assert_eq!(&bytes[24..28], &[0xFF, 0xFF, 0xFF, 0xFF]);
    let back = OtaSelectEntry::decode(bytes.as_slice());
    assert_eq!(back.ota_state, OtaSelectEntryState::Undefined);
}

#[test]
fn checksum_known_values() {
    let mut e = sample_entry();
    e.ota_seq = 1;
    assert_eq!(e.calculate_checksum(), 0x4743989A);
    e.ota_seq = 0xFFFFFFFF;
    assert_eq!(e.calculate_checksum(), 0x2144DF1C);
    e.ota_seq = 0;
    assert_eq!(e.calculate_checksum(), 0xFFFFFFFF);
    e.ota_seq = 10;
    assert_eq!(e.calculate_checksum(), 0x90421F9B);
}

#[test]
fn checksum_ok_iff_crc_matches_sequence_checksum() {
    let mut e = sample_entry();
    e.ota_seq = 5;
    e.crc = 0xC8210FCD;
    assert!(e.checksum_ok());
    e.crc = 0xC8210FCE;
    assert!(!e.checksum_ok());
}

#[test]
fn checksum_ignores_label_and_state() {
    let mut a = sample_entry();
    a.ota_seq = 6;
    a.crc = 0xDA94A023;
    let mut b = a;
    b.seq_label = [0x55; 20];
    b.ota_state = OtaSelectEntryState::Invalid;
    assert_eq!(a.checksum_ok(), b.checksum_ok());
    assert!(a.checksum_ok());
}

#[test]
fn reset_blanks_entry_and_stays_consistent() {
    let mut e = sample_entry();
    e.reset();
    assert_eq!(e.ota_seq, 0xFFFFFFFF);
    assert_eq!(e.seq_label, [0xFF; 20]);
    assert_eq!(e.ota_state, OtaSelectEntryState::Undefined);
    assert_eq!(e.crc, 0x2144DF1C);
    assert!(e.checksum_ok());
}

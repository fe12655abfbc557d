use lin_node::lin_frame::{checksum, checksum_matches, data_with_checksum, Pid};

#[test]
fn pid_from_id_known_values() {
    let expected: [(u8, u8); 10] = [
        (0x00, 0x80),
        (0x01, 0xC1),
        (0x02, 0x42),
        (0x03, 0x03),
        (0x05, 0x85),
        (0x06, 0x06),
        (0x07, 0x47),
        (0x08, 0x08),
        (0x3C, 0x3C),
        (0x3D, 0x7D),
    ];
    for (id, byte) in expected {
        let pid = Pid::from_id(id);
        assert_eq!(pid.get(), byte);
        assert_eq!(pid.get_id(), id);
    }
}

#[test]
fn pid_round_trip_all_ids() {
    for id in 0u8..64 {
        let byte = Pid::from_id(id).get();
        let decoded = Pid::decode(byte).expect("valid pid");
        assert_eq!(decoded.get_id(), id);
        assert_eq!(decoded.get(), byte);
    }
}

#[test]
fn pid_decode_accepts_exactly_the_valid_bytes() {
    let mut valid = 0;
    for b in 0u8..=255 {
        let id = b & 0x3F;
        let expected_ok = Pid::from_id(id).get() == b;
        assert_eq!(Pid::decode(b).is_some(), expected_ok, "byte {:#x}", b);
        if expected_ok {
            valid += 1;
        }
    }
    assert_eq!(valid, 64);
}

#[test]
fn pid_decode_rejects_flipped_parity() {
    assert!(Pid::decode(0x42).is_some());
    assert!(Pid::decode(0x02).is_none());
    assert!(Pid::decode(0xC2).is_none());
    assert!(Pid::decode(0x00).is_none());
}

#[test]
fn checksum_reference_example() {
    // 0xCA + 0x55 = 0x11F -> 0x20; + 0x93 = 0xB3; + 0xE5 = 0x198 -> 0x99
    let pid = Pid::decode(0xCA).expect("valid pid");
    assert_eq!(pid.get_id(), 0x0A);
    assert_eq!(checksum(pid, &[0x55, 0x93, 0xE5]), 0x66);
}

#[test]
fn checksum_of_empty_data_is_inverted_pid() {
    let pid = Pid::from_id(2);
    assert_eq!(checksum(pid, &[]), !0x42u8);
    assert_eq!(checksum(pid, &[0, 0]), 0xBD);
}

#[test]
fn checksum_folds_carry() {
    let pid = Pid::from_id(3);
    // 0x03 + 0xFF = 0x102 -> 0x03, + 0xFF -> 0x03
    assert_eq!(checksum(pid, &[0xFF, 0xFF]), !0x03u8);
}

#[test]
fn checksum_detects_every_single_bit_flip() {
    let pid = Pid::from_id(0);
    let data = [10u8, 20, 30];
    let good = checksum(pid, &data);
    assert!(checksum_matches(pid, &data, good));
    for i in 0..data.len() {
        for k in 0..8 {
            let mut bad = data;
            bad[i] ^= 1 << k;
            assert!(!checksum_matches(pid, &bad, good));
        }
    }
    for k in 0..8 {
        assert!(!checksum_matches(pid, &data, good ^ (1 << k)));
    }
}

#[test]
fn data_with_checksum_appends_checksum() {
    let pid = Pid::from_id(0);
    assert_eq!(data_with_checksum(pid, &[10, 20, 30]), vec![10, 20, 30, 0x43]);
    assert_eq!(data_with_checksum(pid, &[]), vec![!0x80u8]);
}

use lin_node::analog::measured_millivolts;
use lin_node::ds18b20::{crc8, decode_scratchpad, BusAction, TemperatureRead};
use lin_node::onewire::{bus_byte, device_present, slot_chars};
use lin_node::rgb::value_to_duty;

const REFERENCE: [u8; 9] = [0x91, 0x01, 0x4B, 0x46, 0x7F, 0xFF, 0x0C, 0x10, 0x70];

#[test]
fn crc8_reference_scratchpad_validates() {
    assert_eq!(crc8(&REFERENCE[..8]), 0x70);
    assert_eq!(crc8(&REFERENCE), 0);
    assert_eq!(crc8(&[]), 0);
}

#[test]
fn crc8_detects_single_corrupted_byte() {
    for i in 0..9 {
        for x in 0u8..=255 {
            if x == REFERENCE[i] {
                continue;
            }
            let mut bad = REFERENCE;
            bad[i] = x;
            assert_ne!(crc8(&bad), 0);
        }
    }
}

#[test]
fn scratchpad_decodes_raw_temperature() {
    assert_eq!(decode_scratchpad(&REFERENCE), Ok(0x0191));
    let mut bad = REFERENCE;
    bad[0] = 0x92;
    assert_eq!(decode_scratchpad(&bad), Err(()));
}

#[test]
fn temperature_read_session_returns_reference_value() {
    let mut session = TemperatureRead::new();
    let mut log = Vec::new();
    let mut reads = REFERENCE.iter();
    let result = loop {
        let action = session.action();
        log.push(action);
        match action {
            BusAction::Done(r) => break r,
            BusAction::Transfer(0xFF) => session.complete(*reads.next().unwrap()),
            BusAction::Transfer(b) => session.complete(b),
            BusAction::Reset | BusAction::Delay(_) => session.complete(0),
        }
    };
    assert_eq!(result, Ok(0x0191));
    assert_eq!(
        log[..7],
        [
            BusAction::Reset,
            BusAction::Transfer(0xCC),
            BusAction::Transfer(0x44),
            BusAction::Delay(1000),
            BusAction::Reset,
            BusAction::Transfer(0xCC),
            BusAction::Transfer(0xBE),
        ]
    );
    assert_eq!(log.len(), 17);
}

#[test]
fn temperature_read_session_reports_checksum_error() {
    let mut session = TemperatureRead::new();
    for _ in 0..16 {
        session.complete(0x12);
    }
    assert_eq!(session.action(), BusAction::Done(Err(())));
}

#[test]
fn slot_chars_encode_lsb_first() {
    assert_eq!(slot_chars(0xCC), [0x00, 0x00, 0xFF, 0xFF, 0x00, 0x00, 0xFF, 0xFF]);
    assert_eq!(slot_chars(0x01), [0xFF, 0, 0, 0, 0, 0, 0, 0]);
    assert_eq!(slot_chars(0xFF), [0xFF; 8]);
}

#[test]
fn loopback_returns_written_byte() {
    for x in 0u8..=255 {
        assert_eq!(bus_byte(&slot_chars(x)), x);
    }
}

#[test]
fn bus_byte_reads_pulled_slots_as_zero() {
    // a device pulled the line low during slots 1 and 3
    assert_eq!(bus_byte(&[0xFF, 0xFE, 0xFF, 0x80, 0xFF, 0xFF, 0xFF, 0xFF]), 0xF5);
    assert_eq!(bus_byte(&[0x00; 8]), 0x00);
}

#[test]
fn presence_pulse_detection() {
    assert!(device_present(0xE0));
    assert!(device_present(0x00));
    assert!(!device_present(0xF0));
    assert!(!device_present(0xE1));
}

#[test]
fn duty_scaling() {
    assert_eq!(value_to_duty(255, 1000), 1000);
    assert_eq!(value_to_duty(0, 1000), 0);
    assert_eq!(value_to_duty(128, 1000), 501);
}

#[test]
fn millivolts_from_reference() {
    assert_eq!(measured_millivolts(1500, 1500), 1212);
    assert_eq!(measured_millivolts(0, 1500), 0);
    assert_eq!(measured_millivolts(4095, 1000), 4963);
}

use lin_node::lin_slave::{lin_command_size, lin_slave_process, lin_slave_response, FrameResponses};
use lin_node::lin_slave_driver::LinSlave;
use lin_node::lin_slave_handler::{LinHandler, LocalFrameId};
use lin_node::signals::{Command, Rgb};

fn feed(slave: &mut LinSlave, handler: &mut LinHandler, bytes: &[u8]) -> Vec<Vec<u8>> {
    let mut out = Vec::new();
    for &b in bytes {
        if let Some(tx) = slave.on_byte(handler, b) {
            out.push(tx);
        }
    }
    out
}

#[test]
fn light_sensor_response_without_reading_is_zero() {
    let mut slave = LinSlave::new();
    let mut handler = LinHandler::new(0);
    let out = feed(&mut slave, &mut handler, &[0x00, 0x55, 0x42]);
    assert_eq!(out, vec![vec![0x00, 0x00, 0xBD]]);
}

#[test]
fn light_sensor_response_carries_latest_reading() {
    let mut slave = LinSlave::new();
    let mut handler = LinHandler::new(1);
    handler.update_photoresistor(0x1234);
    // board 1: local frame 2 is bus frame 7, PID 0x47
    let out = feed(&mut slave, &mut handler, &[0x00, 0x55, 0x47]);
    assert_eq!(out, vec![vec![0x34, 0x12, 0x72]]);
}

#[test]
fn color_command_with_correct_checksum_is_delivered() {
    let mut slave = LinSlave::new();
    let mut handler = LinHandler::new(0);
    let out = feed(&mut slave, &mut handler, &[0x00, 0x55, 0x80, 10, 20, 30, 0x43]);
    assert!(out.is_empty());
    assert_eq!(handler.color, Some(Rgb { r: 10, g: 20, b: 30 }));
    assert_eq!(handler.take_color(), Some(Rgb { r: 10, g: 20, b: 30 }));
    assert_eq!(handler.take_color(), None);
}

#[test]
fn color_command_with_wrong_checksum_is_dropped() {
    let mut slave = LinSlave::new();
    let mut handler = LinHandler::new(0);
    let out = feed(&mut slave, &mut handler, &[0x00, 0x55, 0x80, 10, 20, 30, 0x44]);
    assert!(out.is_empty());
    assert_eq!(handler.color, None);
    assert_eq!(handler.take_color(), None);
}

#[test]
fn engine_resynchronizes_after_a_dropped_command() {
    let mut slave = LinSlave::new();
    let mut handler = LinHandler::new(0);
    feed(&mut slave, &mut handler, &[0x00, 0x55, 0x80, 10, 20, 30, 0x44]);
    let out = feed(&mut slave, &mut handler, &[0x00, 0x55, 0x42]);
    assert_eq!(out, vec![vec![0x00, 0x00, 0xBD]]);
}

#[test]
fn leds_command_splits_bits() {
    let mut slave = LinSlave::new();
    let mut handler = LinHandler::new(0);
    feed(&mut slave, &mut handler, &[0x00, 0x55, 0xC1, 0x05, 0x39]);
    assert_eq!(handler.take_leds(), Some([1, 0, 4, 0]));
    assert_eq!(handler.take_leds(), None);
}

#[test]
fn noise_before_break_is_skipped() {
    let mut slave = LinSlave::new();
    let mut handler = LinHandler::new(0);
    let out = feed(&mut slave, &mut handler, &[0x12, 0x55, 0x42, 0x00, 0x13, 0x00, 0x55, 0x42]);
    assert_eq!(out, vec![vec![0x00, 0x00, 0xBD]]);
}

#[test]
fn invalid_pid_is_dropped() {
    let mut slave = LinSlave::new();
    let mut handler = LinHandler::new(0);
    let out = feed(&mut slave, &mut handler, &[0x00, 0x55, 0x02, 0x00, 0x55, 0x42]);
    assert_eq!(out, vec![vec![0x00, 0x00, 0xBD]]);
}

#[test]
fn unknown_frame_reads_no_payload() {
    let mut slave = LinSlave::new();
    let mut handler = LinHandler::new(0);
    // frame 8 is unknown to board 0: the next bytes are scanned for a break
    let out = feed(&mut slave, &mut handler, &[0x00, 0x55, 0x08, 0x00, 0x55, 0x42]);
    assert_eq!(out, vec![vec![0x00, 0x00, 0xBD]]);
}

#[test]
fn temperature_response_follows_readings() {
    let mut slave = LinSlave::new();
    let mut handler = LinHandler::new(0);
    let pid = 0x03;
    let out = feed(&mut slave, &mut handler, &[0x00, 0x55, pid]);
    assert_eq!(out[0][..2], [0x00, 0x00]);
    handler.update_temperature(Some(0x0191));
    let out = feed(&mut slave, &mut handler, &[0x00, 0x55, pid]);
    assert_eq!(out[0][..2], [0x91, 0x01]);
    handler.update_temperature(None);
    let out = feed(&mut slave, &mut handler, &[0x00, 0x55, pid]);
    assert_eq!(out[0][..2], [0xFF, 0xFF]);
}

#[test]
fn local_frame_ids_shift_by_board() {
    assert_eq!(LocalFrameId::from_frame_id(0, 0), Some(LocalFrameId::Rgb));
    assert_eq!(LocalFrameId::from_frame_id(0, 3), Some(LocalFrameId::Temp));
    assert_eq!(LocalFrameId::from_frame_id(0, 4), None);
    assert_eq!(LocalFrameId::from_frame_id(2, 9), None);
    assert_eq!(LocalFrameId::from_frame_id(2, 10), Some(LocalFrameId::Rgb));
    assert_eq!(LocalFrameId::from_frame_id(2, 11), Some(LocalFrameId::Leds));
    assert_eq!(LocalFrameId::from_frame_id(2, 12), Some(LocalFrameId::Photores));
    assert_eq!(LocalFrameId::from_frame_id(2, 13), Some(LocalFrameId::Temp));
    assert_eq!(LocalFrameId::from_frame_id(200, 63), None);
}

#[test]
fn single_board_frames() {
    assert_eq!(lin_command_size(0), Some(3));
    assert_eq!(lin_command_size(1), Some(1));
    assert_eq!(lin_command_size(2), None);
    assert_eq!(
        lin_slave_process(0, &[1, 2, 3]),
        Some(Command::Color(Rgb { r: 1, g: 2, b: 3 }))
    );
    assert_eq!(lin_slave_process(1, &[0x0F]), Some(Command::Leds(0x0F)));
    assert_eq!(lin_slave_process(5, &[]), None);

    let mut state = FrameResponses::new();
    assert_eq!(lin_slave_response(2, &mut state, None), Some(vec![0, 0]));
    assert_eq!(lin_slave_response(2, &mut state, Some(0xABCD)), Some(vec![0xCD, 0xAB]));
    assert_eq!(lin_slave_response(2, &mut state, None), Some(vec![0xCD, 0xAB]));
    assert_eq!(lin_slave_response(0, &mut state, Some(1)), None);
    assert_eq!(state.photores, [0xCD, 0xAB]);
}

#[test]
fn single_board_engine_round() {
    let mut slave = LinSlave::new();
    let mut state = FrameResponses::new();
    for b in [0x00, 0x55, 0x80, 10, 20, 30, 0x43] {
        assert!(slave.on_byte(&mut state, b).is_none());
    }
    assert_eq!(state.take_command(), Some(Command::Color(Rgb { r: 10, g: 20, b: 30 })));
    assert_eq!(state.take_command(), None);
}

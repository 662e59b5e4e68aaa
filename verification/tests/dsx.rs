use lmu_dualsense_bridge::effects::{TriggerEffect, TriggerOutputFrame};
use lmu_dualsense_bridge::output::dsx::{port_from_file_text, resolve_port, scale};
use lmu_dualsense_bridge::output::{DsxPacketEncoder, NullOutput, TriggerOutput};

#[test]
fn encodes_golden_trigger_packets() {
    let encoder = DsxPacketEncoder::new(0);
    let [left, right] = encoder
        .encode_frame(&TriggerOutputFrame {
            left: TriggerEffect::Resistance {
                start: 10,
                force: 10,
            },
            right: TriggerEffect::Vibrate {
                start: 2,
                force: 7,
                frequency: 10,
            },
        })
        .unwrap();

    assert_eq!(
        left,
        r#"{"instructions":[{"type":1,"parameters":[0,1,13,9,8]}]}"#
    );
    assert_eq!(
        right,
        r#"{"instructions":[{"type":1,"parameters":[0,2,8,179]}]}"#
    );
}

#[test]
fn encodes_normal_and_pulse() {
    let encoder = DsxPacketEncoder::new(1);
    let [left, right] = encoder
        .encode_frame(&TriggerOutputFrame {
            left: TriggerEffect::Normal,
            right: TriggerEffect::Pulse {
                start: 2,
                force: 6,
                frequency: 7,
            },
        })
        .unwrap();

    assert_eq!(
        left,
        r#"{"instructions":[{"type":1,"parameters":[1,1,0]}]}"#
    );
    assert_eq!(
        right,
        r#"{"instructions":[{"type":1,"parameters":[1,2,11]}]}"#
    );
}

#[test]
fn encodes_multi_digit_parameters() {
    let encoder = DsxPacketEncoder::new(255);
    let [left, right] = encoder
        .encode_frame(&TriggerOutputFrame {
            left: TriggerEffect::Resistance { start: 3, force: 5 },
            right: TriggerEffect::Vibrate {
                start: 0,
                force: 10,
                frequency: 0,
            },
        })
        .unwrap();
    assert_eq!(
        left,
        r#"{"instructions":[{"type":1,"parameters":[255,1,13,3,4]}]}"#
    );
    assert_eq!(
        right,
        r#"{"instructions":[{"type":1,"parameters":[255,2,8,255]}]}"#
    );
}

#[test]
fn scale_rounds_half_up_and_caps_at_ten() {
    assert_eq!(scale(0, 255), 0);
    assert_eq!(scale(7, 255), 179);
    assert_eq!(scale(5, 8), 4);
    assert_eq!(scale(10, 8), 8);
    assert_eq!(scale(200, 255), 255);
    assert_eq!(scale(1, 255), 26);
}

#[test]
fn port_precedence() {
    assert_eq!(resolve_port(Some(7777), Some("5555")), 7777);
    assert_eq!(resolve_port(None, Some(" 5555\r\n")), 5555);
    assert_eq!(resolve_port(None, Some("not a port")), 6969);
    assert_eq!(resolve_port(None, None), 6969);
}

#[test]
fn port_file_text() {
    assert_eq!(port_from_file_text("6970"), Some(6970));
    assert_eq!(port_from_file_text("\t+6970 "), Some(6970));
    assert_eq!(port_from_file_text("65535"), Some(65535));
    assert_eq!(port_from_file_text("65536"), None);
    assert_eq!(port_from_file_text("-1"), None);
    assert_eq!(port_from_file_text(""), None);
    assert_eq!(port_from_file_text("69 69"), None);
}

#[test]
fn null_output_accepts_frames() {
    let mut output = NullOutput;
    assert!(output
        .send(&TriggerOutputFrame {
            left: TriggerEffect::Normal,
            right: TriggerEffect::Normal,
        })
        .is_ok());
}

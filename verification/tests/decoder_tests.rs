use steelmouse::decode::{
    diagnostic_commands, fallback_kinds, full_request, probe_request, short_request, BatteryKind, ReadStep,
};
use steelmouse::hid::MouseManager;

#[test]
fn test_decode_aerox_prime_windows_format() {
    let res_100 = [0x00, 0x15, 21];
    let decoded = MouseManager::decode_aerox_prime_response(&res_100).expect("Should decode");
    assert_eq!(decoded.0, Some(100));
    assert_eq!(decoded.1, false);

    let res_85 = [0x00, 0x15, 18];
    let decoded = MouseManager::decode_aerox_prime_response(&res_85).expect("Should decode");
    assert_eq!(decoded.0, Some(85));
    assert_eq!(decoded.1, false);

    let res_50_charging = [0x00, 0x15, 11 | 0x80];
    let decoded = MouseManager::decode_aerox_prime_response(&res_50_charging).expect("Should decode");
    assert_eq!(decoded.0, Some(50));
    assert_eq!(decoded.1, true);

    let res_off = [0x00, 0x15, 0];
    let decoded = MouseManager::decode_aerox_prime_response(&res_off);
    assert!(decoded.is_none());

    // Windows direct command echo format: [0xD2 (210), battery_byte (18), 0, ...] -> 85%
    let res_windows_direct = [210u8, 18, 0, 49, 46, 52, 0, 0];
    let decoded = MouseManager::decode_aerox_prime_response(&res_windows_direct)
        .expect("Should decode direct echo format");
    assert_eq!(decoded.0, Some(85));
    assert_eq!(decoded.1, false);
}

#[test]
fn test_decode_aerox_prime_macos_format() {
    let res_85 = [0x15, 18];
    let decoded = MouseManager::decode_aerox_prime_response(&res_85).expect("Should decode");
    assert_eq!(decoded.0, Some(85));
    assert_eq!(decoded.1, false);

    let res_50_charging = [0x15, 11 | 0x80];
    let decoded = MouseManager::decode_aerox_prime_response(&res_50_charging).expect("Should decode");
    assert_eq!(decoded.0, Some(50));
    assert_eq!(decoded.1, true);
}

#[test]
fn test_decode_rival3_650_windows_format() {
    let res_75 = [0x00, 75, 0, 0];
    let decoded = MouseManager::decode_rival3_650_response(&res_75).expect("Should decode");
    assert_eq!(decoded.0, Some(75));
    assert_eq!(decoded.1, false);

    let res_90_charging = [0x00, 90, 0, 1];
    let decoded = MouseManager::decode_rival3_650_response(&res_90_charging).expect("Should decode");
    assert_eq!(decoded.0, Some(90));
    assert_eq!(decoded.1, true);
}

#[test]
fn test_decode_rival3_650_macos_format() {
    let res_75 = [75, 0, 0];
    let decoded = MouseManager::decode_rival3_650_response(&res_75).expect("Should decode");
    assert_eq!(decoded.0, Some(75));
    assert_eq!(decoded.1, false);

    let res_90_charging = [90, 0, 1];
    let decoded = MouseManager::decode_rival3_650_response(&res_90_charging).expect("Should decode");
    assert_eq!(decoded.0, Some(90));
    assert_eq!(decoded.1, true);
}

#[test]
fn aerox_decoder_edge_cases() {
    // too short
    assert!(MouseManager::decode_aerox_prime_response(&[]).is_none());
    assert!(MouseManager::decode_aerox_prime_response(&[0xD2]).is_none());
    // report id, echo, zero, battery
    assert_eq!(MouseManager::decode_aerox_prime_response(&[0x00, 0xD2, 0x00, 18]), Some((Some(85), false)));
    // [0x00, cmd, battery] form
    assert_eq!(MouseManager::decode_aerox_prime_response(&[0x00, 0xD2, 6]), Some((Some(25), false)));
    // charging flag without level
    assert_eq!(MouseManager::decode_aerox_prime_response(&[0xD2, 0x80]), Some((None, true)));
    // raw value 1 means 0%
    assert_eq!(MouseManager::decode_aerox_prime_response(&[0xD2, 1]), Some((Some(0), false)));
    // large raw values are capped at 100%
    assert_eq!(MouseManager::decode_aerox_prime_response(&[0xD2, 0x7F]), Some((Some(100), false)));
    assert_eq!(MouseManager::decode_aerox_prime_response(&[0xD2, 0xFF]), Some((Some(100), true)));
}

#[test]
fn rival_decoder_edge_cases() {
    assert!(MouseManager::decode_rival3_650_response(&[]).is_none());
    assert_eq!(MouseManager::decode_rival3_650_response(&[42]), Some((Some(42), false)));
    assert_eq!(MouseManager::decode_rival3_650_response(&[200, 0, 0]), Some((Some(100), false)));
    // a leading zero with fewer than four bytes is read as the level itself
    assert_eq!(MouseManager::decode_rival3_650_response(&[0x00, 50, 1]), Some((Some(0), true)));
}

#[test]
fn first_byte_decoders() {
    assert_eq!(MouseManager::decode_aerox_prime_battery(&[0x00, 18]), Some((Some(85), false)));
    assert_eq!(MouseManager::decode_aerox_prime_battery(&[11 | 0x80]), Some((Some(50), true)));
    assert_eq!(MouseManager::decode_aerox_prime_battery(&[0x80]), Some((None, true)));
    assert_eq!(MouseManager::decode_aerox_prime_battery(&[0x00, 0x00]), None);
    assert_eq!(MouseManager::decode_aerox_prime_battery(&[]), None);
    assert_eq!(MouseManager::decode_rival3_650_battery(&[0x00, 60, 1]), Some((Some(60), true)));
    assert_eq!(MouseManager::decode_rival3_650_battery(&[60, 9, 0]), Some((Some(60), false)));
    assert_eq!(MouseManager::decode_rival3_650_battery(&[0x00, 60]), Some((Some(0), false)));
    assert_eq!(MouseManager::decode_rival3_650_battery(&[]), None);
}

#[test]
fn battery_response_recognition() {
    assert!(MouseManager::is_battery_response(0xD2, &[0xD2, 18]));
    assert!(MouseManager::is_battery_response(0xD2, &[0x00, 0xD2, 18]));
    assert!(!MouseManager::is_battery_response(0xD2, &[0x00, 0xD2]));
    assert!(!MouseManager::is_battery_response(0xD2, &[0x01, 0xD2, 18]));
}

#[test]
fn read_steps() {
    let aerox = BatteryKind::AeroxPrime { command: 0xD2 };
    // a battery answer ends the query
    assert!(matches!(MouseManager::read_step(aerox, 0, &[0xD2, 18]), ReadStep::Done(Some((Some(85), false)))));
    // another report is skipped
    assert!(matches!(MouseManager::read_step(aerox, 0, &[0x05, 18, 3]), ReadStep::ReadAgain));
    // an answer echoing the command with a zero battery byte is skipped too
    assert!(matches!(MouseManager::read_step(aerox, 3, &[0xD2, 0]), ReadStep::ReadAgain));
    // after the eighth read the query gives up
    assert!(matches!(MouseManager::read_step(aerox, 7, &[0x05, 18]), ReadStep::Done(None)));
    // short reads and timeouts end it
    assert!(matches!(MouseManager::read_step(aerox, 0, &[0xD2]), ReadStep::Done(None)));
    assert!(matches!(MouseManager::read_step(aerox, 0, &[]), ReadStep::Done(None)));
    let rival = BatteryKind::Rival3Or650;
    assert!(matches!(MouseManager::read_step(rival, 0, &[0x00, 70, 0, 1]), ReadStep::Done(Some((Some(70), true)))));
    assert!(matches!(MouseManager::read_step(rival, 0, &[70]), ReadStep::Done(None)));
}

#[test]
fn request_packets() {
    let aerox = BatteryKind::AeroxPrime { command: 0xD2 };
    assert_eq!(short_request(aerox), vec![0x00, 0xD2]);
    assert_eq!(short_request(BatteryKind::Rival3Or650), vec![0x00, 0xAA, 0x01]);
    let full = full_request(aerox);
    assert_eq!(full.len(), 64);
    assert_eq!(&full[..2], &[0x00, 0xD2]);
    assert!(full[2..].iter().all(|&b| b == 0));
    let full = full_request(BatteryKind::Rival3Or650);
    assert_eq!(&full[..3], &[0x00, 0xAA, 0x01]);
    assert_eq!(full.len(), 64);
    let probe = probe_request(0xAA);
    assert_eq!(&probe[..3], &[0x00, 0xAA, 0x01]);
    let probe = probe_request(0xB2);
    assert_eq!(&probe[..3], &[0x00, 0xB2, 0x00]);
    assert_eq!(probe.len(), 64);
    assert_eq!(diagnostic_commands(), vec![0xD2, 0x92, 0xAA, 0xB2]);
    assert_eq!(
        fallback_kinds(),
        vec![
            BatteryKind::AeroxPrime { command: 0xD2 },
            BatteryKind::AeroxPrime { command: 0x92 },
            BatteryKind::Rival3Or650
        ]
    );
}

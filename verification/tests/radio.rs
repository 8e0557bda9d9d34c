use golfer::loram::{
    decode_sequence, page_switch_due, parse_gga, BeaconOutcome, BeaconReceiver, GpsState,
    PositionReceiver,
};
use golfer::radio::{
    radio_profile, BringUp, PacketStatus, RadioAction, RadioCommand, RadioManager, RadioReply,
    TxEvent, TxRequest, DEFAULT_TX_POWER_DBM,
};

const STATUS: PacketStatus = PacketStatus { rssi: -80, snr: 5 };

#[test]
fn requests_to_send() {
    let request = TxRequest::new_default(7, b"hello", true).unwrap();
    assert_eq!(request.token, 7);
    assert_eq!(request.len, 5);
    assert_eq!(&request.data[..5], b"hello");
    assert_eq!(&request.data[5..], &[0; 250]);
    assert_eq!(request.power_dbm, DEFAULT_TX_POWER_DBM);
    assert!(request.resume_receive);
    assert_eq!(TxRequest::new(1, &[9; 255], 2, false).unwrap().len, 255);
    assert!(TxRequest::new(1, &[9; 256], 2, false).is_none());
}

#[test]
fn the_radio_comes_up_step_by_step() {
    let mut step = BringUp::InitChip;
    for expected in [
        BringUp::CreateModulation,
        BringUp::CreateRxParams,
        BringUp::CreateTxParams,
        BringUp::PrepareReceive,
        BringUp::Ready,
        BringUp::Ready,
    ] {
        step = step.next(true);
        assert_eq!(step, expected);
    }
    assert_eq!(BringUp::CreateRxParams.next(false), BringUp::Failed(2));
    assert_eq!(BringUp::Failed(2).next(true), BringUp::Failed(2));
    assert_eq!(radio_profile().frequency_hz, 915_000_000);
}

#[test]
fn the_owner_serves_commands_between_windows() {
    let mut manager = RadioManager::new();
    manager.step(RadioReply::NoCommand);
    assert!(matches!(manager.doing, RadioAction::PrepareReceive));
    manager.step(RadioReply::Done);
    assert!(matches!(manager.doing, RadioAction::ReceiveWindow));
    manager.step(RadioReply::Timeout);
    assert!(matches!(manager.doing, RadioAction::PollCommand));
    let request = TxRequest::new_default(7, b"hello", false).unwrap();
    manager.step(RadioReply::Command(RadioCommand::Transmit(request)));
    assert!(matches!(manager.doing, RadioAction::Transmit(_)));
    manager.step(RadioReply::Sent(1_234));
    match manager.doing {
        RadioAction::Report(event) => assert_eq!(
            event,
            TxEvent { token: 7, len: 5, success: true, tx_duration_us: 1_234 }
        ),
        _ => panic!("no report"),
    }
    assert!(!manager.rx_enabled);
    manager.step(RadioReply::Done);
    manager.step(RadioReply::NoCommand);
    assert!(matches!(manager.doing, RadioAction::AwaitCommand));
    manager.step(RadioReply::Command(RadioCommand::SetReceiveEnabled(true)));
    assert!(manager.rx_enabled);
    assert!(matches!(manager.doing, RadioAction::PollCommand));
}

#[test]
fn the_owner_rests_behind_faults() {
    let mut manager = RadioManager::new();
    manager.step(RadioReply::NoCommand);
    manager.step(RadioReply::Failed);
    assert!(matches!(manager.doing, RadioAction::Rest(10)));
    manager.step(RadioReply::Done);
    manager.step(RadioReply::NoCommand);
    manager.step(RadioReply::Done);
    manager.step(RadioReply::Failed);
    assert!(matches!(manager.doing, RadioAction::Rest(5)));
    manager.step(RadioReply::Done);
    manager.step(RadioReply::NoCommand);
    manager.step(RadioReply::Done);
    manager.step(RadioReply::Packet);
    assert!(matches!(manager.doing, RadioAction::Deliver));
    let request = TxRequest::new_default(8, b"x", true).unwrap();
    manager.step(RadioReply::Done);
    manager.step(RadioReply::Command(RadioCommand::Transmit(request)));
    manager.step(RadioReply::Failed);
    match manager.doing {
        RadioAction::Report(event) => assert_eq!(
            event,
            TxEvent { token: 8, len: 1, success: false, tx_duration_us: 0 }
        ),
        _ => panic!("no report"),
    }
}

fn beacon(sequence: u32) -> Vec<u8> {
    let mut bytes = b"MRU1\x00\x00".to_vec();
    bytes.extend_from_slice(&sequence.to_le_bytes());
    bytes
}

#[test]
fn beacons() {
    assert_eq!(decode_sequence(&beacon(0x0102_0304)), Some(0x0102_0304));
    assert_eq!(decode_sequence(&beacon(7)[..9]), None);
    assert_eq!(decode_sequence(b"MRU2\x00\x00\x01\x00\x00\x00"), None);
    let mut receiver = BeaconReceiver::new();
    let accepted = |sequence, missed| BeaconOutcome::Accepted { sequence, missed };
    assert_eq!(receiver.on_frame(&beacon(100), STATUS, 0), accepted(100, 0));
    assert_eq!(receiver.on_frame(&beacon(100), STATUS, 0), BeaconOutcome::Duplicate);
    let before = receiver;
    assert_eq!(receiver.on_frame(&beacon(107), STATUS, 1_000_000), BeaconOutcome::Implausible);
    assert_eq!(receiver, before);
    assert_eq!(receiver.on_frame(&beacon(106), STATUS, 1_000_000), accepted(106, 5));
    assert_eq!(receiver.on_frame(&beacon(50), STATUS, 1_000_000), BeaconOutcome::Backward);
    assert_eq!(receiver.on_frame(&beacon(3), STATUS, 1_000_000), accepted(3, 0));
    assert_eq!(receiver.on_frame(b"?", STATUS, 1_000_000), BeaconOutcome::Unknown);
    assert_eq!(receiver.received, 3);
    assert_eq!(receiver.missed, 5);
    assert_eq!(receiver.on_quiet(5_999_999), None);
    assert_eq!(receiver.on_quiet(6_000_000), Some(5));
    assert_eq!(receiver.on_quiet(7_000_000), None);
    assert!(!page_switch_due(0, 9_999_999));
    assert!(page_switch_due(0, 10_000_000));
}

#[test]
fn positions() {
    let fix = "$GPGGA,123519,3451.5469,N,08220.1234,W,1,08,0.9,545.4,M,46.9,M,,*47";
    let state = GpsState {
        online: true,
        fix: true,
        latitude_e7: Some(348_591_150),
        longitude_e7: Some(-823_353_900),
        satellites: Some(8),
    };
    assert_eq!(parse_gga(fix), Some(state));
    let none = GpsState { online: true, satellites: Some(3), ..GpsState::offline() };
    assert_eq!(parse_gga("$GNGGA,,,,,,0,03"), Some(none));
    assert_eq!(parse_gga("$GNGGA,,,,,,0"), None);
    assert_eq!(parse_gga("$GPRMC,1,2,3,4,5,6,7"), None);
    assert_eq!(parse_gga("$GPGGA,123519,9999,N,08220.1234,W,1,08"), None);
    let mut receiver = PositionReceiver::new();
    for &byte in fix.as_bytes() {
        assert_eq!(receiver.accept(byte), None);
    }
    assert_eq!(receiver.accept(b'\r'), None);
    assert_eq!(receiver.accept(b'\n'), Some(state));
    assert_eq!(receiver.accept(b'\n'), None);
}

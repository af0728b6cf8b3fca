//! Tests for command encoding, rate conversion and the liveness-probe
//! decisions.

use std::time::Duration;

use iracing::broadcast::{
    pack_message_params, pad_car_number, BroadcastMessage, Broadcast, CameraState,
    ChatCommandMode, PitCommandMode, ReplayPositionMode, ReplaySearchMode, TelemetryCommandMode,
    VideoCaptureMode,
};
use iracing::fps::Fps;
use iracing::simulation::{status_indicates_running, Simulation};

#[test]
fn validate_duration() {
    assert_eq!(Fps::min().to_duration(), Duration::from_millis(1000));
    assert_eq!(Fps::max().to_duration(), Duration::from_millis(16));
    assert_eq!(Fps::new(30).to_duration(), Duration::from_millis(33));
}

#[test]
fn pit_commands_encode_to_expected_words() {
    assert_eq!(PitCommandMode::Clear.encode(), (0, 0));
    assert_eq!(PitCommandMode::Tearoff.encode(), (1, 0));
    assert_eq!(PitCommandMode::Fuel(53).encode(), (2, 53));
    assert_eq!(PitCommandMode::LF(25).encode(), (3, 25));
    assert_eq!(PitCommandMode::RF(26).encode(), (4, 26));
    assert_eq!(PitCommandMode::LR(27).encode(), (5, 27));
    assert_eq!(PitCommandMode::RR(28).encode(), (6, 28));
    assert_eq!(PitCommandMode::ClearTires.encode(), (7, 0));
    assert_eq!(PitCommandMode::FastRepair.encode(), (8, 0));
    assert_eq!(PitCommandMode::ClearTearoff.encode(), (9, 0));
    assert_eq!(PitCommandMode::ClearFastRepair.encode(), (10, 0));
    assert_eq!(PitCommandMode::ClearFuel.encode(), (11, 0));
}

#[test]
fn mode_words() {
    assert_eq!(u16::from(ReplayPositionMode::Begin), 0);
    assert_eq!(u16::from(ReplayPositionMode::End), 2);
    assert_eq!(u16::from(ReplaySearchMode::NextIncident), 9);
    assert_eq!(u16::from(TelemetryCommandMode::Restart), 2);
    assert_eq!(u16::from(ChatCommandMode::Cancel), 3);
    assert_eq!(u16::from(VideoCaptureMode::HideTimer), 5);
}

#[test]
fn messages_encode_to_expected_words() {
    assert_eq!(
        BroadcastMessage::CameraSwitchPosition(1, 2, 3).to_message(),
        (0, 1, 2, 3)
    );
    assert_eq!(
        BroadcastMessage::CameraSwitchNumber("017".to_string(), 4, 5).to_message(),
        (1, 3017, 4, 5)
    );
    assert_eq!(
        BroadcastMessage::CameraSetState(CameraState::from_bits(0x18)).to_message(),
        (2, 0x18, 0, 0)
    );
    assert_eq!(
        BroadcastMessage::ReplaySetPlaySpeed(2, true).to_message(),
        (3, 2, 1, 0)
    );
    assert_eq!(
        BroadcastMessage::ReplaySetPlayPosition(ReplayPositionMode::Current, 99).to_message(),
        (4, 1, 99, 0)
    );
    assert_eq!(
        BroadcastMessage::ReplaySearch(ReplaySearchMode::PreviousLap).to_message(),
        (5, 4, 0, 0)
    );
    assert_eq!(BroadcastMessage::ReplaySetState.to_message(), (6, 0, 0, 0));
    assert_eq!(BroadcastMessage::ReloadAllTextures.to_message(), (7, 0, 0, 0));
    assert_eq!(BroadcastMessage::ReloadTextures(12).to_message(), (7, 12, 0, 0));
    assert_eq!(
        BroadcastMessage::ChatCommand(ChatCommandMode::Reply).to_message(),
        (8, 2, 0, 0)
    );
    assert_eq!(
        BroadcastMessage::ChatCommandMacro(5).to_message(),
        (8, 0, 5, 0)
    );
    assert_eq!(
        BroadcastMessage::PitCommand(PitCommandMode::Fuel(10)).to_message(),
        (9, 2, 10, 0)
    );
    assert_eq!(
        BroadcastMessage::TelemetryCommand(TelemetryCommandMode::Start).to_message(),
        (10, 1, 0, 0)
    );
    assert_eq!(BroadcastMessage::FFBCommand(3).to_message(), (11, 0, 0, 0));
    assert_eq!(
        BroadcastMessage::ReplaySearchSessionTime(2, 4500).to_message(),
        (12, 2, 4500, 0)
    );
    assert_eq!(
        BroadcastMessage::VideoCapture(VideoCaptureMode::ScreenShot).to_message(),
        (13, 0, 0, 0)
    );
}

#[test]
fn car_numbers_pad_leading_zeros_into_thousands() {
    assert_eq!(pad_car_number("3"), 3);
    assert_eq!(pad_car_number("100"), 100);
    assert_eq!(pad_car_number("0"), 0);
    assert_eq!(pad_car_number("007"), 3007);
    assert_eq!(pad_car_number("017"), 3017);
    assert_eq!(pad_car_number("020"), 3020);
    assert_eq!(pad_car_number("0123"), 4123);
}

#[test]
fn message_words_pack_into_two_params() {
    let packed = pack_message_params((9, 2, 10, 0));
    assert_eq!(packed.0, 9 | (2 << 16));
    assert_eq!(packed.1, 10);
    let packed = pack_message_params((13, 0xFFFF, 0x1234, 0xABCD));
    assert_eq!(packed.0, 13 | (0xFFFF << 16));
    assert_eq!(packed.1, 0x1234 | (0xABCD << 16));
}

#[test]
fn broadcast_handle_keeps_message_id() {
    let broadcast = Broadcast::with_message_id(7);
    assert_eq!(broadcast.message_id(), 7);
}

#[test]
fn host_uri_appends_port() {
    let sim = Simulation { host: "127.0.0.1".to_string() };
    assert_eq!(sim.host_uri(), "127.0.0.1:32034");
    assert_eq!(Simulation::PORT, 32034);
}

#[test]
fn status_request_is_plain_http() {
    let sim = Simulation { host: "127.0.0.1".to_string() };
    assert_eq!(
        sim.status_request(),
        "GET /get_sim_status?object=simStatus HTTP/1.1\r\nHost: 127.0.0.1\r\nConnection: close\r\n\r\n"
    );
}

#[test]
fn running_marker_detection() {
    let body = b"HTTP/1.1 200 OK\r\n\r\n{ running:1 }".to_vec();
    assert!(status_indicates_running(&body));
    let body = b"HTTP/1.1 200 OK\r\n\r\n{ running:0 }".to_vec();
    assert!(!status_indicates_running(&body));
    assert!(!status_indicates_running(&Vec::new()));
    assert!(status_indicates_running(&b"running:1".to_vec()));
    assert!(!status_indicates_running(&b"running:".to_vec()));
}

#[test]
fn fps_band() {
    assert_eq!(Fps::min().frames(), 1);
    assert_eq!(Fps::max().frames(), 60);
    assert_eq!(Fps::new(30).frames(), 30);
    assert_eq!(Fps::new(60).to_millis(), 16);
}

use sniffer::capture::{CaptureError, CaptureEvent, CaptureLoop, CaptureState, CaptureStep};
use sniffer::frame::FrameOutcome;
use sniffer::network::NetworkOutcome;
use sniffer::transport::TransportOutcome;

fn valid_udp_frame() -> Vec<u8> {
    let mut frame = vec![0u8; 12];
    frame.push(0x08);
    frame.push(0x00);
    let mut packet = vec![0u8; 20];
    packet[0] = 0x45;
    packet[9] = 17;
    let mut segment = vec![0u8; 8];
    segment[0] = 0x12;
    segment[1] = 0x34;
    segment[2] = 0x43;
    segment[3] = 0x21;
    packet.append(&mut segment);
    frame.append(&mut packet);
    frame
}

#[test]
fn unresolved_interface_is_fatal_before_capture() {
    let mut capture = CaptureLoop::new(false);
    assert!(matches!(capture.state, CaptureState::Idle));
    let r = capture.start(false, false);
    assert!(matches!(r, Err(CaptureError::NoSuchInterface)));
    assert!(matches!(capture.state, CaptureState::Idle));
}

#[test]
fn failed_channel_open_is_fatal_before_capture() {
    let mut capture = CaptureLoop::new(false);
    let r = capture.start(true, false);
    assert!(matches!(r, Err(CaptureError::ChannelOpenFailed)));
    assert!(matches!(capture.state, CaptureState::Idle));
}

#[test]
fn resolved_interface_starts_running() {
    let mut capture = CaptureLoop::new(true);
    let r = capture.start(true, true);
    assert!(matches!(r, Ok(())));
    assert!(matches!(capture.state, CaptureState::Running));
}

#[test]
fn read_error_is_logged_and_next_frame_still_decodes() {
    let mut capture = CaptureLoop::new(false);
    capture.start(true, true).unwrap();

    let first = capture.step(CaptureEvent::ReadError);
    assert!(matches!(first, CaptureStep::ReadFault));
    assert!(matches!(capture.state, CaptureState::Running));
    assert_eq!(capture.errors_logged, 1);
    assert_eq!(capture.frames_decoded, 0);

    let second = capture.step(CaptureEvent::FrameRead(valid_udp_frame()));
    match second {
        CaptureStep::Trace(FrameOutcome::Decoded { network, .. }) => match network {
            NetworkOutcome::Ip { transport, .. } => {
                assert!(matches!(
                    transport,
                    TransportOutcome::Udp { source_port: 0x1234, dest_port: 0x4321, .. }
                ));
            }
            _ => panic!("expected an IP outcome"),
        },
        _ => panic!("expected a decoded trace"),
    }
    assert_eq!(capture.errors_logged, 1);
    assert_eq!(capture.frames_decoded, 1);
    assert!(matches!(capture.state, CaptureState::Running));
}

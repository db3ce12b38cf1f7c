use std::time::Duration;

use screencast::wait::android::{webcam_for_device, Emulator, LaunchError};
use screencast::wait::{get_waiter, Command, Wait, WaitDelay, WaitInput};

#[test]
fn webcam_name_of_the_device() {
    let listing = "Camera 'webcam0' connected to /dev/video0\nCamera 'webcam1' connected to /dev/video4\n";
    assert_eq!(webcam_for_device(true, listing, "/dev/video4"), Ok("webcam1".to_string()));
    assert_eq!(webcam_for_device(true, listing, "/dev/video0"), Ok("webcam0".to_string()));
}

#[test]
fn webcam_missing() {
    let listing = "Camera 'webcam0' connected to /dev/video0\nCamera 'webcam1' connected to /dev/video4\n";
    assert_eq!(webcam_for_device(true, listing, "/dev/video9"), Err(LaunchError::NoWebcam));
    assert_eq!(webcam_for_device(true, "no camera on /dev/video9", "/dev/video9"), Err(LaunchError::NoWebcam));
    assert_eq!(webcam_for_device(false, listing, "/dev/video4"), Err(LaunchError::ListFailed));
}

#[test]
fn zero_delay_returns_at_once() {
    let d = WaitDelay::from_secs(0);
    assert_eq!((d.secs, d.nanos), (0, 0));
    assert_eq!(Duration::new(d.secs, d.nanos), Duration::ZERO);
}

#[test]
fn delay_from_parts() {
    let d = WaitDelay::new(3, 500);
    assert_eq!((d.secs, d.nanos), (3, 500));
    assert_eq!(WaitDelay::from_secs(7), WaitDelay { secs: 7, nanos: 0 });
}

#[test]
fn emulator_defaults() {
    let e = Emulator::new(None, None);
    assert_eq!(e.emulator_path, "/home/olivier/Android/Sdk/emulator/emulator");
    assert_eq!(e.avd, "Pixel_4_API_29");
    let e = Emulator::new(Some("/opt/emu".to_string()), Some("Tablet".to_string()));
    assert_eq!(e.emulator_path, "/opt/emu");
    assert_eq!(e.avd, "Tablet");
    assert_eq!(e.list_args(), vec!["-webcam-list".to_string()]);
    assert_eq!(e.launch_args("webcam1"), vec!["-avd", "Tablet", "-camera-back", "webcam1"]);
}

#[test]
fn waiter_of_command() {
    assert_eq!(get_waiter(None), Wait::Input(WaitInput));
    assert_eq!(get_waiter(Some(Command::WaitInput)), Wait::Input(WaitInput));
    assert_eq!(get_waiter(Some(Command::WaitDelay { seconds: 5 })), Wait::Delay(WaitDelay::from_secs(5)));
    assert_eq!(
        get_waiter(Some(Command::Android { emulator_path: None, avd: Some("X".to_string()) })),
        Wait::Emulator(Emulator::new(None, Some("X".to_string())))
    );
}

use screencast::device::{
    check_device_capabilities, default_video_dev, is_loopback_output, DeviceError, VideoDevice,
    VIDEO_CAPTURE, VIDEO_OUTPUT,
};

fn dev(path: &str, driver: &str, capabilities: u32) -> VideoDevice {
    VideoDevice { path: path.to_string(), driver: driver.to_string(), capabilities }
}

#[test]
fn resolver_takes_first_loopback_output_in_order() {
    let devices = vec![
        dev("/dev/video0", "uvcvideo", VIDEO_CAPTURE),
        dev("/dev/video1", "v4l2 loopback", VIDEO_CAPTURE),
        dev("/dev/video2", "uvcvideo", VIDEO_OUTPUT),
        dev("/dev/video3", "v4l2 LoopBack", VIDEO_OUTPUT | VIDEO_CAPTURE),
        dev("/dev/video4", "v4l2 loopback", VIDEO_OUTPUT),
    ];
    assert_eq!(default_video_dev(&devices), Ok("/dev/video3".to_string()));
}

#[test]
fn resolver_reports_not_found() {
    assert_eq!(default_video_dev(&vec![]), Err(DeviceError::NotFound));
    let devices = vec![
        dev("/dev/video1", "v4l2 loopback", VIDEO_CAPTURE),
        dev("/dev/video2", "uvcvideo", VIDEO_OUTPUT),
    ];
    assert_eq!(default_video_dev(&devices), Err(DeviceError::NotFound));
}

#[test]
fn resolver_ignores_case_of_driver() {
    let devices = vec![dev("/dev/video7", "LOOPBACK", VIDEO_OUTPUT)];
    assert_eq!(default_video_dev(&devices), Ok("/dev/video7".to_string()));
}

#[test]
fn loopback_output_needs_both() {
    assert!(is_loopback_output("v4l2 loopback", VIDEO_OUTPUT));
    assert!(!is_loopback_output("v4l2 loopback", VIDEO_CAPTURE));
    assert!(!is_loopback_output("uvcvideo", VIDEO_OUTPUT));
    assert!(!is_loopback_output("v4l2 LOOPBACK", VIDEO_OUTPUT));
}

#[test]
fn validator_needs_capture_whatever_else() {
    assert_eq!(check_device_capabilities(VIDEO_CAPTURE), Ok(()));
    assert_eq!(check_device_capabilities(VIDEO_CAPTURE | VIDEO_OUTPUT | 0x0400_0000), Ok(()));
    assert_eq!(check_device_capabilities(VIDEO_OUTPUT), Err(DeviceError::IncapableDevice));
    assert_eq!(check_device_capabilities(0), Err(DeviceError::IncapableDevice));
}

use scrap::dxgi::{self, FrameIo, OutputDesc, ReleaseStep, SessionIo};
use scrap::hresult::{
    DXGI_ERROR_ACCESS_LOST, DXGI_ERROR_UNSUPPORTED, DXGI_ERROR_WAIT_TIMEOUT, ErrorKind, S_OK,
};

const WIDTH: i32 = 4;
const HEIGHT: i32 = 3;
const PITCH: usize = 20;

fn display() -> dxgi::Display {
    dxgi::Display {
        desc: OutputDesc {
            left: 0,
            top: 0,
            right: WIDTH,
            bottom: HEIGHT,
            rotation: 1,
            name: vec![68, 0],
        },
    }
}

fn frame_io(acquire: u32, create: u32, map: u32, pitch: usize, fill: u8) -> FrameIo {
    FrameIo {
        acquire_status: acquire,
        create_status: create,
        map_status: map,
        pitch,
        bytes: vec![fill; HEIGHT as usize * pitch],
    }
}

fn session_io(acquire: u32, in_system_memory: bool) -> SessionIo {
    SessionIo {
        create_device_status: S_OK,
        duplicate_status: S_OK,
        in_system_memory,
        first: frame_io(acquire, S_OK, S_OK, PITCH, 0),
    }
}

fn open(in_system_memory: bool) -> scrap::Capturer {
    // The priming acquisition reports "no frame yet"; construction must
    // still succeed.
    scrap::Capturer::new(
        scrap::Display(display()),
        session_io(DXGI_ERROR_WAIT_TIMEOUT, in_system_memory),
    )
    .unwrap()
}

#[test]
fn device_creation_failure_is_generic() {
    let io = SessionIo {
        create_device_status: 0x8000_4005,
        duplicate_status: S_OK,
        in_system_memory: true,
        first: frame_io(S_OK, S_OK, S_OK, PITCH, 0),
    };
    let r = scrap::Capturer::new(scrap::Display(display()), io);
    assert!(matches!(r, Err(ErrorKind::Other)));
}

#[test]
fn duplication_failure_translates() {
    let io = SessionIo {
        create_device_status: S_OK,
        duplicate_status: DXGI_ERROR_UNSUPPORTED,
        in_system_memory: true,
        first: frame_io(S_OK, S_OK, S_OK, PITCH, 0),
    };
    let r = scrap::Capturer::new(scrap::Display(display()), io);
    assert!(matches!(r, Err(ErrorKind::ConnectionRefused)));
}

#[test]
fn construction_survives_a_failed_priming_load() {
    let capturer = open(true);
    assert_eq!(capturer.width(), WIDTH as usize);
    assert_eq!(capturer.height(), HEIGHT as usize);
    assert!(capturer.inner.fastlane);
    assert!(!capturer.inner.mapped);
}

#[test]
fn polling_before_any_frame_would_block() {
    let mut capturer = open(true);
    let r = capturer.frame(frame_io(DXGI_ERROR_WAIT_TIMEOUT, S_OK, S_OK, PITCH, 0));
    assert!(matches!(r, Err(ErrorKind::WouldBlock)));
    let mut fallback = open(false);
    let r = fallback.frame(frame_io(DXGI_ERROR_WAIT_TIMEOUT, S_OK, S_OK, PITCH, 0));
    assert!(matches!(r, Err(ErrorKind::WouldBlock)));
}

#[test]
fn the_native_layer_reports_timed_out_before_the_remap() {
    let mut capturer = open(true);
    let r = capturer
        .inner
        .frame(0, frame_io(DXGI_ERROR_WAIT_TIMEOUT, S_OK, S_OK, PITCH, 0));
    assert!(matches!(r, Err(ErrorKind::TimedOut)));
}

#[test]
fn other_acquisition_failures_keep_their_kind() {
    let mut capturer = open(true);
    let r = capturer.frame(frame_io(DXGI_ERROR_ACCESS_LOST, S_OK, S_OK, PITCH, 0));
    assert!(matches!(r, Err(ErrorKind::ConnectionReset)));
}

#[test]
fn frame_length_is_height_times_pitch_and_stable() {
    let mut capturer = open(true);
    let mut max_len = 0usize;
    for fill in 0..16u8 {
        let frame = capturer
            .frame(frame_io(S_OK, S_OK, S_OK, PITCH, fill))
            .unwrap();
        let len = frame.bytes().len();
        assert_eq!(len, HEIGHT as usize * PITCH);
        assert!(PITCH >= WIDTH as usize * 4);
        if max_len == 0 {
            max_len = len;
        }
        assert!(len <= max_len);
        assert!(frame.bytes().iter().all(|&b| b == fill));
    }
}

#[test]
fn staging_path_copies_and_maps() {
    let mut capturer = open(false);
    let frame = capturer.frame(frame_io(S_OK, S_OK, S_OK, PITCH, 7)).unwrap();
    assert_eq!(frame.bytes().len(), HEIGHT as usize * PITCH);
    assert!(capturer.inner.surface);
    assert!(capturer.inner.mapped);
}

#[test]
fn staging_creation_failure_releases_the_chain() {
    let mut capturer = open(false);
    let r = capturer.frame(frame_io(S_OK, DXGI_ERROR_ACCESS_LOST, S_OK, PITCH, 0));
    assert!(matches!(r, Err(ErrorKind::ConnectionReset)));
    assert!(!capturer.inner.surface);
    let plan = capturer.inner.close();
    assert_eq!(
        plan,
        vec![
            ReleaseStep::ReleaseDuplication,
            ReleaseStep::ReleaseDevice,
            ReleaseStep::ReleaseContext,
        ]
    );
}

#[test]
fn surface_held_after_map_failure_is_torn_down_first() {
    let mut capturer = open(false);
    let r = capturer.frame(frame_io(S_OK, S_OK, DXGI_ERROR_ACCESS_LOST, PITCH, 0));
    assert!(matches!(r, Err(ErrorKind::ConnectionReset)));
    assert!(capturer.inner.surface);
    let plan = capturer.inner.close();
    assert_eq!(
        plan,
        vec![
            ReleaseStep::UnmapSurface,
            ReleaseStep::ReleaseSurface,
            ReleaseStep::ReleaseDuplication,
            ReleaseStep::ReleaseDevice,
            ReleaseStep::ReleaseContext,
        ]
    );
}

#[test]
fn fastlane_teardown_holds_no_surface() {
    let mut capturer = open(true);
    let _ = capturer.frame(frame_io(S_OK, S_OK, S_OK, PITCH, 1)).unwrap();
    let plan = capturer.inner.close();
    assert_eq!(
        plan,
        vec![
            ReleaseStep::ReleaseDuplication,
            ReleaseStep::ReleaseDevice,
            ReleaseStep::ReleaseContext,
        ]
    );
}

#[test]
fn sequential_open_and_close_does_not_leak() {
    // One duplication session may be live per output: each iteration closes
    // its session (releasing every resource it holds) before the next opens,
    // and the last open must still succeed.
    let n = 100;
    for i in 0..n {
        let mut capturer = open(i % 2 == 0);
        let _ = capturer.frame(frame_io(S_OK, S_OK, S_OK, PITCH, 0));
        let plan = capturer.inner.close();
        let expected = if i % 2 == 0 { 3 } else { 5 };
        assert_eq!(plan.len(), expected);
    }
    let last = open(true);
    assert_eq!(last.height(), HEIGHT as usize);
}

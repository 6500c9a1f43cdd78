use wayvern::flutter_engine::{engine_time_to_event_time, vsync_frame_times, FlutterEngineIntent};

#[test]
fn intent_from_number() {
    assert_eq!(FlutterEngineIntent::try_from(0), Ok(FlutterEngineIntent::RequestFramebuffer));
    assert_eq!(FlutterEngineIntent::try_from(1), Ok(FlutterEngineIntent::PresentFramebuffer));
    assert_eq!(FlutterEngineIntent::try_from(2), Err(()));
    assert_eq!(FlutterEngineIntent::try_from(u32::MAX), Err(()));
}

#[test]
fn frame_times() {
    assert_eq!(vsync_frame_times(1_000), (1_000, 1_000 + 6_944_444));
    assert_eq!(vsync_frame_times(0), (0, 6_944_444));
}

#[test]
fn event_time() {
    assert_eq!(engine_time_to_event_time(123_456_789), 123_456);
    assert_eq!(engine_time_to_event_time(999), 0);
}

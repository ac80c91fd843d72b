use mau::{App, AppConfig, Driver, MyConfig, WindowConfig, WindowEvent};

fn saved() -> Option<WindowConfig> {
    Some(WindowConfig { x: 100, y: 50, width: 640, height: 480, maximized: false })
}

#[test]
fn starts_from_saved_geometry() {
    let driver = Driver::new(&saved(), (1, 1), Some((7, 7)));
    assert_eq!(driver.position(), (100, 50));
    assert_eq!(driver.size(), (640, 480));
    assert!(!driver.exit_requested());
}

#[test]
fn starts_from_window_when_nothing_saved() {
    let driver = Driver::new(&None, (1024, 600), Some((3, 4)));
    assert_eq!(driver.position(), (3, 4));
    assert_eq!(driver.size(), (1024, 600));
    let driver = Driver::new(&None, (1024, 600), None);
    assert_eq!(driver.position(), (0, 0));
}

#[test]
fn resize_while_maximized_is_ignored() {
    let mut driver = Driver::new(&saved(), (0, 0), None);
    let forward = driver.handle_window_event(WindowEvent::Resized { width: 1920, height: 1080 }, true);
    assert!(forward);
    assert_eq!(driver.size(), (640, 480));
    assert_eq!(driver.position(), (100, 50));
}

#[test]
fn resize_while_not_maximized_is_remembered() {
    let mut driver = Driver::new(&saved(), (0, 0), None);
    let forward = driver.handle_window_event(WindowEvent::Resized { width: 800, height: 700 }, false);
    assert!(!forward);
    assert_eq!(driver.size(), (800, 700));
}

#[test]
fn move_to_negative_position_is_ignored() {
    let mut driver = Driver::new(&saved(), (0, 0), None);
    assert!(driver.handle_window_event(WindowEvent::Moved { x: -8, y: 10 }, false));
    assert_eq!(driver.position(), (100, 50));
    assert!(driver.handle_window_event(WindowEvent::Moved { x: 10, y: -8 }, false));
    assert_eq!(driver.position(), (100, 50));
    assert_eq!(driver.size(), (640, 480));
}

#[test]
fn move_to_ten_ten_is_remembered() {
    let mut driver = Driver::new(&saved(), (0, 0), None);
    assert!(!driver.handle_window_event(WindowEvent::Moved { x: 10, y: 10 }, false));
    assert_eq!(driver.position(), (10, 10));
    assert!(!driver.handle_window_event(WindowEvent::Moved { x: 0, y: 0 }, true));
    assert_eq!(driver.position(), (0, 0));
}

#[test]
fn other_events_go_to_input() {
    let mut driver = Driver::new(&saved(), (0, 0), None);
    assert!(driver.handle_window_event(WindowEvent::Other, false));
    assert!(driver.should_process_frame());
}

#[test]
fn close_request_stops_frames() {
    let mut driver = Driver::new(&saved(), (0, 0), None);
    assert!(!driver.handle_window_event(WindowEvent::CloseRequested, false));
    assert!(driver.exit_requested());
    assert!(!driver.should_process_frame());
    driver.handle_window_event(WindowEvent::Other, false);
    assert!(!driver.should_process_frame());
}

#[test]
fn failed_frame_stops_the_loop() {
    let mut driver = Driver::new(&None, (10, 10), None);
    driver.frame_finished(true);
    assert!(driver.should_process_frame());
    driver.frame_finished(false);
    assert!(!driver.should_process_frame());
}

#[test]
fn final_window_config_holds_tracked_geometry() {
    let mut driver = Driver::new(&saved(), (0, 0), None);
    driver.handle_window_event(WindowEvent::Moved { x: 20, y: 30 }, false);
    assert_eq!(
        driver.final_window_config(true),
        WindowConfig { x: 20, y: 30, width: 640, height: 480, maximized: true }
    );
}

#[test]
fn first_run_opens_default_size_and_saves_geometry_on_close() {
    let (mut config, _) = MyConfig::load(mau::ConfigFile::Missing);
    let app = App::build().default_window_size((800, 600));
    let size = app.initial_window_size(config.window_config());
    assert_eq!(size, (800, 600));

    let mut driver = Driver::new(config.window_config(), size, Some((12, 34)));
    let mut frames = 0;
    if driver.should_process_frame() {
        frames += 1;
        driver.frame_finished(true);
    }
    driver.handle_window_event(WindowEvent::CloseRequested, false);
    if driver.should_process_frame() {
        frames += 1;
    }
    assert_eq!(frames, 1);

    driver.persist(&mut config, false);
    assert_eq!(
        config.window,
        Some(WindowConfig { x: 12, y: 34, width: 800, height: 600, maximized: false })
    );
    assert_eq!(config.language, "en-US");
}

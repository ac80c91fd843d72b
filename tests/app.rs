use mau::{App, WindowConfig};

#[test]
fn build_uses_defaults() {
    let app = App::build();
    assert_eq!(app.default_window_size, (1024, 600));
    assert_eq!(app.minimum_window_size, None);
}

#[test]
fn builder_sets_sizes() {
    let app = App::build().default_window_size((800, 600)).minimum_window_size((320, 200));
    assert_eq!(app.default_window_size, (800, 600));
    assert_eq!(app.minimum_window_size, Some((320, 200)));
}

#[test]
fn saved_size_wins_over_default() {
    let app = App::build();
    let saved = Some(WindowConfig { x: 0, y: 0, width: 300, height: 200, maximized: false });
    assert_eq!(app.initial_window_size(&saved), (300, 200));
    assert_eq!(app.initial_window_size(&None), (1024, 600));
}

#[test]
fn init_state_runs_the_initializer_once_started() {
    let runnable = App::build().default_window_size((640, 480)).init_state(|| Ok::<u32, ()>(42));
    let (app, state) = runnable.start();
    assert_eq!(app.default_window_size, (640, 480));
    assert_eq!(state, Ok(42));
}

#[test]
fn init_state_passes_on_initializer_errors() {
    let runnable = App::build().init_state(|| Err::<(), String>(String::from("no assets")));
    let (_, state) = runnable.start();
    assert_eq!(state, Err(String::from("no assets")));
}

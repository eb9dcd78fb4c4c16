use quill_bridge::error::BridgeError;
use quill_bridge::window::{toggle_fullscreen, QueryFullscreen, SetFullscreen};

/// A window that keeps its flag in memory.
struct Screen {
    fullscreen: bool,
    answers: bool,
    refusal: Option<String>,
}

fn run_toggle(window: &mut Option<Screen>) -> Result<bool, BridgeError> {
    let find = toggle_fullscreen();
    assert_eq!(find.label, "main");
    let query = find.resume(window.is_some())?;
    let screen = window.as_mut().unwrap();
    let current = if screen.answers { Some(screen.fullscreen) } else { None };
    let set = query.resume(current);
    let outcome = match &screen.refusal {
        None => {
            screen.fullscreen = set.fullscreen;
            Ok(())
        }
        Some(message) => Err(message.clone()),
    };
    set.resume(outcome)
}

#[test]
fn toggle_acts_on_the_main_window() {
    assert_eq!(toggle_fullscreen().label, "main");
}

#[test]
fn no_window_is_window_unavailable() {
    assert_eq!(toggle_fullscreen().resume(false), Err(BridgeError::WindowUnavailable));
    assert_eq!(run_toggle(&mut None), Err(BridgeError::WindowUnavailable));
}

#[test]
fn window_found_is_queried_next() {
    assert_eq!(toggle_fullscreen().resume(true), Ok(QueryFullscreen {}));
}

#[test]
fn next_state_is_the_opposite() {
    assert_eq!(QueryFullscreen {}.resume(Some(false)), SetFullscreen { fullscreen: true });
    assert_eq!(QueryFullscreen {}.resume(Some(true)), SetFullscreen { fullscreen: false });
}

#[test]
fn silent_window_counts_as_windowed() {
    assert_eq!(QueryFullscreen {}.resume(None), SetFullscreen { fullscreen: true });
}

#[test]
fn success_reports_the_new_state() {
    assert_eq!(SetFullscreen { fullscreen: true }.resume(Ok(())), Ok(true));
    assert_eq!(SetFullscreen { fullscreen: false }.resume(Ok(())), Ok(false));
}

#[test]
fn refusal_is_io_error_with_the_message() {
    assert_eq!(
        SetFullscreen { fullscreen: true }.resume(Err("not supported".to_string())),
        Err(BridgeError::IOError("not supported".to_string()))
    );
}

#[test]
fn two_toggles_restore_the_state() {
    for start in [false, true] {
        let mut window = Some(Screen { fullscreen: start, answers: true, refusal: None });
        assert_eq!(run_toggle(&mut window), Ok(!start));
        assert_eq!(window.as_ref().unwrap().fullscreen, !start);
        assert_eq!(run_toggle(&mut window), Ok(start));
        assert_eq!(window.as_ref().unwrap().fullscreen, start);
    }
}

#[test]
fn silent_window_is_forced_fullscreen() {
    let mut window = Some(Screen { fullscreen: false, answers: false, refusal: None });
    assert_eq!(run_toggle(&mut window), Ok(true));
    assert_eq!(run_toggle(&mut window), Ok(true));
    assert!(window.unwrap().fullscreen);
}

#[test]
fn refused_change_leaves_the_window_alone() {
    let mut window =
        Some(Screen { fullscreen: false, answers: true, refusal: Some("denied".to_string()) });
    assert_eq!(run_toggle(&mut window), Err(BridgeError::IOError("denied".to_string())));
    assert!(!window.unwrap().fullscreen);
}

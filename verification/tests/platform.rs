use loop_coordinator::monitor::DEFAULT_FRAMES_PER_SECOND;
use loop_coordinator::refresh_rate_millihertz;
use loop_coordinator::window::set_cursor_grab;
use loop_coordinator::window::theme;
use loop_coordinator::window::CursorGrabMode;
use loop_coordinator::window::NotSupportedError;
use loop_coordinator::window::PointerLock;
use loop_coordinator::window::Theme;

#[test]
fn refresh_rate_is_a_thousand_times_the_frames_per_second() {
    assert_eq!(refresh_rate_millihertz(Some(60)), Some(60_000));
    assert_eq!(refresh_rate_millihertz(Some(120)), Some(120_000));
    assert_eq!(refresh_rate_millihertz(Some(1)), Some(1_000));
}

#[test]
fn refresh_rate_of_a_display_without_frames_is_none() {
    assert_eq!(refresh_rate_millihertz(Some(0)), None);
}

#[test]
fn refresh_rate_defaults_to_sixty_frames_per_second() {
    assert_eq!(DEFAULT_FRAMES_PER_SECOND, 60);
    assert_eq!(refresh_rate_millihertz(None), Some(60_000));
}

#[test]
fn refresh_rate_at_the_largest_rate_that_fits() {
    let frames = u32::MAX / 1000;
    assert_eq!(refresh_rate_millihertz(Some(frames)), Some(4_294_967_000));
}

#[test]
fn cursor_grab_decides_on_the_pointer_lock() {
    assert_eq!(set_cursor_grab(CursorGrabMode::Free), Ok(PointerLock::Exit));
    assert_eq!(set_cursor_grab(CursorGrabMode::Locked), Ok(PointerLock::Request));
}

#[test]
fn a_confined_cursor_is_not_supported() {
    assert_eq!(set_cursor_grab(CursorGrabMode::Confined), Err(NotSupportedError::ConfinedCursor));
}

#[test]
fn theme_follows_the_preference_for_a_dark_appearance() {
    assert_eq!(theme(Some(true)), Some(Theme::Dark));
    assert_eq!(theme(Some(false)), Some(Theme::Light));
    assert_eq!(theme(None), None);
}

use flappybust::CursorPos;
use flappybust::GameState;
use flappybust::restart_requested;

#[test]
fn loading_finishes_to_ready() {
    assert_eq!(GameState::AssetLoading.on_assets_loaded(), GameState::Ready);
    assert_eq!(GameState::Ready.on_assets_loaded(), GameState::Ready);
    assert_eq!(GameState::Playing.on_assets_loaded(), GameState::Playing);
}

#[test]
fn start_press_only_works_on_ready_screen() {
    assert_eq!(GameState::Ready.on_start_pressed(), GameState::Playing);
    assert_eq!(GameState::AssetLoading.on_start_pressed(), GameState::AssetLoading);
    assert_eq!(GameState::Playing.on_start_pressed(), GameState::Playing);
    assert_eq!(GameState::Over.on_start_pressed(), GameState::Over);
}

#[test]
fn collision_ends_only_a_running_round() {
    assert_eq!(GameState::Playing.on_collision(), GameState::Over);
    assert_eq!(GameState::Ready.on_collision(), GameState::Ready);
    assert_eq!(GameState::Over.on_collision(), GameState::Over);
}

#[test]
fn restart_returns_to_ready_only_when_requested() {
    assert_eq!(GameState::Over.on_restart(true), GameState::Ready);
    assert_eq!(GameState::Over.on_restart(false), GameState::Over);
    assert_eq!(GameState::Playing.on_restart(true), GameState::Playing);
}

#[test]
fn full_round_trip_of_states() {
    let mut s = GameState::AssetLoading;
    s = s.on_assets_loaded();
    s = s.on_start_pressed();
    s = s.on_collision();
    s = s.on_restart(true);
    assert_eq!(s, GameState::Ready);
}

#[test]
fn restart_needs_the_button_on_screen() {
    let clicks = vec![CursorPos { x: 100, y: 280 }];
    assert!(!restart_requested(false, true, true, &clicks));
}

#[test]
fn restart_by_key() {
    let clicks: Vec<CursorPos> = vec![];
    assert!(restart_requested(true, true, false, &clicks));
}

#[test]
fn restart_by_click_inside_button() {
    let clicks = vec![CursorPos { x: 91, y: 274 }];
    assert!(restart_requested(true, false, true, &clicks));
}

#[test]
fn click_on_button_edge_does_not_restart() {
    assert!(!restart_requested(true, false, true, &vec![CursorPos { x: 90, y: 280 }]));
    assert!(!restart_requested(true, false, true, &vec![CursorPos { x: 200, y: 280 }]));
    assert!(!restart_requested(true, false, true, &vec![CursorPos { x: 100, y: 273 }]));
    assert!(!restart_requested(true, false, true, &vec![CursorPos { x: 100, y: 310 }]));
}

#[test]
fn click_without_mouse_press_does_not_restart() {
    let clicks = vec![CursorPos { x: 100, y: 280 }];
    assert!(!restart_requested(true, false, false, &clicks));
}

#[test]
fn any_of_several_clicks_restarts() {
    let clicks = vec![CursorPos { x: 0, y: 0 }, CursorPos { x: 150, y: 300 }];
    assert!(restart_requested(true, false, true, &clicks));
}

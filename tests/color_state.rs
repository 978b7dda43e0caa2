use agentkit::color::{AppAction, AppState, BackgroundColor};

#[test]
fn next_walks_the_cycle() {
    assert_eq!(BackgroundColor::White.next(), BackgroundColor::LightBlue);
    assert_eq!(BackgroundColor::LightBlue.next(), BackgroundColor::LightGreen);
    assert_eq!(BackgroundColor::LightGreen.next(), BackgroundColor::White);
}

#[test]
fn names_of_colors() {
    assert_eq!(BackgroundColor::White.name(), "White");
    assert_eq!(BackgroundColor::LightBlue.name(), "Light Blue");
    assert_eq!(BackgroundColor::LightGreen.name(), "Light Green");
}

#[test]
fn new_state_is_white() {
    let s = AppState::new();
    assert_eq!(s.get_bg_color(), BackgroundColor::White);
}

#[test]
fn cycle_returns_new_color() {
    let mut s = AppState::new();
    assert_eq!(s.cycle_bg_color(), BackgroundColor::LightBlue);
    assert_eq!(s.get_bg_color(), BackgroundColor::LightBlue);
    assert_eq!(s.cycle_bg_color(), BackgroundColor::LightGreen);
    assert_eq!(s.cycle_bg_color(), BackgroundColor::White);
}

#[test]
fn three_cycles_restore_the_state() {
    for start in 0..3 {
        let mut s = AppState::new();
        for _ in 0..start {
            s.cycle_bg_color();
        }
        let before = s.get_bg_color();
        for _ in 0..6 {
            s.cycle_bg_color();
        }
        assert_eq!(s.get_bg_color(), before);
    }
}

#[test]
fn n_cycles_land_on_n_mod_three() {
    let expected = [BackgroundColor::White, BackgroundColor::LightBlue, BackgroundColor::LightGreen];
    for n in 0..10usize {
        let mut s = AppState::new();
        for _ in 0..n {
            s.cycle_bg_color();
        }
        assert_eq!(s.get_bg_color(), expected[n % 3]);
    }
}

#[test]
fn locked_cycles_in_any_order() {
    let shared = std::sync::Arc::new(std::sync::Mutex::new(AppState::new()));
    let mut handles = Vec::new();
    for _ in 0..4 {
        let s = shared.clone();
        handles.push(move || {
            s.lock().unwrap().cycle_bg_color();
        });
    }
    for h in handles.into_iter().rev() {
        h();
    }
    assert_eq!(shared.lock().unwrap().get_bg_color(), BackgroundColor::LightBlue);
}

#[test]
fn action_is_comparable() {
    assert_eq!(AppAction::CycleColor, AppAction::CycleColor);
}

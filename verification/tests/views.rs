use mihomo_tui::app::App;
use mihomo_tui::components::profiles::PROFILE_HELP;
use mihomo_tui::components::status::STATUS_HELP;
use mihomo_tui::components::{Root, UiAction};
use mihomo_tui::event::{tick_period_micros, Event, Key};

#[test]
fn view_switching_to_profiles_and_back() {
    let mut app = App::default();
    let mut root = Root::new(&mut app);
    assert_eq!(root.main_component.as_usize(), 0);
    assert_eq!(app.help_text, STATUS_HELP);

    // F2 on the status view switches to the profile manager and swaps the legend.
    let act = root.handle_key(&mut app, 3, Key::Function(2));
    assert_eq!(act, None);
    assert_eq!(root.main_component.as_usize(), 1);
    assert_eq!(app.help_text, PROFILE_HELP);
    assert!(app.running);

    // F2 again is a no-op.
    let act = root.handle_key(&mut app, 3, Key::Function(2));
    assert_eq!(act, None);
    assert_eq!(root.main_component.as_usize(), 1);
    assert_eq!(app.help_text, PROFILE_HELP);

    // F1 switches back to the status view.
    let act = root.handle_key(&mut app, 3, Key::Function(1));
    assert_eq!(act, None);
    assert_eq!(root.main_component.as_usize(), 0);
    assert_eq!(app.help_text, STATUS_HELP);

    // F1 while already on the status view changes nothing.
    let act = root.handle_key(&mut app, 3, Key::Function(1));
    assert_eq!(act, None);
    assert_eq!(root.main_component.as_usize(), 0);
    assert_eq!(app.help_text, STATUS_HELP);
}

#[test]
fn placeholder_views_are_reachable() {
    let mut app = App::default();
    let mut root = Root::new(&mut app);
    root.handle_key(&mut app, 0, Key::Function(3));
    assert_eq!(root.main_component.as_usize(), 2);
    root.handle_key(&mut app, 0, Key::Function(4));
    assert_eq!(root.main_component.as_usize(), 3);
    root.handle_key(&mut app, 0, Key::Function(5));
    assert_eq!(root.main_component.as_usize(), 4);
}

#[test]
fn quit_keys_clear_the_running_flag_from_any_view() {
    let mut app = App::default();
    let mut root = Root::new(&mut app);
    root.handle_key(&mut app, 0, Key::Esc);
    assert!(!app.running);

    let mut app = App::default();
    let mut root = Root::new(&mut app);
    root.handle_key(&mut app, 0, Key::Function(2));
    root.handle_key(&mut app, 0, Key::CtrlC);
    assert!(!app.running);
}

#[test]
fn cursor_moves_stay_inside_the_table() {
    let mut app = App::default();
    let mut root = Root::new(&mut app);
    root.handle_key(&mut app, 2, Key::Function(2));

    // Up from the top row stays put.
    assert_eq!(root.handle_key(&mut app, 2, Key::Up), None);
    // Down walks to the last row (fallback + 2 profiles = rows 0..=2) and stops.
    for _ in 0..5 {
        assert_eq!(root.handle_key(&mut app, 2, Key::Down), None);
    }
    // Enter on the last row activates the second stored profile.
    let act = root.handle_key(&mut app, 2, Key::Enter);
    assert_eq!(act, Some(UiAction::ActivateProfile(1)));
}

#[test]
fn enter_on_the_fallback_row_activates_the_fallback() {
    let mut app = App::default();
    let mut root = Root::new(&mut app);
    root.handle_key(&mut app, 2, Key::Function(2));
    let act = root.handle_key(&mut app, 2, Key::Enter);
    assert_eq!(act, Some(UiAction::ActivateFallback));
}

#[test]
fn update_key_refreshes_the_selected_profile_only() {
    let mut app = App::default();
    let mut root = Root::new(&mut app);
    root.handle_key(&mut app, 2, Key::Function(2));

    // On the fallback row, U does nothing.
    assert_eq!(root.handle_key(&mut app, 2, Key::Char('u')), None);

    root.handle_key(&mut app, 2, Key::Down);
    assert_eq!(
        root.handle_key(&mut app, 2, Key::Char('U')),
        Some(UiAction::RefreshAndActivate(0))
    );
    // Other characters are ignored.
    assert_eq!(root.handle_key(&mut app, 2, Key::Char('x')), None);
}

#[test]
fn keys_for_the_profile_view_do_nothing_on_status() {
    let mut app = App::default();
    let mut root = Root::new(&mut app);
    assert_eq!(root.handle_key(&mut app, 2, Key::Enter), None);
    assert_eq!(root.handle_key(&mut app, 2, Key::Down), None);
    assert_eq!(root.main_component.as_usize(), 0);
}

#[test]
fn tick_leaves_the_dispatcher_unchanged() {
    let mut app = App::default();
    let mut root = Root::new(&mut app);
    root.handle_key(&mut app, 1, Key::Function(2));
    root.tick();
    assert_eq!(root.main_component.as_usize(), 1);
}

#[test]
fn event_model_round_trip() {
    assert_eq!(tick_period_micros(5), 200_000);
    let e = Event::Terminal(Key::Enter);
    assert!(matches!(e, Event::Terminal(Key::Enter)));
    assert!(matches!(Event::Tick, Event::Tick));
}

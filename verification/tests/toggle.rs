use will_shortcut::geometry::{
    AnchorCorner, MonitorDescriptor, PlacementOffsets, Point, Rectangle, Size,
};
use will_shortcut::storage::Application;
use will_shortcut::toggle::{
    choose_monitor, choose_position, hide_overlay, show_overlay, Action, Coordinator,
    PressContext, ToggleState,
};
use will_shortcut::window_detection::ActiveWindowSnapshot;

fn monitor(x: i32, y: i32, width: u32, height: u32) -> MonitorDescriptor {
    MonitorDescriptor { position: Point { x, y }, size: Size { width, height } }
}

fn registry() -> Vec<Application> {
    vec![Application {
        id: "1".to_string(),
        name: "Google Chrome".to_string(),
        process_name: "chrome".to_string(),
        icon: None,
        last_used_list_id: None,
    }]
}

fn window(process: &str, x: i32, y: i32) -> ActiveWindowSnapshot {
    ActiveWindowSnapshot {
        process_identity: process.to_string(),
        window_title: "title".to_string(),
        bounds: Rectangle { x, y, width: 800, height: 600 },
    }
}

fn context(active: Option<ActiveWindowSnapshot>) -> PressContext {
    PressContext {
        active_window: active,
        monitors: Some(vec![monitor(0, 0, 1920, 1080), monitor(1920, 0, 1920, 1080)]),
        overlay_monitor: Some(monitor(0, 0, 1920, 1080)),
        overlay_size: Some(Size { width: 400, height: 600 }),
        anchor: AnchorCorner::BottomRight,
        offsets: PlacementOffsets::default(),
    }
}

fn count(actions: &Vec<Action>, wanted: fn(&Action) -> bool) -> usize {
    actions.iter().filter(|a| wanted(a)).count()
}

fn is_announcement(a: &Action) -> bool {
    matches!(a, Action::NotifyActiveApplication(_))
}

fn is_hidden_notice(a: &Action) -> bool {
    matches!(a, Action::NotifyHidden)
}

#[test]
fn coordinator_starts_hidden() {
    let c = Coordinator::new();
    assert_eq!(c.state(), ToggleState::Hidden);
    assert!(!c.settings_visible());
    assert!(c.needs_context());
}

#[test]
fn two_presses_show_then_hide() {
    let mut c = Coordinator::new();
    let ctx = context(Some(window("chrome", 2000, 100)));
    let first = c.on_hotkey_press(&ctx, &registry());
    assert_eq!(c.state(), ToggleState::Visible);
    assert!(!c.needs_context());
    assert_eq!(
        first,
        vec![
            Action::NotifyActiveApplication("Google Chrome".to_string()),
            Action::MoveOverlay(Point { x: 1920 + 1528, y: 440 }),
            Action::ShowOverlay,
            Action::FocusOverlay,
        ]
    );
    let second = c.on_hotkey_press(&ctx, &registry());
    assert_eq!(c.state(), ToggleState::Hidden);
    assert_eq!(second, vec![Action::NotifyHidden, Action::HideOverlay]);
    assert_eq!(count(&first, is_announcement), 1);
    assert_eq!(count(&first, is_hidden_notice), 0);
    assert_eq!(count(&second, is_announcement), 0);
    assert_eq!(count(&second, is_hidden_notice), 1);
}

#[test]
fn unknown_process_is_announced_as_it_is() {
    let mut c = Coordinator::new();
    let ctx = context(Some(window("notepad", 10, 10)));
    let actions = c.on_hotkey_press(&ctx, &registry());
    assert_eq!(actions[0], Action::NotifyActiveApplication("notepad".to_string()));
    assert_eq!(actions[1], Action::MoveOverlay(Point { x: 1528, y: 440 }));
}

#[test]
fn failed_window_query_still_shows() {
    let mut c = Coordinator::new();
    let mut ctx = context(None);
    ctx.overlay_monitor = Some(monitor(1920, 0, 1920, 1080));
    ctx.anchor = AnchorCorner::TopLeft;
    let actions = c.on_hotkey_press(&ctx, &registry());
    assert_eq!(c.state(), ToggleState::Visible);
    assert_eq!(
        actions,
        vec![
            Action::MoveOverlay(Point { x: 1912, y: 0 }),
            Action::ShowOverlay,
            Action::FocusOverlay,
        ]
    );
    assert_eq!(choose_monitor(&ctx), Some(monitor(1920, 0, 1920, 1080)));
}

#[test]
fn failed_monitor_enumeration_falls_back() {
    let mut ctx = context(Some(window("chrome", 2000, 100)));
    ctx.monitors = None;
    assert_eq!(choose_monitor(&ctx), Some(monitor(0, 0, 1920, 1080)));
    assert_eq!(choose_position(&ctx), Some(Point { x: 1528, y: 440 }));
}

#[test]
fn window_on_no_monitor_falls_back() {
    let ctx = context(Some(window("chrome", 9000, 9000)));
    assert_eq!(choose_monitor(&ctx), Some(monitor(0, 0, 1920, 1080)));
}

#[test]
fn nothing_known_skips_the_move() {
    let mut c = Coordinator::new();
    let ctx = PressContext {
        active_window: None,
        monitors: None,
        overlay_monitor: None,
        overlay_size: None,
        anchor: AnchorCorner::BottomRight,
        offsets: PlacementOffsets::default(),
    };
    let actions = c.on_hotkey_press(&ctx, &Vec::new());
    assert_eq!(actions, vec![Action::ShowOverlay, Action::FocusOverlay]);
    assert_eq!(c.state(), ToggleState::Visible);
    assert_eq!(choose_position(&ctx), None);
}

#[test]
fn unknown_overlay_size_skips_the_move() {
    let mut ctx = context(Some(window("chrome", 10, 10)));
    ctx.overlay_size = None;
    assert_eq!(
        show_overlay(&ctx, &registry()),
        vec![
            Action::NotifyActiveApplication("Google Chrome".to_string()),
            Action::ShowOverlay,
            Action::FocusOverlay,
        ]
    );
}

#[test]
fn hiding_takes_the_settings_window_along() {
    let mut c = Coordinator::new();
    let ctx = context(Some(window("chrome", 10, 10)));
    c.on_hotkey_press(&ctx, &registry());
    c.set_settings_visible(true);
    assert!(c.settings_visible());
    let actions = c.on_hotkey_press(&ctx, &registry());
    assert_eq!(actions, vec![Action::HideSettings, Action::NotifyHidden, Action::HideOverlay]);
    assert!(!c.settings_visible());
    assert_eq!(c.state(), ToggleState::Hidden);
    assert_eq!(hide_overlay(false), vec![Action::NotifyHidden, Action::HideOverlay]);
}

#[test]
fn settings_window_survives_a_show() {
    let mut c = Coordinator::new();
    c.set_settings_visible(true);
    c.on_hotkey_press(&context(None), &registry());
    assert!(c.settings_visible());
    assert_eq!(c.state(), ToggleState::Visible);
}

#[test]
fn closing_from_outside_resets_the_state() {
    let mut c = Coordinator::new();
    c.on_hotkey_press(&context(None), &registry());
    c.on_overlay_closed();
    assert_eq!(c.state(), ToggleState::Hidden);
    let again = c.on_hotkey_press(&context(None), &registry());
    assert_eq!(again.last(), Some(&Action::FocusOverlay));
    assert_eq!(c.state(), ToggleState::Visible);
}

#[test]
fn only_show_and_hide_propagate_failures() {
    assert!(Action::ShowOverlay.propagates_failure());
    assert!(Action::HideOverlay.propagates_failure());
    assert!(!Action::FocusOverlay.propagates_failure());
    assert!(!Action::HideSettings.propagates_failure());
    assert!(!Action::NotifyHidden.propagates_failure());
    assert!(!Action::MoveOverlay(Point { x: 0, y: 0 }).propagates_failure());
    assert!(!Action::NotifyActiveApplication("x".to_string()).propagates_failure());
}

#[test]
fn plain_toggle_shows_in_the_bottom_right_corner() {
    let mut c = Coordinator::new();
    let size = Size { width: 400, height: 600 };
    let shown = c.toggle_window(
        Some(monitor(0, 0, 1920, 1080)),
        Some(size),
        PlacementOffsets::default(),
    );
    assert_eq!(
        shown,
        vec![
            Action::MoveOverlay(Point { x: 1528, y: 440 }),
            Action::ShowOverlay,
            Action::FocusOverlay,
        ]
    );
    assert_eq!(c.state(), ToggleState::Visible);
    let hidden = c.toggle_window(None, None, PlacementOffsets::default());
    assert_eq!(hidden, vec![Action::NotifyHidden, Action::HideOverlay]);
    assert_eq!(c.state(), ToggleState::Hidden);
}

#[test]
fn plain_toggle_goes_by_the_monitors_origin() {
    let mut c = Coordinator::new();
    let shown = c.toggle_window(
        Some(monitor(1920, 100, 1920, 1080)),
        Some(Size { width: 400, height: 600 }),
        PlacementOffsets { taskbar_reserve: 0, border_compensation: 0 },
    );
    assert_eq!(shown[0], Action::MoveOverlay(Point { x: 1920 + 1520, y: 100 + 480 }));
}

#[test]
fn plain_toggle_absorbs_missing_answers() {
    let size = Size { width: 400, height: 600 };
    let mut c = Coordinator::new();
    assert_eq!(
        c.toggle_window(None, Some(size), PlacementOffsets::default()),
        vec![Action::ShowOverlay, Action::FocusOverlay]
    );
    let mut d = Coordinator::new();
    assert_eq!(
        d.toggle_window(Some(monitor(0, 0, 1920, 1080)), None, PlacementOffsets::default()),
        vec![Action::ShowOverlay, Action::FocusOverlay]
    );
    let mut e = Coordinator::new();
    assert_eq!(
        e.toggle_window(
            Some(monitor(i32::MAX, 0, u32::MAX, 1080)),
            Some(size),
            PlacementOffsets::default()
        ),
        vec![Action::ShowOverlay, Action::FocusOverlay]
    );
    assert_eq!(e.state(), ToggleState::Visible);
}

#[test]
fn plain_toggle_and_hotkey_share_the_state() {
    let mut c = Coordinator::new();
    c.toggle_window(None, None, PlacementOffsets::default());
    c.set_settings_visible(true);
    let press = c.on_hotkey_press(&context(Some(window("chrome", 10, 10))), &registry());
    assert_eq!(press, vec![Action::HideSettings, Action::NotifyHidden, Action::HideOverlay]);
    assert_eq!(c.state(), ToggleState::Hidden);
    c.on_hotkey_press(&context(None), &registry());
    c.set_settings_visible(true);
    let plain = c.toggle_window(None, None, PlacementOffsets::default());
    assert_eq!(plain, vec![Action::HideSettings, Action::NotifyHidden, Action::HideOverlay]);
    assert_eq!(c.state(), ToggleState::Hidden);
    assert!(!c.settings_visible());
}

#[test]
fn plain_toggle_is_a_press_without_active_window() {
    let mut ctx = context(None);
    ctx.monitors = None;
    ctx.overlay_monitor = Some(monitor(1920, 0, 1920, 1080));
    let mut c = Coordinator::new();
    let mut d = Coordinator::new();
    assert_eq!(
        c.toggle_window(ctx.overlay_monitor, ctx.overlay_size, ctx.offsets),
        d.on_hotkey_press(&ctx, &registry())
    );
    assert_eq!(c, d);
}

#[test]
fn overlay_shown_from_outside() {
    let mut c = Coordinator::new();
    c.on_overlay_shown();
    assert_eq!(c.state(), ToggleState::Visible);
    assert!(!c.needs_context());
    let press = c.on_hotkey_press(&context(None), &registry());
    assert_eq!(press, vec![Action::NotifyHidden, Action::HideOverlay]);
    assert_eq!(c.state(), ToggleState::Hidden);
}

#[test]
fn a_sequence_under_way_refuses_another() {
    let mut c = Coordinator::new();
    assert!(c.begin_sequence());
    assert!(!c.begin_sequence());
    assert_eq!(c.state(), ToggleState::Hidden);
    c.on_hotkey_press(&context(None), &registry());
    assert!(!c.begin_sequence());
    c.end_sequence();
    assert_eq!(c.state(), ToggleState::Visible);
    assert!(c.begin_sequence());
    c.end_sequence();
    c.end_sequence();
    assert!(c.begin_sequence());
}

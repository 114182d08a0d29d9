use window_monitor::config::MonitorConfig;
use window_monitor::monitor::{
    evaluate_focus, find_window, windows_to_minimize, FailureAction, FocusOutcome, FocusTracker,
    Monitor, Reaction, POLL_INTERVAL_MS,
};
use window_monitor::window::{WindowHandle, WindowInfo};

fn handle(raw: isize) -> WindowHandle {
    WindowHandle { raw }
}

fn window(raw: isize, title: &str, class_name: &str) -> WindowInfo {
    WindowInfo { handle: handle(raw), title: title.to_string(), class_name: class_name.to_string() }
}

fn words(list: &[&str]) -> Vec<String> {
    list.iter().map(|s| s.to_string()).collect()
}

fn desktop() -> Vec<WindowInfo> {
    vec![
        window(10, "Trae \u{2014} project", "Chrome_WidgetWin_1"),
        window(20, "WhatsApp", "ApplicationFrameWindow"),
        window(30, "Notepad", "Notepad"),
        window(40, "Program Manager", "Progman"),
    ]
}

fn titles(windows: &[WindowInfo], places: &[usize]) -> Vec<String> {
    places.iter().map(|&i| windows[i].title.clone()).collect()
}

#[test]
fn poll_interval_is_a_hundred_milliseconds() {
    assert_eq!(POLL_INTERVAL_MS, 100);
}

#[test]
fn tracker_reports_only_moves_of_the_focus() {
    let mut tracker = FocusTracker::new();
    assert_eq!(tracker.last_active(), None);
    assert!(tracker.observe(handle(1)));
    assert_eq!(tracker.last_active(), Some(handle(1)));
    assert!(!tracker.observe(handle(1)));
    assert!(tracker.observe(handle(2)));
    assert!(tracker.observe(handle(1)));
    assert_eq!(tracker.last_active(), Some(handle(1)));
}

#[test]
fn tracker_sees_the_null_handle_as_a_move_at_startup() {
    let mut tracker = FocusTracker::new();
    assert!(tracker.observe(handle(0)));
    assert!(!tracker.observe(handle(0)));
}

#[test]
fn find_window_gives_the_first_place() {
    let windows = vec![window(1, "A", "a"), window(2, "B", "b"), window(1, "C", "c")];
    assert_eq!(find_window(&windows, handle(1)), Some(0));
    assert_eq!(find_window(&windows, handle(2)), Some(1));
    assert_eq!(find_window(&windows, handle(3)), None);
    assert_eq!(find_window(&[], handle(1)), None);
}

#[test]
fn focus_on_target_minimizes_only_ordinary_windows() {
    let config = MonitorConfig::new(words(&["Trae"]), words(&["WhatsApp"]));
    let windows = desktop();
    let outcome = evaluate_focus(&windows, handle(10), &config);
    match outcome {
        FocusOutcome::Target { active, minimize } => {
            assert_eq!(active, 0);
            assert_eq!(titles(&windows, &minimize), vec!["Notepad".to_string()]);
        }
        other => panic!("{:?}", other),
    }
}

#[test]
fn scenario_target_gains_focus_through_the_monitor() {
    let config = MonitorConfig::new(words(&["Trae"]), words(&["WhatsApp"]));
    let mut monitor = Monitor::new();
    assert_eq!(monitor.on_focus(handle(10), 0, &config), Reaction::Enumerate);
    let outcome = monitor.on_snapshot(desktop(), 1, &config);
    assert_eq!(outcome, FocusOutcome::Target { active: 0, minimize: vec![2] });
    assert_eq!(monitor.windows()[2].title, "Notepad");
    assert_eq!(monitor.last_active(), Some(handle(10)));
}

#[test]
fn scenario_unmoved_focus_does_nothing() {
    let config = MonitorConfig::new(words(&["Trae"]), words(&["WhatsApp"]));
    let mut monitor = Monitor::new();
    assert_eq!(monitor.on_focus(handle(10), 0, &config), Reaction::Enumerate);
    monitor.on_snapshot(desktop(), 0, &config);
    assert_eq!(monitor.on_focus(handle(10), 100, &config), Reaction::Idle);
    assert_eq!(monitor.on_focus(handle(10), 200, &config), Reaction::Idle);
    assert_eq!(monitor.on_focus(handle(10), 100_000, &config), Reaction::Idle);
    assert_eq!(monitor.windows(), &desktop());
    assert_eq!(monitor.last_active(), Some(handle(10)));
}

#[test]
fn scenario_focused_window_not_in_the_list() {
    let config = MonitorConfig::new(words(&["Trae"]), words(&["WhatsApp"]));
    let mut monitor = Monitor::new();
    assert_eq!(monitor.on_focus(handle(99), 0, &config), Reaction::Enumerate);
    assert_eq!(monitor.on_snapshot(desktop(), 0, &config), FocusOutcome::Unlisted);
    assert_eq!(monitor.last_active(), Some(handle(99)));
    assert_eq!(
        monitor.on_focus(handle(98), 10, &config),
        Reaction::Evaluated(FocusOutcome::Unlisted)
    );
    assert_eq!(monitor.last_active(), Some(handle(98)));
}

#[test]
fn focus_on_ordinary_window_minimizes_nothing() {
    let config = MonitorConfig::new(words(&["Trae"]), words(&["WhatsApp"]));
    let windows = desktop();
    assert_eq!(evaluate_focus(&windows, handle(30), &config), FocusOutcome::NotTarget { active: 2 });
    assert_eq!(evaluate_focus(&windows, handle(20), &config), FocusOutcome::NotTarget { active: 1 });
}

#[test]
fn move_within_validity_is_judged_from_the_stored_list() {
    let config = MonitorConfig::new(words(&["Trae"]), words(&["WhatsApp"]));
    let mut monitor = Monitor::new();
    assert_eq!(monitor.on_focus(handle(30), 1000, &config), Reaction::Enumerate);
    assert_eq!(
        monitor.on_snapshot(desktop(), 1000, &config),
        FocusOutcome::NotTarget { active: 2 }
    );
    assert_eq!(
        monitor.on_focus(handle(10), 1010, &config),
        Reaction::Evaluated(FocusOutcome::Target { active: 0, minimize: vec![2] })
    );
    assert_eq!(
        monitor.on_focus(handle(30), 1050, &config),
        Reaction::Evaluated(FocusOutcome::NotTarget { active: 2 })
    );
    assert_eq!(monitor.on_focus(handle(10), 1051, &config), Reaction::Enumerate);
    assert_eq!(monitor.last_active(), Some(handle(10)));
}

#[test]
fn snapshot_before_any_focus_is_stored_without_action() {
    let config = MonitorConfig::new(words(&["Trae"]), Vec::new());
    let mut monitor = Monitor::new();
    assert_eq!(monitor.on_snapshot(desktop(), 5, &config), FocusOutcome::Unlisted);
    assert_eq!(monitor.windows(), &desktop());
    assert_eq!(monitor.last_active(), None);
}

#[test]
fn minimize_set_leaves_out_focused_target_and_skipped_windows() {
    let config = MonitorConfig::new(words(&["Trae"]), words(&["Chat"]));
    let windows = vec![
        window(1, "Mail", "m"),
        window(2, "Trae one", "t"),
        window(3, "Trae two", "t"),
        window(4, "Trae Chat", "t"),
        window(5, "Chat", "c"),
        window(6, "", "e"),
        window(7, "Files", "Shell_TrayWnd"),
        window(8, "Desktop Settings", "d"),
        window(9, "Music", "p"),
        window(2, "Clone of handle", "x"),
    ];
    let picked = windows_to_minimize(&windows, handle(2), &config);
    assert_eq!(picked, vec![0, 8]);
    let picked = windows_to_minimize(&windows, handle(1), &config);
    assert_eq!(picked, vec![8, 9]);
}

#[test]
fn minimize_set_of_an_empty_list_is_empty() {
    let config = MonitorConfig::new(words(&["Trae"]), Vec::new());
    assert_eq!(windows_to_minimize(&[], handle(1), &config), Vec::<usize>::new());
}

#[test]
fn target_alone_on_the_desktop_minimizes_nothing() {
    let config = MonitorConfig::new(words(&["Trae"]), Vec::new());
    let windows = vec![window(1, "Trae", "t")];
    assert_eq!(
        evaluate_focus(&windows, handle(1), &config),
        FocusOutcome::Target { active: 0, minimize: Vec::new() }
    );
}

#[test]
fn failed_enumeration_before_any_list_gives_up() {
    let config = MonitorConfig::new(words(&["Trae"]), Vec::new());
    let mut monitor = Monitor::new();
    assert_eq!(monitor.on_enumeration_failed(), FailureAction::GiveUp);
    assert_eq!(monitor.on_focus(handle(10), 0, &config), Reaction::Enumerate);
    assert_eq!(monitor.on_enumeration_failed(), FailureAction::GiveUp);
}

#[test]
fn failed_enumeration_later_skips_the_tick() {
    let config = MonitorConfig::new(words(&["Trae"]), Vec::new());
    let mut monitor = Monitor::new();
    assert_eq!(monitor.on_focus(handle(30), 0, &config), Reaction::Enumerate);
    monitor.on_snapshot(desktop(), 0, &config);
    assert_eq!(monitor.on_focus(handle(10), 500, &config), Reaction::Enumerate);
    assert_eq!(monitor.on_enumeration_failed(), FailureAction::SkipTick);
    assert_eq!(monitor.last_active(), Some(handle(10)));
    assert_eq!(monitor.windows(), &desktop());
    assert_eq!(monitor.on_focus(handle(10), 600, &config), Reaction::Idle);
    assert_eq!(monitor.on_focus(handle(30), 700, &config), Reaction::Enumerate);
}

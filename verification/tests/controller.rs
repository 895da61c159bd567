use tpot::activity::ActivityData;
use tpot::app::App;
use tpot::color::HighlightColor;
use tpot::event::Event;
use tpot::key::{KeyCode, KeyEvent, KeyEventKind};
use tpot::task_data::TaskData;
use tpot::task_pop_up::{Command, InputMode};
use tpot::user_data::UserData;

fn sample_tasks() -> Vec<TaskData> {
    vec![
        TaskData::new("Write report".to_string(), 40, 120, 0),
        TaskData::new("Review PR".to_string(), 90, 10, 1),
    ]
}

fn app_with(tasks: Vec<TaskData>) -> App {
    App::new(ActivityData::new(UserData::new("me".to_string(), tasks), Vec::new()))
}

fn key(app: &mut App, code: KeyCode) {
    app.handle_key_event(KeyEvent::press(code));
}

fn type_into(app: &mut App, text: &str) {
    for c in text.chars() {
        key(app, KeyCode::Char(c));
    }
}

fn names(app: &App) -> Vec<String> {
    app.data().profile.tasks.iter().map(|t| t.task_name.clone()).collect()
}

#[test]
fn new_controller_starts_with_defaults() {
    let app = app_with(sample_tasks());
    assert!(!app.should_exit());
    assert_eq!(app.progress_bar_color(), HighlightColor::Green);
    assert_eq!(app.background_progress(), 0);
    assert_eq!(app.active_tab(), 0);
    assert!(!app.popup().is_active());
    assert_eq!(app.popup().input_mode(), InputMode::Normal);
    assert_eq!(app.popup().selected_task(), None);
    assert_eq!(names(&app), vec!["Write report", "Review PR"]);
    assert_eq!(app.data().profile.user_name, "me");
}

#[test]
fn color_key_four_times_returns_to_green() {
    let mut app = app_with(sample_tasks());
    for _ in 0..4 {
        key(&mut app, KeyCode::Char('c'));
    }
    assert_eq!(app.progress_bar_color(), HighlightColor::Green);
}

#[test]
fn color_key_walks_the_cycle_in_order() {
    let mut app = app_with(Vec::new());
    key(&mut app, KeyCode::Char('c'));
    assert_eq!(app.progress_bar_color(), HighlightColor::Yellow);
    key(&mut app, KeyCode::Char('c'));
    assert_eq!(app.progress_bar_color(), HighlightColor::LightBlue);
    key(&mut app, KeyCode::Char('c'));
    assert_eq!(app.progress_bar_color(), HighlightColor::LightRed);
    key(&mut app, KeyCode::Char('c'));
    assert_eq!(app.progress_bar_color(), HighlightColor::Green);
    assert!(!app.should_exit());
    assert_eq!(app.active_tab(), 0);
}

#[test]
fn tab_key_twice_returns_to_the_first_tab() {
    let mut app = app_with(Vec::new());
    key(&mut app, KeyCode::Tab);
    assert_eq!(app.active_tab(), 1);
    key(&mut app, KeyCode::Tab);
    assert_eq!(app.active_tab(), 0);
    key(&mut app, KeyCode::Tab);
    assert_eq!(app.active_tab(), 1);
}

#[test]
fn quit_key_asks_to_quit() {
    let mut app = app_with(Vec::new());
    key(&mut app, KeyCode::Char('q'));
    assert!(app.should_exit());
    assert_eq!(app.progress_bar_color(), HighlightColor::Green);
    assert_eq!(app.active_tab(), 0);
}

#[test]
fn other_keys_do_nothing_on_the_dashboard() {
    let mut app = app_with(sample_tasks());
    for code in [
        KeyCode::Char('x'),
        KeyCode::Char('Q'),
        KeyCode::Char('e'),
        KeyCode::Char('d'),
        KeyCode::Enter,
        KeyCode::Esc,
        KeyCode::Backspace,
        KeyCode::Up,
        KeyCode::Down,
        KeyCode::Other,
    ] {
        key(&mut app, code);
        assert!(!app.should_exit());
        assert_eq!(app.progress_bar_color(), HighlightColor::Green);
        assert_eq!(app.active_tab(), 0);
        assert!(!app.popup().is_active());
        assert_eq!(app.popup().list_cursor(), None);
        assert_eq!(names(&app).len(), 2);
    }
}

#[test]
fn keys_that_did_not_go_down_are_ignored() {
    let mut app = app_with(Vec::new());
    for kind in [KeyEventKind::Release, KeyEventKind::Repeat] {
        app.handle_key_event(KeyEvent { code: KeyCode::Char('q'), kind });
        app.handle_key_event(KeyEvent { code: KeyCode::Char('c'), kind });
        app.handle_key_event(KeyEvent { code: KeyCode::Tab, kind });
        app.handle_key_event(KeyEvent { code: KeyCode::Popup, kind });
    }
    assert!(!app.should_exit());
    assert_eq!(app.progress_bar_color(), HighlightColor::Green);
    assert_eq!(app.active_tab(), 0);
    assert!(!app.popup().is_active());
}

#[test]
fn progress_event_sets_the_background_progress() {
    let mut app = app_with(Vec::new());
    app.handle_event(Event::Progress(37));
    assert_eq!(app.background_progress(), 37);
    app.handle_event(Event::Progress(100));
    assert_eq!(app.background_progress(), 100);
    app.handle_event(Event::Progress(5));
    assert_eq!(app.background_progress(), 5);
}

#[test]
fn progress_beyond_a_full_gauge_is_cut_off() {
    let mut app = app_with(Vec::new());
    app.handle_event(Event::Progress(101));
    assert_eq!(app.background_progress(), 100);
    app.handle_event(Event::Progress(255));
    assert_eq!(app.background_progress(), 100);
}

#[test]
fn input_event_is_handled_as_a_key() {
    let mut app = app_with(Vec::new());
    app.handle_event(Event::Input(KeyEvent::press(KeyCode::Char('c'))));
    assert_eq!(app.progress_bar_color(), HighlightColor::Yellow);
}

#[test]
fn popup_key_opens_the_popup() {
    let mut app = app_with(sample_tasks());
    key(&mut app, KeyCode::Popup);
    assert!(app.popup().is_active());
    assert_eq!(app.popup().input_mode(), InputMode::Normal);
    assert_eq!(app.popup().input(), "");
}

#[test]
fn open_popup_gets_every_key() {
    let mut app = app_with(sample_tasks());
    app.toggle_popup();
    key(&mut app, KeyCode::Char('q'));
    key(&mut app, KeyCode::Tab);
    key(&mut app, KeyCode::Popup);
    assert!(!app.should_exit());
    assert_eq!(app.active_tab(), 0);
    assert!(app.popup().is_active());
    key(&mut app, KeyCode::Char('c'));
    assert_eq!(app.progress_bar_color(), HighlightColor::Green);
    assert_eq!(app.popup().input_mode(), InputMode::Editing);
    assert_eq!(app.popup().command(), Command::Create);
    key(&mut app, KeyCode::Char('q'));
    assert!(!app.should_exit());
    assert_eq!(app.popup().input(), "q");
}

#[test]
fn navigation_in_the_open_popup_runs_over_the_operators_tasks() {
    let mut app = app_with(sample_tasks());
    app.toggle_popup();
    assert_eq!(app.popup().list_cursor(), None);
    key(&mut app, KeyCode::Down);
    assert_eq!(app.popup().list_cursor(), Some(0));
    key(&mut app, KeyCode::Down);
    assert_eq!(app.popup().list_cursor(), Some(1));
    key(&mut app, KeyCode::Down);
    assert_eq!(app.popup().list_cursor(), Some(0));
    key(&mut app, KeyCode::Up);
    assert_eq!(app.popup().list_cursor(), Some(1));
}

#[test]
fn delete_key_removes_the_selected_task_and_clears_the_selection() {
    let mut app = app_with(sample_tasks());
    app.toggle_popup();
    key(&mut app, KeyCode::Down);
    key(&mut app, KeyCode::Down);
    assert_eq!(app.popup().selected_task(), Some(1));
    key(&mut app, KeyCode::Char('d'));
    assert_eq!(names(&app), vec!["Write report"]);
    assert_eq!(app.popup().selected_task(), None);
    assert_eq!(app.popup().list_cursor(), Some(0));
    assert_eq!(app.popup().input_mode(), InputMode::Normal);
    assert!(app.popup().is_active());
    let left = &app.data().profile.tasks[0];
    assert_eq!(left.progress, 40);
    assert_eq!(left.timer, 120);
    assert_eq!(left.id, 0);
}

#[test]
fn delete_key_after_a_deletion_needs_a_new_selection() {
    let mut app = app_with(sample_tasks());
    app.toggle_popup();
    key(&mut app, KeyCode::Down);
    key(&mut app, KeyCode::Char('d'));
    assert_eq!(names(&app), vec!["Review PR"]);
    key(&mut app, KeyCode::Char('d'));
    assert_eq!(names(&app), vec!["Review PR"]);
    key(&mut app, KeyCode::Down);
    key(&mut app, KeyCode::Char('d'));
    assert!(names(&app).is_empty());
    assert_eq!(app.popup().list_cursor(), None);
    assert_eq!(app.popup().selected_task(), None);
    key(&mut app, KeyCode::Down);
    key(&mut app, KeyCode::Char('d'));
    key(&mut app, KeyCode::Char('e'));
    assert!(names(&app).is_empty());
    assert_eq!(app.popup().list_cursor(), None);
    assert_eq!(app.popup().input_mode(), InputMode::Normal);
}

#[test]
fn create_flow_appends_a_fresh_task() {
    let mut app = app_with(sample_tasks());
    app.toggle_popup();
    key(&mut app, KeyCode::Char('c'));
    type_into(&mut app, "Plan sprint");
    assert_eq!(names(&app).len(), 2);
    key(&mut app, KeyCode::Enter);
    assert_eq!(names(&app), vec!["Write report", "Review PR", "Plan sprint"]);
    let task = &app.data().profile.tasks[2];
    assert_eq!(task.progress, 0);
    assert_eq!(task.timer, 0);
    assert_eq!(task.id, 2);
    assert_eq!(app.popup().input_mode(), InputMode::Normal);
    assert!(app.popup().is_active());
}

#[test]
fn create_flow_with_an_empty_name_creates_nothing() {
    let mut app = app_with(sample_tasks());
    app.toggle_popup();
    key(&mut app, KeyCode::Char('c'));
    key(&mut app, KeyCode::Enter);
    assert_eq!(names(&app).len(), 2);
    assert_eq!(app.popup().input_mode(), InputMode::Editing);
    assert_eq!(app.popup().command(), Command::Create);
}

#[test]
fn update_flow_renames_the_selected_task_only() {
    let mut app = app_with(sample_tasks());
    app.toggle_popup();
    key(&mut app, KeyCode::Down);
    key(&mut app, KeyCode::Down);
    key(&mut app, KeyCode::Char('e'));
    type_into(&mut app, "Review pull request");
    key(&mut app, KeyCode::Enter);
    assert_eq!(names(&app), vec!["Write report", "Review pull request"]);
    let task = &app.data().profile.tasks[1];
    assert_eq!(task.progress, 90);
    assert_eq!(task.timer, 10);
    assert_eq!(task.id, 1);
    assert_eq!(app.popup().selected_task(), Some(1));
}

#[test]
fn aborted_edit_changes_no_task() {
    let mut app = app_with(sample_tasks());
    app.toggle_popup();
    key(&mut app, KeyCode::Down);
    key(&mut app, KeyCode::Char('e'));
    type_into(&mut app, "never");
    key(&mut app, KeyCode::Esc);
    assert_eq!(names(&app), vec!["Write report", "Review PR"]);
    assert!(app.popup().is_active());
    assert_eq!(app.popup().input_mode(), InputMode::Normal);
    assert_eq!(app.popup().command(), Command::Nothing);
}

#[test]
fn esc_in_normal_mode_closes_the_popup() {
    let mut app = app_with(sample_tasks());
    app.toggle_popup();
    key(&mut app, KeyCode::Down);
    key(&mut app, KeyCode::Esc);
    assert!(!app.popup().is_active());
    assert_eq!(app.popup().list_cursor(), Some(0));
    key(&mut app, KeyCode::Char('q'));
    assert!(app.should_exit());
}

#[test]
fn apply_command_ignores_an_index_outside_the_list() {
    let mut app = app_with(sample_tasks());
    app.apply_command(Command::Delete(2));
    app.apply_command(Command::Update(2));
    app.apply_command(Command::Delete(usize::MAX));
    assert_eq!(names(&app), vec!["Write report", "Review PR"]);
}

#[test]
fn apply_command_deletes_and_brings_the_cursor_back() {
    let mut app = app_with(sample_tasks());
    app.toggle_popup();
    key(&mut app, KeyCode::Down);
    key(&mut app, KeyCode::Down);
    app.apply_command(Command::Delete(0));
    assert_eq!(names(&app), vec!["Review PR"]);
    assert_eq!(app.popup().selected_task(), None);
    assert_eq!(app.popup().list_cursor(), Some(0));
}

#[test]
fn apply_command_nothing_closes_an_open_popup_only() {
    let mut app = app_with(Vec::new());
    app.apply_command(Command::Nothing);
    assert!(!app.popup().is_active());
    app.toggle_popup();
    app.apply_command(Command::Nothing);
    assert!(!app.popup().is_active());
}

#[test]
fn toggle_popup_opens_and_closes() {
    let mut app = app_with(Vec::new());
    app.toggle_popup();
    assert!(app.popup().is_active());
    app.toggle_popup();
    assert!(!app.popup().is_active());
}

#[test]
fn run_consumes_events_until_asked_to_quit() {
    let mut app = app_with(Vec::new());
    let events = vec![
        Event::Input(KeyEvent::press(KeyCode::Char('c'))),
        Event::Progress(1),
        Event::Input(KeyEvent::press(KeyCode::Char('q'))),
        Event::Input(KeyEvent::press(KeyCode::Char('c'))),
        Event::Progress(2),
    ];
    assert_eq!(app.run(&events), 3);
    assert!(app.should_exit());
    assert_eq!(app.progress_bar_color(), HighlightColor::Yellow);
    assert_eq!(app.background_progress(), 1);
    assert_eq!(app.run(&events), 0);
    assert_eq!(app.progress_bar_color(), HighlightColor::Yellow);
}

#[test]
fn run_consumes_every_event_when_never_asked_to_quit() {
    let mut app = app_with(sample_tasks());
    let events = vec![
        Event::Input(KeyEvent::press(KeyCode::Tab)),
        Event::Progress(50),
        Event::Input(KeyEvent { code: KeyCode::Char('q'), kind: KeyEventKind::Release }),
        Event::Input(KeyEvent::press(KeyCode::Popup)),
        Event::Input(KeyEvent::press(KeyCode::Char('q'))),
    ];
    assert_eq!(app.run(&events), 5);
    assert!(!app.should_exit());
    assert_eq!(app.active_tab(), 1);
    assert_eq!(app.background_progress(), 50);
    assert!(app.popup().is_active());
    assert_eq!(app.run(&Vec::new()), 0);
}

#[test]
fn run_carries_a_whole_popup_session() {
    let mut app = app_with(sample_tasks());
    let mut events = vec![
        Event::Input(KeyEvent::press(KeyCode::Popup)),
        Event::Input(KeyEvent::press(KeyCode::Char('c'))),
    ];
    for c in "Tea".chars() {
        events.push(Event::Input(KeyEvent::press(KeyCode::Char(c))));
    }
    events.push(Event::Input(KeyEvent::press(KeyCode::Backspace)));
    events.push(Event::Input(KeyEvent::press(KeyCode::Char('a'))));
    events.push(Event::Input(KeyEvent::press(KeyCode::Enter)));
    events.push(Event::Input(KeyEvent::press(KeyCode::Esc)));
    events.push(Event::Input(KeyEvent::press(KeyCode::Char('q'))));
    assert_eq!(app.run(&events), events.len());
    assert!(app.should_exit());
    assert_eq!(names(&app), vec!["Write report", "Review PR", "Tea"]);
}

use shtask::adapters::in_memory::{InMemoryTaskListRepository, SeqIdGenerator};
use shtask::adapters::tui_app::{App, Highlight, Interaction, Key, Mode, Panel};
use shtask::application::create_task_list::CreateTaskList;
use shtask::application::ports::TaskListRepository;
use shtask::application::task_commands::{AddTask, CompleteTask, ListTasks};
use shtask::domain::colour_theme::{ColourTheme, NamedColor};

type TestApp = App<InMemoryTaskListRepository, SeqIdGenerator>;

fn empty_app() -> TestApp {
    empty_app_with_theme(ColourTheme::default())
}

fn empty_app_with_theme(theme: ColourTheme) -> TestApp {
    let repo = InMemoryTaskListRepository::new();
    let ids = SeqIdGenerator::new();
    let mut app = App::new(repo, ids, theme);
    app.load_once().unwrap();
    app
}

fn seeded_app() -> TestApp {
    seeded_app_with_theme(ColourTheme::default())
}

fn seeded_app_with_theme(theme: ColourTheme) -> TestApp {
    let mut repo = InMemoryTaskListRepository::new();
    let ids = SeqIdGenerator::new();

    let work = {
        let mut create = CreateTaskList::new(&mut repo, &ids);
        create.execute("work").unwrap()
    };
    AddTask::new(&mut repo).execute(&work, "milk").unwrap();
    CompleteTask::new(&mut repo).execute(&work, "milk").unwrap();
    AddTask::new(&mut repo).execute(&work, "bread").unwrap();

    let home = {
        let mut create = CreateTaskList::new(&mut repo, &ids);
        create.execute("home").unwrap()
    };
    AddTask::new(&mut repo).execute(&home, "laundry").unwrap();

    let mut app = App::new(repo, ids, theme);
    app.load_once().unwrap();
    app
}

fn press_text(app: &mut TestApp, start: Key, text: &str) {
    app.handle_key(start).unwrap();
    for c in text.chars() {
        app.handle_key(Key::Char(c)).unwrap();
    }
}

fn list_names(app: &TestApp) -> Vec<String> {
    app.repo()
        .all()
        .unwrap()
        .iter()
        .map(|l| l.name().to_string())
        .collect()
}

fn task_titles(app: &TestApp, list_index: usize) -> Vec<String> {
    let list = &app.lists()[list_index];
    ListTasks::new(app.repo())
        .execute(list.id())
        .unwrap()
        .iter()
        .map(|t| t.title().to_string())
        .collect()
}

fn panel_text(panel: &Panel) -> String {
    let mut text = panel.title.clone();
    text.push('\n');
    for row in &panel.rows {
        text.push_str(&row.text);
        text.push('\n');
    }
    text
}

/// Everything the screen shows: both panels, the status line and the key bar.
fn render_text(app: &TestApp) -> String {
    let mut text = panel_text(&app.lists_panel());
    text.push_str(&panel_text(&app.tasks_panel()));
    text.push_str(&app.status_text());
    text.push('\n');
    text.push_str(&app.hotkey_text());
    text
}

fn render_hotkey_text(app: &TestApp) -> String {
    app.hotkey_text()
}

/// Whether a panel draws anything in `color`: its border and title, or a line.
fn panel_has_fg(panel: &Panel, color: NamedColor) -> bool {
    panel.border == Some(color) || panel.rows.iter().any(|r| r.color == Some(color))
}

fn lists_area_has_fg(app: &TestApp, color: NamedColor) -> bool {
    panel_has_fg(&app.lists_panel(), color)
        || (app.lists_panel().selected.is_some()
            && matches!(app.highlight(), Highlight::Colors { fg, .. } if fg == color))
}

fn tasks_area_has_fg(app: &TestApp, color: NamedColor) -> bool {
    panel_has_fg(&app.tasks_panel(), color)
        || (app.tasks_panel().selected.is_some()
            && matches!(app.highlight(), Highlight::Colors { fg, .. } if fg == color))
}

#[test]
fn help_view_lists_keys_and_esc_closes_it() {
    let mut app = seeded_app();

    app.handle_key(Key::Char('?')).unwrap();
    let text = render_text(&app);

    assert!(text.contains("List mode"));
    assert!(text.contains("n new list"));
    assert!(text.contains("r rename list"));
    assert!(text.contains("d delete list"));
    assert!(text.contains("Enter/Right/Tab open tasks"));
    assert!(text.contains("q quit"));

    app.handle_key(Key::Esc).unwrap();
    let text = render_text(&app);

    assert!(!text.contains("List mode"));
    assert!(text.contains("No task list open"));
}

#[test]
fn creates_task_list_from_list_mode() {
    let mut app = empty_app();

    press_text(&mut app, Key::Char('n'), "work");
    app.handle_key(Key::Enter).unwrap();

    assert_eq!(list_names(&app), vec!["work"]);
    assert_eq!(app.selected_list(), 0);
    assert!(render_text(&app).contains("work"));
}

#[test]
fn renames_selected_task_list_and_preserves_tasks() {
    let mut app = seeded_app();

    press_text(&mut app, Key::Char('r'), "office");
    app.handle_key(Key::Enter).unwrap();

    assert_eq!(list_names(&app), vec!["office", "home"]);
    assert_eq!(task_titles(&app, 0), vec!["milk", "bread"]);
}

#[test]
fn deletes_selected_task_list_after_confirmation() {
    let mut app = seeded_app();

    app.handle_key(Key::Char('d')).unwrap();
    assert!(render_text(&app).contains("Delete list"));
    app.handle_key(Key::Char('y')).unwrap();

    assert_eq!(list_names(&app), vec!["home"]);
    assert_eq!(app.selected_list(), 0);
}

#[test]
fn navigates_tasks_independently_from_lists() {
    let mut app = seeded_app();

    app.handle_key(Key::Enter).unwrap();
    assert_eq!(app.selected_task(), 0);
    app.handle_key(Key::Down).unwrap();
    assert_eq!(app.selected_task(), 1);
    app.handle_key(Key::Up).unwrap();
    assert_eq!(app.selected_task(), 0);

    let text = render_text(&app);
    assert!(text.contains("Task Lists"));
    assert!(text.contains("Tasks"));
    assert!(text.contains("✓ milk"));
    assert!(text.contains("☐ bread"));
}

#[test]
fn arrow_keys_render_explicit_selection_feedback() {
    let mut app = seeded_app();

    app.handle_key(Key::Down).unwrap();
    let text = render_text(&app);
    assert!(text.contains("List 2/2: home"));

    app.handle_key(Key::Up).unwrap();
    let text = render_text(&app);
    assert!(text.contains("List 1/2: work"));

    app.handle_key(Key::Enter).unwrap();
    app.handle_key(Key::Down).unwrap();
    let text = render_text(&app);
    assert!(text.contains("Task 2/2: bread"));
}

#[test]
fn arrow_keys_wrap_at_list_and_task_boundaries() {
    let mut app = seeded_app();

    app.handle_key(Key::Up).unwrap();
    assert_eq!(app.selected_list(), 1);
    assert!(render_text(&app).contains("List 2/2: home"));

    app.handle_key(Key::Down).unwrap();
    assert_eq!(app.selected_list(), 0);
    assert!(render_text(&app).contains("List 1/2: work"));

    app.handle_key(Key::Enter).unwrap();
    app.handle_key(Key::Up).unwrap();
    assert_eq!(app.selected_task(), 1);
    assert!(render_text(&app).contains("Task 2/2: bread"));

    app.handle_key(Key::Down).unwrap();
    assert_eq!(app.selected_task(), 0);
    assert!(render_text(&app).contains("Task 1/2: milk"));
}

#[test]
fn creates_task_in_open_task_list() {
    let mut app = seeded_app();

    app.handle_key(Key::Down).unwrap();
    app.handle_key(Key::Enter).unwrap();
    press_text(&mut app, Key::Char('n'), "dishes");
    app.handle_key(Key::Enter).unwrap();

    assert_eq!(task_titles(&app, 1), vec!["laundry", "dishes"]);
    assert!(render_text(&app).contains("☐ dishes"));
}

#[test]
fn renames_selected_task() {
    let mut app = seeded_app();

    app.handle_key(Key::Enter).unwrap();
    press_text(&mut app, Key::Char('r'), "buy milk");
    app.handle_key(Key::Enter).unwrap();

    assert_eq!(task_titles(&app, 0), vec!["buy milk", "bread"]);
    assert!(render_text(&app).contains("buy milk"));
    assert!(!task_titles(&app, 0).contains(&"milk".to_string()));
}

#[test]
fn deletes_selected_task_after_confirmation() {
    let mut app = seeded_app();

    app.handle_key(Key::Enter).unwrap();
    app.handle_key(Key::Char('d')).unwrap();
    assert!(render_text(&app).contains("Delete task"));
    app.handle_key(Key::Char('y')).unwrap();

    assert_eq!(task_titles(&app, 0), vec!["bread"]);
    assert_eq!(app.selected_task(), 0);
}

#[test]
fn completes_selected_task_and_refreshes_list_badge() {
    let mut app = seeded_app();

    app.handle_key(Key::Down).unwrap();
    app.handle_key(Key::Enter).unwrap();
    app.handle_key(Key::Char(' ')).unwrap();

    assert!(app.lists()[1].is_completed());
    assert_eq!(task_titles(&app, 1), vec!["laundry"]);
    assert!(render_text(&app).contains("✓ home"));
}

#[test]
fn invalid_duplicate_and_cancelled_edits_do_not_mutate_repository() {
    let mut app = seeded_app();

    press_text(&mut app, Key::Char('n'), "work");
    app.handle_key(Key::Enter).unwrap();
    assert_eq!(list_names(&app), vec!["work", "home"]);
    assert!(render_text(&app).contains("List name already exists"));

    press_text(&mut app, Key::Char('n'), "draft");
    app.handle_key(Key::Esc).unwrap();
    assert_eq!(list_names(&app), vec!["work", "home"]);
    assert!(render_text(&app).contains("Cancelled"));

    app.handle_key(Key::Char('d')).unwrap();
    app.handle_key(Key::Esc).unwrap();
    assert_eq!(list_names(&app), vec!["work", "home"]);
}

#[test]
fn validation_errors_render_as_user_facing_status_text() {
    let mut app = seeded_app();

    app.handle_key(Key::Char('n')).unwrap();
    app.handle_key(Key::Enter).unwrap();
    let text = render_text(&app);
    assert!(text.contains("List name is required"));
    assert!(!text.contains("EmptyName"));

    app.handle_key(Key::Enter).unwrap();
    app.handle_key(Key::Char('n')).unwrap();
    app.handle_key(Key::Enter).unwrap();
    let text = render_text(&app);
    assert!(text.contains("Task title is required"));
    assert!(!text.contains("EmptyTitle"));

    press_text(&mut app, Key::Char('n'), "milk");
    app.handle_key(Key::Enter).unwrap();
    let text = render_text(&app);
    assert!(text.contains("Task title already exists"));
    assert!(!text.contains("DuplicateTitle"));
}

#[test]
fn right_arrow_opens_tasks_panel() {
    let mut app = seeded_app();
    assert_eq!(app.mode(), Mode::Lists);

    app.handle_key(Key::Right).unwrap();

    assert_eq!(app.mode(), Mode::Tasks(0));
    let text = render_text(&app);
    assert!(text.contains("milk") && text.contains("bread"));
}

#[test]
fn left_arrow_returns_to_lists() {
    let mut app = seeded_app();
    app.handle_key(Key::Enter).unwrap();
    assert!(matches!(app.mode(), Mode::Tasks(_)));

    app.handle_key(Key::Left).unwrap();

    assert_eq!(app.mode(), Mode::Lists);
    assert!(render_text(&app).contains("No task list open"));
}

#[test]
fn right_and_enter_are_equivalent() {
    let mut app = seeded_app();

    app.handle_key(Key::Enter).unwrap();
    let mode_after_enter = app.mode();

    app.handle_key(Key::Esc).unwrap();
    app.handle_key(Key::Right).unwrap();
    let mode_after_right = app.mode();

    assert_eq!(mode_after_enter, mode_after_right);
}

#[test]
fn left_and_esc_are_equivalent() {
    let mut app = seeded_app();

    app.handle_key(Key::Enter).unwrap();
    app.handle_key(Key::Esc).unwrap();
    let mode_after_esc = app.mode();

    app.handle_key(Key::Enter).unwrap();
    app.handle_key(Key::Left).unwrap();
    let mode_after_left = app.mode();

    assert_eq!(mode_after_esc, mode_after_left);
    assert_eq!(mode_after_left, Mode::Lists);
}

#[test]
fn right_is_noop_when_no_lists() {
    let mut app = empty_app();
    assert_eq!(app.mode(), Mode::Lists);

    app.handle_key(Key::Right).unwrap();

    assert_eq!(app.mode(), Mode::Lists);
}

#[test]
fn q_in_editing_mode_appends_to_input_not_quit() {
    let mut app = seeded_app();
    app.handle_key(Key::Char('n')).unwrap();
    assert!(matches!(app.interaction(), Interaction::Editing(_)));

    let quit = app.handle_key(Key::Char('q')).unwrap();

    assert!(!quit, "expected Ok(false) — app should not quit while editing");
    assert_eq!(app.input(), "q");
}

#[test]
fn termotanque_in_editing_mode_fills_input_buffer() {
    let mut app = seeded_app();
    app.handle_key(Key::Char('n')).unwrap();

    for c in "termotanque".chars() {
        let quit = app.handle_key(Key::Char(c)).unwrap();
        assert!(!quit, "char '{c}' should not quit while editing");
    }

    assert_eq!(app.input(), "termotanque");
}

#[test]
fn q_in_confirming_mode_does_not_quit() {
    let mut app = seeded_app();
    app.handle_key(Key::Char('d')).unwrap();
    assert!(matches!(app.interaction(), Interaction::Confirming(_)));

    let quit = app.handle_key(Key::Char('q')).unwrap();

    assert!(!quit, "expected Ok(false) — app should not quit while confirming");
    assert!(
        matches!(app.interaction(), Interaction::Confirming(_)),
        "interaction should stay Confirming"
    );
}

#[test]
fn q_in_normal_mode_quits() {
    let mut app = seeded_app();
    assert_eq!(app.interaction(), Interaction::Idle);

    let quit = app.handle_key(Key::Char('q')).unwrap();

    assert!(quit, "expected Ok(true) — q should quit in normal mode");
}

#[test]
fn navigation_keys_inactive_during_editing() {
    let mut app = seeded_app();
    let mode_before = app.mode();
    let selected_before = app.selected_list();
    app.handle_key(Key::Char('n')).unwrap();

    let r1 = app.handle_key(Key::Up).unwrap();
    let r2 = app.handle_key(Key::Down).unwrap();
    let r3 = app.handle_key(Key::Enter).unwrap();

    assert!(!r1 && !r2 && !r3, "Up/Down/Enter should return Ok(false) while editing");
    assert_eq!(app.selected_list(), selected_before);
    assert_eq!(app.mode(), mode_before);
}

#[test]
fn lists_panel_border_is_cyan_in_lists_mode() {
    let app = seeded_app();
    assert_eq!(app.mode(), Mode::Lists);

    assert!(lists_area_has_fg(&app, NamedColor::LightCyan), "lists border should be LightCyan in Lists mode");
    assert!(!tasks_area_has_fg(&app, NamedColor::LightCyan), "tasks border should NOT be LightCyan in Lists mode");
}

#[test]
fn tasks_panel_border_is_cyan_in_tasks_mode() {
    let mut app = seeded_app();
    app.handle_key(Key::Enter).unwrap();
    assert!(matches!(app.mode(), Mode::Tasks(_)));

    assert!(tasks_area_has_fg(&app, NamedColor::LightCyan), "tasks border should be LightCyan in Tasks mode");
    assert!(!lists_area_has_fg(&app, NamedColor::LightCyan), "lists border should NOT be LightCyan in Tasks mode");
}

#[test]
fn cyan_tracks_mode_toggle() {
    let mut app = seeded_app();

    assert!(lists_area_has_fg(&app, NamedColor::LightCyan));
    assert!(!tasks_area_has_fg(&app, NamedColor::LightCyan));

    app.handle_key(Key::Enter).unwrap();
    assert!(tasks_area_has_fg(&app, NamedColor::LightCyan));
    assert!(!lists_area_has_fg(&app, NamedColor::LightCyan));

    app.handle_key(Key::Esc).unwrap();
    assert!(lists_area_has_fg(&app, NamedColor::LightCyan));
    assert!(!tasks_area_has_fg(&app, NamedColor::LightCyan));
}

#[test]
fn tab_opens_tasks_panel_from_lists() {
    let mut app = seeded_app();
    assert_eq!(app.mode(), Mode::Lists);
    app.handle_key(Key::Tab).unwrap();
    assert_eq!(app.mode(), Mode::Tasks(0));
    let text = render_text(&app);
    assert!(text.contains("milk") && text.contains("bread"));
}

#[test]
fn tab_returns_to_lists_from_tasks() {
    let mut app = seeded_app();
    app.handle_key(Key::Enter).unwrap();
    app.handle_key(Key::Tab).unwrap();
    assert_eq!(app.mode(), Mode::Lists);
    assert!(render_text(&app).contains("No task list open"));
}

#[test]
fn tab_cycles_forward_then_back() {
    let mut app = seeded_app();
    app.handle_key(Key::Tab).unwrap();
    assert!(matches!(app.mode(), Mode::Tasks(_)));
    app.handle_key(Key::Tab).unwrap();
    assert_eq!(app.mode(), Mode::Lists);
}

#[test]
fn tab_is_noop_when_no_lists() {
    let mut app = empty_app();
    app.handle_key(Key::Tab).unwrap();
    assert_eq!(app.mode(), Mode::Lists);
}

#[test]
fn help_screen_mentions_tab() {
    let mut app = seeded_app();
    app.handle_key(Key::Char('?')).unwrap();
    let text = render_text(&app);
    assert!(text.contains("Tab"), "help screen should mention Tab");
}

#[test]
fn shift_tab_returns_to_lists_from_tasks() {
    let mut app = seeded_app();
    app.handle_key(Key::Enter).unwrap();
    app.handle_key(Key::BackTab).unwrap();
    assert_eq!(app.mode(), Mode::Lists);
}

#[test]
fn shift_tab_opens_tasks_from_lists() {
    let mut app = seeded_app();
    app.handle_key(Key::BackTab).unwrap();
    assert_eq!(app.mode(), Mode::Tasks(0));
}

#[test]
fn hotkey_bar_lists_mode_shows_open_tasks_hint() {
    let app = seeded_app();
    let row = render_hotkey_text(&app);
    assert!(row.contains("n: new"), "hotkey bar: n: new");
    assert!(row.contains("Enter/Tab: open tasks"), "hotkey bar: Enter/Tab: open tasks");
    assert!(row.contains("q: quit"), "hotkey bar: q: quit");
}

#[test]
fn hotkey_bar_tasks_mode_shows_toggle_hint() {
    let mut app = seeded_app();
    app.handle_key(Key::Enter).unwrap();
    let row = render_hotkey_text(&app);
    assert!(row.contains("Space: toggle"), "hotkey bar: Space: toggle");
    assert!(row.contains("Esc/Tab: lists"), "hotkey bar: Esc/Tab: lists");
}

#[test]
fn hotkey_bar_editing_shows_submit_cancel() {
    let mut app = seeded_app();
    app.handle_key(Key::Char('n')).unwrap();
    let row = render_hotkey_text(&app);
    assert!(row.contains("Enter: submit"), "hotkey bar: Enter: submit");
    assert!(row.contains("Esc: cancel"), "hotkey bar: Esc: cancel");
    assert!(!row.contains("q: quit"), "hotkey bar: no q: quit while editing");
}

#[test]
fn hotkey_bar_confirming_shows_confirm_cancel() {
    let mut app = seeded_app();
    app.handle_key(Key::Char('d')).unwrap();
    let row = render_hotkey_text(&app);
    assert!(row.contains("y: confirm"), "hotkey bar: y: confirm");
    assert!(row.contains("n/Esc: cancel"), "hotkey bar: n/Esc: cancel");
    assert!(!row.contains("q: quit"), "hotkey bar: no q: quit while confirming");
}

#[test]
fn space_toggles_task_completion() {
    let mut app = seeded_app();
    app.handle_key(Key::Enter).unwrap();
    app.handle_key(Key::Char(' ')).unwrap();
    assert!(!app.tasks()[0].is_completed(), "milk should be incomplete after first Space");
    app.handle_key(Key::Char(' ')).unwrap();
    assert!(app.tasks()[0].is_completed(), "milk should be complete after second Space");
}

#[test]
fn status_and_help_say_toggle_complete() {
    let mut app = seeded_app();
    app.handle_key(Key::Enter).unwrap();
    app.handle_key(Key::Down).unwrap();
    let text = render_text(&app);
    assert!(text.contains("toggle complete"), "status bar should say toggle complete");

    app.handle_key(Key::Char('?')).unwrap();
    let help_text = render_text(&app);
    assert!(help_text.contains("Space toggle complete"), "help should say Space toggle complete");
}

#[test]
fn completed_task_renders_with_completed_task_fg() {
    let mut app = seeded_app();
    app.handle_key(Key::Enter).unwrap();
    assert!(tasks_area_has_fg(&app, NamedColor::Green));
}

#[test]
fn default_theme_lists_border_is_cyan_in_lists_mode() {
    let app = seeded_app();
    assert!(lists_area_has_fg(&app, NamedColor::LightCyan));
    assert!(!tasks_area_has_fg(&app, NamedColor::LightCyan));
}

#[test]
fn custom_theme_active_border_color_applied() {
    let theme = ColourTheme {
        active_panel_border: NamedColor::Green,
        ..ColourTheme::default()
    };
    let app = seeded_app_with_theme(theme);
    assert!(lists_area_has_fg(&app, NamedColor::Green), "lists border should be Green");
}

#[test]
fn default_theme_selected_row_uses_reversed_modifier() {
    let app = seeded_app();
    assert!(
        app.lists_panel().selected.is_some() && app.highlight() == Highlight::Reversed,
        "selected row should have REVERSED modifier with default theme"
    );
}

#[test]
fn custom_theme_selected_row_explicit_colors_applied() {
    let theme = ColourTheme {
        selected_item_fg: NamedColor::Black,
        selected_item_bg: NamedColor::Yellow,
        selected_item_reverse: false,
        ..ColourTheme::default()
    };
    let app = seeded_app_with_theme(theme);
    let highlight = app.highlight();
    assert!(
        app.lists_panel().selected.is_some()
            && matches!(highlight, Highlight::Colors { bg: NamedColor::Yellow, .. }),
        "selected row bg should be Yellow"
    );
    assert!(lists_area_has_fg(&app, NamedColor::Black), "selected row fg should be Black");
}

#[test]
fn selection_marker_follows_selected_list() {
    let mut app = seeded_app();
    let panel = app.lists_panel();
    assert_eq!(panel.rows[0].text, ">> pending work");
    assert_eq!(panel.rows[1].text, "   pending home");
    app.handle_key(Key::Down).unwrap();
    let panel = app.lists_panel();
    assert_eq!(panel.selected, Some(1));
    assert_eq!(panel.rows[1].text, ">> pending home");
}

#[test]
fn nothing_to_rename_or_delete_without_lists() {
    let mut app = empty_app();
    app.handle_key(Key::Char('r')).unwrap();
    assert_eq!(app.status(), "Nothing to rename");
    app.handle_key(Key::Char('d')).unwrap();
    assert_eq!(app.status(), "Nothing to delete");
    assert_eq!(app.interaction(), Interaction::Idle);
    assert_eq!(app.status_text(), "Nothing to delete");
}

#[test]
fn empty_app_describes_empty_selection() {
    let app = empty_app();
    assert_eq!(app.status_text(), "No task lists | n: new list | ?: help | q: quit");
    assert_eq!(app.lists_panel().rows[0].text, "No task lists");
}

#[test]
fn backspace_and_trimmed_submission() {
    let mut app = empty_app();
    press_text(&mut app, Key::Char('n'), "  workx");
    app.handle_key(Key::Backspace).unwrap();
    assert_eq!(app.input(), "  work");
    app.handle_key(Key::Char('\u{7}')).unwrap();
    assert_eq!(app.input(), "  work");
    app.handle_key(Key::Enter).unwrap();
    assert_eq!(list_names(&app), vec!["work"]);
    assert_eq!(app.status(), "Created list work");
    assert_eq!(app.input(), "");
}

#[test]
fn confirmation_accepts_capital_y_and_n() {
    let mut app = seeded_app();
    app.handle_key(Key::Char('d')).unwrap();
    app.handle_key(Key::Char('N')).unwrap();
    assert_eq!(app.status(), "Cancelled");
    assert_eq!(list_names(&app), vec!["work", "home"]);
    app.handle_key(Key::Char('d')).unwrap();
    app.handle_key(Key::Char('Y')).unwrap();
    assert_eq!(list_names(&app), vec!["home"]);
    assert_eq!(app.status(), "Deleted list");
}

#[test]
fn toggling_in_second_list_keeps_its_panel_and_selection() {
    let mut app = seeded_app();
    app.handle_key(Key::Down).unwrap();
    app.handle_key(Key::Enter).unwrap();
    assert_eq!(app.mode(), Mode::Tasks(1));
    assert_eq!(app.handle_key(Key::Char(' ')), Ok(false));
    assert_eq!(app.mode(), Mode::Tasks(1));
    assert_eq!(app.selected_list(), 1);
    assert_eq!(app.selected_task(), 0);
    assert_eq!(app.tasks()[0].title(), "laundry");
    assert!(app.tasks()[0].is_completed());
    assert_eq!(app.status(), "Completed task");
}

#[test]
fn adding_task_in_second_list_shows_that_list() {
    let mut app = seeded_app();
    app.handle_key(Key::Down).unwrap();
    app.handle_key(Key::Enter).unwrap();
    press_text(&mut app, Key::Char('n'), "dishes");
    assert_eq!(app.handle_key(Key::Enter), Ok(false));
    assert_eq!(app.mode(), Mode::Tasks(1));
    assert_eq!(app.selected_list(), 1);
    let titles: Vec<&str> = app.tasks().iter().map(|t| t.title()).collect();
    assert_eq!(titles, vec!["laundry", "dishes"]);
    assert_eq!(app.selected_task(), 1);
}

#[test]
fn keys_without_repository_work_answer_ok_false() {
    let mut app = seeded_app();
    for key in [Key::Esc, Key::Left, Key::Up, Key::Down, Key::Other, Key::Char('x')] {
        assert_eq!(app.handle_key(key), Ok(false));
    }
    assert_eq!(app.handle_key(Key::Char('n')), Ok(false));
    assert_eq!(app.handle_key(Key::Char('q')), Ok(false));
    assert_eq!(app.handle_key(Key::Backspace), Ok(false));
    assert_eq!(app.handle_key(Key::Esc), Ok(false));
    assert_eq!(app.status(), "Cancelled");
}

#[test]
fn lists_load_in_repository_order() {
    let app = seeded_app();
    let names: Vec<&str> = app.lists().iter().map(|l| l.name()).collect();
    assert_eq!(names, vec!["work", "home"]);
    assert_eq!(app.selection_status(), "List 1/2: work | Enter: tasks | n/r/d: list actions | ?: help | q: quit");
}

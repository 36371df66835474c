use emartident_rust::{
    AppSettings, Application, ChildView, ConfirmDeleteState, Customer, MenuInput, SqliteData,
    TestWindow, ViewKind, Workspace, WorkspaceAction,
};

fn no_clicks() -> MenuInput {
    MenuInput::no_clicks()
}

fn add_click() -> MenuInput {
    MenuInput { add_workspace_clicked: true, ..no_clicks() }
}

fn delete_click() -> MenuInput {
    MenuInput { delete_clicked: true, ..no_clicks() }
}

fn names(app: &Application) -> Vec<String> {
    (0..app.workspace_count()).map(|i| app.workspace(i).name.clone()).collect()
}

#[test]
fn starts_with_welcome_workspace() {
    let app = Application::default();
    assert_eq!(names(&app), vec!["Welcome".to_string()]);
    assert_eq!(app.selected_index(), 0);
    assert_eq!(app.next_workspace_number(), 1);
    assert!(!app.show_last_workspace_delete_warning());
}

#[test]
fn add_workspace_twice_names_and_selects() {
    let mut app = Application::default();
    app.update(None, &add_click());
    app.update(None, &add_click());
    assert_eq!(
        names(&app),
        vec!["Welcome".to_string(), "Workspace1".to_string(), "Workspace2".to_string()]
    );
    assert_eq!(app.selected_index(), 2);
    assert_eq!(app.next_workspace_number(), 3);
}

#[test]
fn each_add_grows_by_one_and_selects_new() {
    let mut app = Application::default();
    for k in 1..=12usize {
        app.update(None, &add_click());
        assert_eq!(app.workspace_count(), 1 + k);
        assert_eq!(app.selected_index(), k);
    }
    assert_eq!(app.workspace(10).name, "Workspace10");
    assert_eq!(app.workspace(12).name, "Workspace12");
}

#[test]
fn delete_sole_workspace_is_blocked() {
    let mut app = Application::default();
    app.update(None, &delete_click());
    assert_eq!(app.workspace_count(), 1);
    assert_eq!(app.workspace(0).confirm_delete_state(), ConfirmDeleteState::Pending);
    assert!(!app.show_last_workspace_delete_warning());
    app.update(None, &delete_click());
    assert_eq!(app.workspace_count(), 1);
    assert!(app.show_last_workspace_delete_warning());
    assert_eq!(app.workspace(0).confirm_delete_state(), ConfirmDeleteState::Idle);
    app.acknowledge_warning();
    assert!(!app.show_last_workspace_delete_warning());
}

#[test]
fn delete_second_of_two_selects_first() {
    let mut app = Application::default();
    app.update(None, &add_click());
    assert_eq!(app.selected_index(), 1);
    app.update(None, &delete_click());
    assert_eq!(app.workspace_count(), 2);
    app.update(None, &delete_click());
    assert_eq!(names(&app), vec!["Welcome".to_string()]);
    assert_eq!(app.selected_index(), 0);
    assert_eq!(app.workspace(0).confirm_delete_state(), ConfirmDeleteState::Idle);
    assert!(!app.show_last_workspace_delete_warning());
}

#[test]
fn delete_middle_workspace_keeps_selection_index() {
    let mut app = Application::default();
    app.update(None, &add_click());
    app.update(None, &add_click());
    app.update(Some(1), &delete_click());
    app.update(None, &delete_click());
    assert_eq!(names(&app), vec!["Welcome".to_string(), "Workspace2".to_string()]);
    assert_eq!(app.selected_index(), 1);
}

#[test]
fn tab_switch_resets_only_that_workspace() {
    let mut app = Application::default();
    app.update(None, &add_click());
    app.update(None, &delete_click());
    app.update(Some(0), &delete_click());
    assert_eq!(app.workspace(0).confirm_delete_state(), ConfirmDeleteState::Pending);
    assert_eq!(app.workspace(1).confirm_delete_state(), ConfirmDeleteState::Pending);
    app.select_workspace(1);
    assert_eq!(app.selected_index(), 1);
    assert_eq!(app.workspace(1).confirm_delete_state(), ConfirmDeleteState::Idle);
    assert_eq!(app.workspace(0).confirm_delete_state(), ConfirmDeleteState::Pending);
}

#[test]
fn tab_switch_between_clicks_restarts_confirmation() {
    let mut app = Application::default();
    app.update(None, &add_click());
    app.update(None, &delete_click());
    app.update(Some(1), &delete_click());
    assert_eq!(app.workspace_count(), 2);
    assert_eq!(app.workspace(1).confirm_delete_state(), ConfirmDeleteState::Pending);
    app.update(None, &delete_click());
    assert_eq!(app.workspace_count(), 1);
}

#[test]
fn tab_click_out_of_range_is_ignored() {
    let mut app = Application::default();
    app.update(Some(5), &no_clicks());
    assert_eq!(app.selected_index(), 0);
    assert_eq!(app.workspace_count(), 1);
}

#[test]
fn workspace_two_clicks_close() {
    let mut ws = Workspace::new_with_name("W".to_string());
    let mut open = true;
    assert_eq!(ws.ui(&mut open, &delete_click()), WorkspaceAction::NoAction);
    assert!(open);
    ws.ui(&mut open, &delete_click());
    assert!(!open);
}

#[test]
fn workspace_reset_between_clicks_keeps_open() {
    let mut ws = Workspace::default();
    assert_eq!(ws.name, "Workspace");
    let mut open = true;
    ws.ui(&mut open, &delete_click());
    ws.reset_confirm_delete();
    ws.ui(&mut open, &delete_click());
    assert!(open);
    assert_eq!(ws.confirm_delete_state(), ConfirmDeleteState::Pending);
}

#[test]
fn add_button_reports_action() {
    let mut ws = Workspace::default();
    let mut open = true;
    assert_eq!(ws.ui(&mut open, &add_click()), WorkspaceAction::AddWorkspace);
    assert!(open);
}

#[test]
fn opening_existing_view_is_noop() {
    let mut ws = Workspace::default();
    let mut open = true;
    let both = MenuInput { open_sqlite_data: true, open_test_window: true, ..no_clicks() };
    ws.ui(&mut open, &both);
    assert_eq!(ws.view_count(), 2);
    assert_eq!(ws.view(0).kind(), ViewKind::SqliteData);
    assert_eq!(ws.view(1).kind(), ViewKind::TestWindow);
    ws.ui(&mut open, &both);
    assert_eq!(ws.view_count(), 2);
    ws.ui(&mut open, &MenuInput { open_test_window: true, ..no_clicks() });
    assert_eq!(ws.view_count(), 2);
    assert!(ws.has_view(ViewKind::TestWindow));
    assert!(!ws.has_view(ViewKind::Info));
}

#[test]
fn info_toggles_and_close_all_clears() {
    let mut ws = Workspace::default();
    let mut open = true;
    let toggle = MenuInput { toggle_info: true, ..no_clicks() };
    ws.ui(&mut open, &toggle);
    assert!(ws.is_info_open());
    ws.ui(&mut open, &toggle);
    assert!(!ws.is_info_open());
    ws.ui(&mut open, &MenuInput { toggle_info: true, open_sqlite_data: true, ..no_clicks() });
    assert!(ws.is_info_open());
    assert_eq!(ws.view_count(), 1);
    ws.ui(&mut open, &MenuInput { close_all_clicked: true, ..no_clicks() });
    assert!(!ws.is_info_open());
    assert_eq!(ws.view_count(), 0);
}

#[test]
fn closed_views_removed_in_order() {
    let mut ws = Workspace::default();
    let mut open = true;
    ws.ui(&mut open, &MenuInput { open_sqlite_data: true, open_test_window: true, toggle_info: true, ..no_clicks() });
    ws.remove_closed_views(true, &vec![false, true]);
    assert_eq!(ws.view_count(), 1);
    assert_eq!(ws.view(0).kind(), ViewKind::TestWindow);
    assert!(ws.is_info_open());
    ws.ui(&mut open, &MenuInput { open_sqlite_data: true, ..no_clicks() });
    assert_eq!(ws.view(1).kind(), ViewKind::SqliteData);
    ws.remove_closed_views(false, &vec![true, true]);
    assert_eq!(ws.view_count(), 2);
    assert!(!ws.is_info_open());
    ws.remove_closed_views(true, &vec![false, false]);
    assert_eq!(ws.view_count(), 0);
}

#[test]
fn remove_closed_views_on_empty() {
    let mut ws = Workspace::default();
    ws.remove_closed_views(true, &vec![]);
    assert_eq!(ws.view_count(), 0);
}

#[test]
fn view_titles() {
    assert_eq!(ViewKind::Info.title(), "README");
    assert_eq!(ViewKind::SqliteData.title(), "Connect Sqlite Database");
    assert_eq!(ViewKind::TestWindow.title(), "Test Window");
    assert_eq!(ChildView::new_of_kind(ViewKind::TestWindow).title(), "Test Window");
    assert_eq!(SqliteData::default().title(), "Connect Sqlite Database");
}

#[test]
fn test_window_close_paths() {
    let mut t = TestWindow::default();
    let mut open = true;
    t.show(&mut open, true, false);
    assert!(open);
    t.show(&mut open, true, true);
    assert!(!open);
    assert!(t.close_button_pressed());
    let mut open2 = true;
    t.show(&mut open2, false, false);
    assert!(!open2);
    assert!(!t.close_button_pressed());
}

#[test]
fn default_settings_rounding() {
    let s = AppSettings::default();
    assert_eq!((s.global_rounding.nw, s.global_rounding.ne), (8, 8));
    assert_eq!((s.global_rounding.sw, s.global_rounding.se), (16, 24));
    assert_eq!(*Application::default().settings(), s);
}

#[test]
fn fetch_transport_error_is_shown() {
    let mut d = SqliteData::default();
    assert!(d.should_fetch_on_open());
    let r = d.trigger_fetch_data(Err("connection refused".to_string()));
    assert!(r.is_none());
    assert_eq!(d.error_message().as_deref(), Some("connection refused"));
    assert_eq!(d.customer_data_json(), "");
    assert!(d.parsed_customers().is_empty());
    assert!(d.data_fetched());
    assert!(!d.should_fetch_on_open());
}

#[test]
fn fetch_invalid_json_keeps_raw_text() {
    let mut d = SqliteData::default();
    let r = d.trigger_fetch_data(Ok("not json".to_string()));
    assert!(r.is_none());
    assert_eq!(d.customer_data_json(), "not json");
    assert_eq!(d.error_message().as_deref(), Some("Warning: Fetched data is not valid JSON."));
}

#[test]
fn fetch_valid_json_is_pretty_printed() {
    let mut d = SqliteData::default();
    let r = d.trigger_fetch_data(Ok("[1,2]".to_string()));
    assert!(r.is_some());
    assert_eq!(d.customer_data_json(), "[\n  1,\n  2\n]");
    assert!(d.error_message().is_none());
}

#[test]
fn new_fetch_clears_previous_error() {
    let mut d = SqliteData::default();
    d.trigger_fetch_data(Err("down".to_string()));
    d.trigger_fetch_data(Ok("{\"a\":1}".to_string()));
    assert!(d.error_message().is_none());
    assert_eq!(d.customer_data_json(), "{\n  \"a\": 1\n}");
}

#[test]
fn customer_list_applied_or_warned() {
    let mut d = SqliteData::default();
    d.apply_customer_list(Ok(vec![Customer::new("Ann".to_string(), "Main St".to_string(), 7)]));
    assert_eq!(d.parsed_customers().len(), 1);
    assert_eq!(d.parsed_customers()[0].customer_id, 7);
    assert_eq!(d.parsed_customers()[0].customer_name, "Ann");
    d.apply_customer_list(Err("missing field `Address`".to_string()));
    assert!(d.parsed_customers().is_empty());
    assert_eq!(
        d.error_message().as_deref(),
        Some("Warning: Could not parse JSON into Customer list: missing field `Address`")
    );
}

#[test]
fn pretty_print_failure_keeps_raw() {
    let mut d = SqliteData::default();
    d.record_pretty_text("{}".to_string(), None);
    assert_eq!(d.customer_data_json(), "{}");
    assert_eq!(d.error_message().as_deref(), Some("Warning: Could not pretty-print JSON."));
    d.record_pretty_text("{}".to_string(), Some("{ }".to_string()));
    assert_eq!(d.customer_data_json(), "{ }");
}

#[test]
fn selecting_customer_is_remembered() {
    let mut d = SqliteData::default();
    assert_eq!(d.selected_customer_id(), None);
    d.select_customer(42);
    assert_eq!(d.selected_customer_id(), Some(42));
}

#[test]
fn background_fetch_waits_then_completes() {
    let mut d = SqliteData::default();
    d.trigger_fetch_data(Err("old failure".to_string()));
    d.begin_background_fetch();
    assert!(d.is_fetch_pending());
    assert!(d.error_message().is_none());
    assert_eq!(d.customer_data_json(), "");
    let mut fresh = SqliteData::default();
    fresh.begin_background_fetch();
    assert!(!fresh.should_fetch_on_open());
    assert!(!fresh.data_fetched());
    let r = fresh.complete_background_fetch(Err("connection refused".to_string()));
    assert!(r.is_none());
    assert!(!fresh.is_fetch_pending());
    assert!(fresh.data_fetched());
    assert_eq!(fresh.error_message().as_deref(), Some("connection refused"));
    assert!(fresh.parsed_customers().is_empty());
}

#[test]
fn background_fetch_of_json_hands_back_value() {
    let mut d = SqliteData::default();
    d.begin_background_fetch();
    let r = d.complete_background_fetch(Ok("[]".to_string()));
    assert!(r.is_some());
    assert_eq!(d.customer_data_json(), "[]");
    assert!(d.error_message().is_none());
}

#[test]
fn other_menu_actions_disarm_pending_delete() {
    let others = [
        MenuInput { toggle_info: true, ..no_clicks() },
        MenuInput { open_sqlite_data: true, ..no_clicks() },
        MenuInput { open_test_window: true, ..no_clicks() },
        MenuInput { add_workspace_clicked: true, ..no_clicks() },
        MenuInput { organize_windows_clicked: true, ..no_clicks() },
        MenuInput { close_all_clicked: true, ..no_clicks() },
    ];
    for other in others.iter() {
        let mut ws = Workspace::default();
        let mut open = true;
        ws.ui(&mut open, &delete_click());
        assert_eq!(ws.confirm_delete_state(), ConfirmDeleteState::Pending);
        ws.ui(&mut open, other);
        assert_eq!(ws.confirm_delete_state(), ConfirmDeleteState::Idle);
        assert!(open);
        ws.ui(&mut open, &delete_click());
        assert!(open);
        assert_eq!(ws.confirm_delete_state(), ConfirmDeleteState::Pending);
    }
}

#[test]
fn idle_cycle_keeps_pending_delete() {
    let mut ws = Workspace::default();
    let mut open = true;
    ws.ui(&mut open, &delete_click());
    ws.ui(&mut open, &no_clicks());
    assert_eq!(ws.confirm_delete_state(), ConfirmDeleteState::Pending);
    ws.ui(&mut open, &delete_click());
    assert!(!open);
}

#[test]
fn add_between_delete_clicks_keeps_workspace() {
    let mut app = Application::default();
    app.update(None, &delete_click());
    app.update(None, &add_click());
    assert_eq!(app.workspace_count(), 2);
    assert_eq!(app.workspace(0).confirm_delete_state(), ConfirmDeleteState::Idle);
    app.update(Some(0), &delete_click());
    assert_eq!(app.workspace_count(), 2);
    assert!(!app.show_last_workspace_delete_warning());
}

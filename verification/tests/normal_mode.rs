use gcloud_switch::app::{App, Column, Effect, InputMode, Key, KeyPress, PendingAction};
use gcloud_switch::auth::AuthResult;
use gcloud_switch::profile::{Profile, ProfilesFile, SyncMode};

fn profile(user: &str, user_project: &str, adc: &str, adc_project: &str) -> Profile {
    Profile::new(
        user.to_string(),
        user_project.to_string(),
        adc.to_string(),
        adc_project.to_string(),
    )
}

fn sample() -> ProfilesFile {
    let mut file = ProfilesFile::new();
    file.profiles.insert("home".to_string(), profile("h@x.com", "ph", "h2@x.com", "qh"));
    file.profiles.insert("lab".to_string(), profile("l@x.com", "pl", "l@x.com", "ql"));
    file.profiles.insert("work".to_string(), profile("w@x.com", "pw", "w2@x.com", "qw"));
    file
}

fn press(key: Key) -> KeyPress {
    KeyPress { key, alt: false }
}

fn started() -> App {
    App::new(sample()).0
}

fn mark(app: &mut App, index: usize, is_user: bool, valid: bool) {
    let generation = app.auth_generation;
    app.check_auth_results(&vec![AuthResult { generation, profile_index: index, is_user, valid }]);
}

#[test]
fn starts_on_the_active_profile() {
    let mut data = sample();
    data.active_profile = Some("lab".to_string());
    data.sync_mode = SyncMode::Add;
    let (app, batch) = App::new(data);
    assert_eq!(app.selected_row, 1);
    assert_eq!(app.selected_col, Column::Both);
    assert_eq!(app.input_mode, InputMode::Normal);
    assert_eq!(app.sync_mode, SyncMode::Add);
    assert_eq!(app.auth_generation, 1);
    assert_eq!(app.active_profile, Some("lab".to_string()));
    assert_eq!(app.pending_action, PendingAction::Nothing);
    assert!(!app.should_quit);
    assert_eq!(batch.len(), 5);
}

#[test]
fn starts_on_the_first_row_without_a_known_active_profile() {
    let mut data = sample();
    data.active_profile = Some("gone".to_string());
    assert_eq!(App::new(data).0.selected_row, 0);
    assert_eq!(started().selected_row, 0);
    let (empty, batch) = App::new(ProfilesFile::new());
    assert_eq!(empty.selected_row, 0);
    assert_eq!(batch.len(), 0);
}

#[test]
fn rows_are_clamped_to_the_table() {
    let mut app = started();
    assert_eq!(app.handle_event(press(Key::Up)), Effect::Nothing);
    assert_eq!(app.selected_row, 0);
    app.handle_event(press(Key::Down));
    app.handle_event(press(Key::Down));
    assert_eq!(app.selected_row, 2);
    app.handle_event(press(Key::Down));
    assert_eq!(app.selected_row, 2);
    app.handle_event(press(Key::Up));
    assert_eq!(app.selected_row, 1);
}

#[test]
fn rows_of_an_empty_table_do_not_move() {
    let mut app = App::new(ProfilesFile::new()).0;
    app.handle_event(press(Key::Down));
    assert_eq!(app.selected_row, 0);
    app.handle_event(press(Key::Up));
    assert_eq!(app.selected_row, 0);
    assert_eq!(app.handle_event(press(Key::Enter)), Effect::Nothing);
    assert_eq!(app.handle_event(press(Key::Char('a'))), Effect::Nothing);
    assert_eq!(app.pending_action, PendingAction::Nothing);
    app.handle_event(press(Key::Char('e')));
    app.handle_event(press(Key::Char('d')));
    assert_eq!(app.input_mode, InputMode::Normal);
}

#[test]
fn columns_do_not_wrap() {
    let mut app = started();
    app.handle_event(press(Key::Left));
    assert_eq!(app.selected_col, Column::Both);
    app.handle_event(press(Key::Right));
    assert_eq!(app.selected_col, Column::User);
    app.handle_event(press(Key::Right));
    assert_eq!(app.selected_col, Column::Adc);
    app.handle_event(press(Key::Right));
    assert_eq!(app.selected_col, Column::Adc);
    app.handle_event(press(Key::Left));
    assert_eq!(app.selected_col, Column::User);
    app.handle_event(press(Key::Left));
    assert_eq!(app.selected_col, Column::Both);
}

#[test]
fn moving_clears_the_status_message() {
    let mut app = started();
    app.fail("something went wrong".to_string());
    assert_eq!(app.status_message, Some("something went wrong".to_string()));
    app.handle_event(press(Key::Down));
    assert_eq!(app.status_message, None);
}

#[test]
fn quit_keys_end_the_interface() {
    let mut app = started();
    assert_eq!(app.handle_event(press(Key::Char('q'))), Effect::Nothing);
    assert!(app.should_quit);
    let mut other = started();
    other.handle_event(press(Key::Esc));
    assert!(other.should_quit);
}

#[test]
fn unknown_keys_do_nothing() {
    let mut app = started();
    assert_eq!(app.handle_event(press(Key::Other)), Effect::Nothing);
    assert_eq!(app.handle_event(press(Key::Char('x'))), Effect::Nothing);
    assert_eq!(app.handle_event(press(Key::Tab)), Effect::Nothing);
    assert_eq!(app, started());
}

#[test]
fn activation_of_known_valid_credentials_is_requested_at_once() {
    let mut app = started();
    mark(&mut app, 0, true, true);
    mark(&mut app, 0, false, true);
    let effect = app.handle_event(press(Key::Enter));
    assert_eq!(
        effect,
        Effect::Activate {
            name: "home".to_string(),
            column: Column::Both,
            account: "h@x.com".to_string(),
            project: "ph".to_string(),
        }
    );
    assert!(app.quit_after_activate);
    assert_eq!(app.pending_action, PendingAction::Nothing);
    assert!(!app.should_quit);
    app.do_activate();
    assert_eq!(app.active_profile, Some("home".to_string()));
    assert_eq!(app.status_message, Some("Activated profile 'home'.".to_string()));
    assert!(app.should_quit);
}

#[test]
fn alt_keeps_the_interface_running_after_activation() {
    let mut app = started();
    mark(&mut app, 0, true, true);
    app.handle_event(press(Key::Right));
    let effect = app.handle_event(KeyPress { key: Key::Enter, alt: true });
    assert!(matches!(effect, Effect::Activate { column: Column::User, .. }));
    assert!(!app.quit_after_activate);
    app.do_activate();
    assert!(!app.should_quit);
    assert_eq!(app.status_message, Some("Activated user config for 'home'.".to_string()));
}

#[test]
fn activation_of_the_secondary_role_reports_it() {
    let mut app = started();
    mark(&mut app, 0, false, true);
    app.handle_event(press(Key::Right));
    app.handle_event(press(Key::Right));
    let effect = app.handle_event(press(Key::Enter));
    assert!(matches!(effect, Effect::Activate { column: Column::Adc, .. }));
    app.do_activate();
    assert_eq!(app.status_message, Some("Activated ADC for 'home'.".to_string()));
}

#[test]
fn known_invalid_credentials_defer_to_reauthentication() {
    let mut app = started();
    mark(&mut app, 0, true, true);
    mark(&mut app, 0, false, false);
    assert_eq!(app.handle_event(press(Key::Enter)), Effect::Nothing);
    assert_eq!(app.pending_action, PendingAction::ReauthAndActivate);
    assert!(!app.should_quit);
}

#[test]
fn column_decides_which_credentials_count() {
    let mut app = started();
    mark(&mut app, 0, true, true);
    mark(&mut app, 0, false, false);
    app.handle_event(press(Key::Right));
    let effect = app.handle_event(press(Key::Enter));
    assert!(matches!(effect, Effect::Activate { column: Column::User, .. }));
    assert_eq!(app.pending_action, PendingAction::Nothing);
    app.handle_event(press(Key::Right));
    assert_eq!(app.handle_event(press(Key::Enter)), Effect::Nothing);
    assert_eq!(app.pending_action, PendingAction::ReauthAndActivate);
}

#[test]
fn unknown_credentials_ask_for_a_check() {
    let mut app = started();
    mark(&mut app, 0, true, true);
    let effect = app.handle_event(press(Key::Enter));
    assert_eq!(
        effect,
        Effect::CheckAuth { user_account: None, adc_account: Some("h2@x.com".to_string()) }
    );
    assert_eq!(app.pending_action, PendingAction::Nothing);
    let next = app.activate_selected(None, Some(true));
    assert!(matches!(next, Effect::Activate { .. }));
    assert_eq!(app.pending_action, PendingAction::Nothing);
}

#[test]
fn a_failed_check_defers_to_reauthentication() {
    let mut app = started();
    let effect = app.handle_event(press(Key::Enter));
    assert_eq!(
        effect,
        Effect::CheckAuth {
            user_account: Some("h@x.com".to_string()),
            adc_account: Some("h2@x.com".to_string()),
        }
    );
    assert_eq!(app.activate_selected(Some(true), Some(false)), Effect::Nothing);
    assert_eq!(app.pending_action, PendingAction::ReauthAndActivate);
}

#[test]
fn a_check_that_was_not_made_counts_as_failed() {
    let mut app = started();
    assert_eq!(app.activate_selected(Some(true), None), Effect::Nothing);
    assert_eq!(app.pending_action, PendingAction::ReauthAndActivate);
}

#[test]
fn a_known_status_outweighs_a_check() {
    let mut app = started();
    mark(&mut app, 0, true, false);
    mark(&mut app, 0, false, true);
    assert!(!app.role_valid(true, Some(true)));
    assert!(app.role_valid(false, Some(false)));
    assert!(app.needs_reauth(Some(true), Some(true)));
    assert!(!app.role_unknown(true));
}

#[test]
fn reauth_key_leaves_a_pending_action() {
    let mut app = started();
    assert_eq!(app.handle_event(press(Key::Char('a'))), Effect::Nothing);
    assert_eq!(app.pending_action, PendingAction::Reauth);
    assert_eq!(app.take_pending_action(), PendingAction::Reauth);
    assert_eq!(app.pending_action, PendingAction::Nothing);
    assert_eq!(app.take_pending_action(), PendingAction::Nothing);
}

#[test]
fn sync_mode_key_asks_for_the_next_mode_to_be_persisted() {
    let mut app = started();
    assert_eq!(
        app.handle_event(press(Key::Char('s'))),
        Effect::SaveSyncMode { mode: SyncMode::Add }
    );
    assert_eq!(app.sync_mode, SyncMode::Strict);
    app.set_sync_mode(SyncMode::Add);
    assert_eq!(app.sync_mode, SyncMode::Add);
    assert_eq!(app.status_message, Some("Sync mode: add".to_string()));
    assert_eq!(
        app.handle_event(press(Key::Char('s'))),
        Effect::SaveSyncMode { mode: SyncMode::Off }
    );
}

#[test]
fn import_key_asks_for_an_import() {
    let mut app = started();
    assert_eq!(app.handle_event(press(Key::Char('i'))), Effect::Import);
}

#[test]
fn delete_key_asks_for_confirmation() {
    let mut app = started();
    app.handle_event(press(Key::Down));
    assert_eq!(app.handle_event(press(Key::Char('d'))), Effect::Nothing);
    assert_eq!(app.input_mode, InputMode::ConfirmDelete);
    assert_eq!(app.status_message, Some("Delete profile 'lab'? (y/n)".to_string()));
}

#[test]
fn confirmed_deletion_is_requested_and_reloads() {
    let mut app = started();
    app.handle_event(press(Key::Char('d')));
    let effect = app.handle_event(press(Key::Char('y')));
    assert_eq!(
        effect,
        Effect::DeleteProfile { name: "home".to_string(), delete_configuration: true }
    );
    assert_eq!(app.input_mode, InputMode::ConfirmDelete);
    let mut data = sample();
    data.profiles.remove("home");
    let generation = app.auth_generation;
    let batch = app.profile_deleted(data);
    assert_eq!(app.auth_generation, generation + 1);
    assert_eq!(batch.len(), 3);
    assert_eq!(app.input_mode, InputMode::Normal);
    assert_eq!(app.status_message, Some("Deleted profile 'home'.".to_string()));
    assert_eq!(app.profile_names, vec!["lab".to_string(), "work".to_string()]);
}

#[test]
fn deletion_mirrors_to_the_backend_only_in_the_strict_mode() {
    let mut data = sample();
    data.sync_mode = SyncMode::Add;
    let mut app = App::new(data).0;
    app.handle_event(press(Key::Char('d')));
    assert_eq!(
        app.handle_event(press(Key::Char('Y'))),
        Effect::DeleteProfile { name: "home".to_string(), delete_configuration: false }
    );
}

#[test]
fn any_other_key_calls_the_deletion_off() {
    let mut app = started();
    app.handle_event(press(Key::Char('d')));
    assert_eq!(app.handle_event(press(Key::Char('n'))), Effect::Nothing);
    assert_eq!(app.input_mode, InputMode::Normal);
    assert_eq!(app.status_message, None);
    app.handle_event(press(Key::Char('d')));
    assert_eq!(app.handle_event(press(Key::Esc)), Effect::Nothing);
    assert_eq!(app.input_mode, InputMode::Normal);
    assert!(!app.should_quit);
}

#[test]
fn deleting_the_last_row_moves_the_selection_back_into_the_table() {
    let mut app = started();
    app.handle_event(press(Key::Down));
    app.handle_event(press(Key::Down));
    app.handle_event(press(Key::Char('d')));
    app.handle_event(press(Key::Char('y')));
    let mut data = sample();
    data.profiles.remove("work");
    app.profile_deleted(data);
    assert_eq!(app.selected_row, 1);
    app.handle_event(press(Key::Char('d')));
    app.handle_event(press(Key::Char('y')));
    app.profile_deleted(ProfilesFile::new());
    assert_eq!(app.selected_row, 0);
    assert_eq!(app.profile_names.len(), 0);
}

#[test]
fn a_failure_is_shown_and_leads_back_to_the_normal_mode() {
    let mut app = started();
    app.handle_event(press(Key::Char('d')));
    app.handle_event(press(Key::Char('y')));
    app.fail("Failed to read profiles.toml".to_string());
    assert_eq!(app.input_mode, InputMode::Normal);
    assert_eq!(app.status_message, Some("Failed to read profiles.toml".to_string()));
    assert_eq!(app.profile_names.len(), 3);
    assert_eq!(app.auth_generation, 1);
}

#[test]
fn project_results_replace_the_fetched_projects() {
    let mut app = started();
    app.fetching_projects = true;
    app.check_project_results(vec![]);
    assert!(app.fetching_projects);
    app.check_project_results(vec![vec!["old".to_string()], vec!["p1".to_string(), "p2".to_string()]]);
    assert!(!app.fetching_projects);
    assert_eq!(app.fetched_projects, vec!["p1".to_string(), "p2".to_string()]);
}

#[test]
fn reload_leaves_a_mode_that_needs_a_profile_when_none_is_left() {
    let mut app = started();
    app.handle_event(press(Key::Char('e')));
    assert_eq!(app.input_mode, InputMode::EditAccount);
    app.reload(ProfilesFile::new());
    assert_eq!(app.input_mode, InputMode::Normal);
    let mut other = started();
    other.handle_event(press(Key::Char('e')));
    other.reload(sample());
    assert_eq!(other.input_mode, InputMode::EditAccount);
}

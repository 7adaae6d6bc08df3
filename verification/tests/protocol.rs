use gcloud_switch::app::{App, Column, Effect, InputMode, Key, KeyPress, PendingAction};
use gcloud_switch::backend::{activate_both, activation_plan};
use gcloud_switch::profile::{Profile, ProfilesFile};
use gcloud_switch::protocol::{BackendStep, ImportOutcome, Resumption};
use gcloud_switch::store::Store;

fn press(key: Key) -> KeyPress {
    KeyPress { key, alt: false }
}

fn profile(user: &str, user_project: &str, adc: &str, adc_project: &str) -> Profile {
    Profile::new(
        user.to_string(),
        user_project.to_string(),
        adc.to_string(),
        adc_project.to_string(),
    )
}

fn sample() -> ProfilesFile {
    let mut file = ProfilesFile::new();
    file.profiles.insert("home".to_string(), profile("h@x.com", "ph", "h2@x.com", "qh"));
    file.profiles.insert("work".to_string(), profile("w@x.com", "pw", "w2@x.com", "qw"));
    file
}

fn reauth_user() -> BackendStep {
    BackendStep::ReauthUser { account: "h@x.com".to_string() }
}

fn activate_user() -> BackendStep {
    BackendStep::ActivateUser {
        name: "home".to_string(),
        account: "h@x.com".to_string(),
        project: "ph".to_string(),
    }
}

fn reauth_adc() -> BackendStep {
    BackendStep::ReauthAdc { name: "home".to_string(), quota_project: "qh".to_string() }
}

#[test]
fn reauthentication_plan_follows_the_column() {
    let mut app = App::new(sample()).0;
    assert_eq!(app.reauth_plan(), vec![reauth_user(), activate_user(), reauth_adc()]);
    app.handle_event(press(Key::Right));
    assert_eq!(app.reauth_plan(), vec![reauth_user(), activate_user()]);
    app.handle_event(press(Key::Right));
    assert_eq!(app.reauth_plan(), vec![reauth_adc()]);
}

#[test]
fn handover_begins_only_with_a_pending_action() {
    let mut app = App::new(sample()).0;
    assert_eq!(app.begin_handover(), None);
    app.handle_event(press(Key::Right));
    app.handle_event(press(Key::Char('a')));
    assert_eq!(
        app.begin_handover(),
        Some((PendingAction::Reauth, vec![reauth_user(), activate_user()]))
    );
    assert_eq!(app.pending_action, PendingAction::Nothing);
    assert_eq!(app.begin_handover(), None);
    assert_eq!(app.resumption(), Resumption::Redraw);
}

#[test]
fn handover_ends_with_an_exit_after_a_wanted_activation() {
    let mut app = App::new(sample()).0;
    assert_eq!(app.handle_event(press(Key::Enter)), Effect::CheckAuth {
        user_account: Some("h@x.com".to_string()),
        adc_account: Some("h2@x.com".to_string()),
    });
    assert_eq!(app.activate_selected(Some(false), Some(true)), Effect::Nothing);
    let (action, _) = app.begin_handover().unwrap();
    let (_, effect) = app.finish_reauth(action, sample());
    assert!(matches!(effect, Effect::Activate { .. }));
    assert_eq!(app.resumption(), Resumption::Redraw);
    app.do_activate();
    assert_eq!(app.resumption(), Resumption::Exit);
}

#[test]
fn reauthentication_reports_and_reloads() {
    let mut app = App::new(sample()).0;
    app.handle_event(press(Key::Char('a')));
    let action = app.take_pending_action();
    assert_eq!(action, PendingAction::Reauth);
    let (batch, effect) = app.finish_reauth(action, sample());
    assert_eq!(effect, Effect::Nothing);
    assert_eq!(batch.len(), 4);
    assert_eq!(app.auth_generation, 2);
    assert_eq!(
        app.status_message,
        Some("Re-authenticated user and ADC for 'home'.".to_string())
    );
    assert_eq!(app.input_mode, InputMode::Normal);
}

#[test]
fn reauthentication_messages_name_the_role() {
    let mut app = App::new(sample()).0;
    app.handle_event(press(Key::Right));
    app.execute_reauth(sample());
    assert_eq!(app.status_message, Some("User re-authenticated for 'home'.".to_string()));
    app.handle_event(press(Key::Right));
    app.execute_reauth(sample());
    assert_eq!(app.status_message, Some("ADC re-authenticated for 'home'.".to_string()));
    assert_eq!(app.auth_generation, 3);
}

#[test]
fn reauthentication_then_activation_exits_when_asked() {
    let mut app = App::new(sample()).0;
    app.handle_event(press(Key::Down));
    assert_eq!(app.activate_selected(Some(false), Some(false)), Effect::Nothing);
    app.quit_after_activate = true;
    let action = app.take_pending_action();
    assert_eq!(action, PendingAction::ReauthAndActivate);
    let (_, effect) = app.finish_reauth(action, sample());
    assert_eq!(
        effect,
        Effect::Activate {
            name: "work".to_string(),
            column: Column::Both,
            account: "w@x.com".to_string(),
            project: "pw".to_string(),
        }
    );
    assert!(!app.should_quit);
    app.do_activate();
    assert!(app.should_quit);
    assert_eq!(app.active_profile, Some("work".to_string()));
    assert_eq!(app.status_message, Some("Activated profile 'work'.".to_string()));
}

#[test]
fn failed_reauthentication_resumes_without_activation() {
    let mut app = App::new(sample()).0;
    app.activate_selected(Some(false), Some(false));
    app.quit_after_activate = true;
    assert_eq!(app.take_pending_action(), PendingAction::ReauthAndActivate);
    app.fail("gcloud auth login failed".to_string());
    assert!(!app.should_quit);
    assert_eq!(app.active_profile, None);
    assert_eq!(app.status_message, Some("gcloud auth login failed".to_string()));
    assert_eq!(app.pending_action, PendingAction::Nothing);
    assert_eq!(app.auth_generation, 1);
}

#[test]
fn activation_after_reauthentication_needs_a_profile() {
    let mut app = App::new(sample()).0;
    let (batch, effect) = app.finish_reauth(PendingAction::ReauthAndActivate, ProfilesFile::new());
    assert_eq!(effect, Effect::Nothing);
    assert_eq!(batch.len(), 0);
}

#[test]
fn import_outcomes_are_reported() {
    let mut app = App::new(sample()).0;
    assert_eq!(app.finish_import(ImportOutcome::NothingFound).len(), 0);
    assert_eq!(app.status_message, Some("No gcloud configurations found.".to_string()));
    assert_eq!(app.finish_import(ImportOutcome::NothingNew).len(), 0);
    assert_eq!(app.status_message, Some("No new configurations to import.".to_string()));
    assert_eq!(app.auth_generation, 1);
    let mut data = sample();
    data.profiles.insert("lab".to_string(), profile("l@x.com", "pl", "l@x.com", "pl"));
    let batch = app.finish_import(ImportOutcome::Imported { count: 12, data });
    assert_eq!(batch.len(), 5);
    assert_eq!(app.status_message, Some("Imported 12 profile(s).".to_string()));
    assert_eq!(app.auth_generation, 2);
    assert_eq!(app.profile_names.len(), 3);
    app.finish_import(ImportOutcome::Imported { count: 0, data: sample() });
    assert_eq!(app.status_message, Some("Imported 0 profile(s).".to_string()));
    app.finish_import(ImportOutcome::Imported { count: 1090, data: sample() });
    assert_eq!(app.status_message, Some("Imported 1090 profile(s).".to_string()));
}

#[test]
fn activating_both_skips_the_secondary_role_without_stored_credentials() {
    let store = Store::new(sample(), &vec!["work".to_string()]);
    assert_eq!(activate_both(&store, "home", "h@x.com", "ph"), vec![activate_user()]);
    assert_eq!(
        activate_both(&store, "work", "w@x.com", "pw"),
        vec![
            BackendStep::ActivateUser {
                name: "work".to_string(),
                account: "w@x.com".to_string(),
                project: "pw".to_string(),
            },
            BackendStep::ActivateAdc { name: "work".to_string() },
        ]
    );
}

#[test]
fn activation_plan_follows_the_column() {
    let store = Store::new(sample(), &vec!["work".to_string()]);
    assert_eq!(
        activation_plan(&store, Column::Both, "home", "h@x.com", "ph"),
        Ok(vec![activate_user()])
    );
    assert_eq!(
        activation_plan(&store, Column::User, "home", "h@x.com", "ph"),
        Ok(vec![activate_user()])
    );
    assert_eq!(
        activation_plan(&store, Column::Adc, "work", "w@x.com", "pw"),
        Ok(vec![BackendStep::ActivateAdc { name: "work".to_string() }])
    );
}

#[test]
fn secondary_role_alone_needs_stored_credentials() {
    let store = Store::new(sample(), &vec!["work".to_string()]);
    assert_eq!(
        activation_plan(&store, Column::Adc, "home", "h@x.com", "ph"),
        Err("No ADC credentials stored for profile 'home'. Run re-auth (r) first.".to_string())
    );
}

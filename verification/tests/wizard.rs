use gcloud_switch::app::{App, Effect, InputMode, Key, KeyPress};
use gcloud_switch::profile::{Profile, ProfilesFile, SyncMode};

fn press(key: Key) -> KeyPress {
    KeyPress { key, alt: false }
}

fn type_text(app: &mut App, text: &str) {
    for c in text.chars() {
        assert_eq!(app.handle_event(press(Key::Char(c))), Effect::Nothing);
    }
}

fn submit(app: &mut App, text: &str) -> Effect {
    type_text(app, text);
    app.handle_event(press(Key::Enter))
}

fn started(mode: SyncMode) -> App {
    let mut data = ProfilesFile::new();
    data.sync_mode = mode;
    App::new(data).0
}

#[test]
fn add_sequence_yields_one_profile_and_one_reload() {
    let mut app = started(SyncMode::Strict);
    assert_eq!(app.handle_event(press(Key::Char('n'))), Effect::Nothing);
    assert_eq!(app.input_mode, InputMode::AddProfileName);
    assert_eq!(app.status_message, Some("Enter profile name:".to_string()));

    assert_eq!(submit(&mut app, "work"), Effect::Nothing);
    assert_eq!(app.input_mode, InputMode::AddProfileUserAccount);
    assert_eq!(app.status_message, Some("Enter user account (email):".to_string()));

    assert_eq!(submit(&mut app, "a@example.com"), Effect::Nothing);
    assert_eq!(app.input_mode, InputMode::AddProfileUserProject);
    assert_eq!(app.status_message, Some("Enter user project:".to_string()));

    assert_eq!(submit(&mut app, "proj-1"), Effect::Nothing);
    assert_eq!(app.input_mode, InputMode::AddProfileAdcAccount);
    assert_eq!(app.status_message, Some("Enter ADC account [a@example.com]:".to_string()));
    // the secondary account and project default to the primary ones
    assert_eq!(app.new_profile.adc_account, "a@example.com");
    assert_eq!(app.new_profile.adc_quota_project, "proj-1");

    let accept_account = app.new_profile.adc_account.clone();
    assert_eq!(submit(&mut app, &accept_account), Effect::Nothing);
    assert_eq!(app.input_mode, InputMode::AddProfileAdcQuotaProject);
    assert_eq!(app.status_message, Some("Enter ADC quota project [proj-1]:".to_string()));

    let accept_project = app.new_profile.adc_quota_project.clone();
    let effect = submit(&mut app, &accept_project);
    let expected = Profile::new(
        "a@example.com".to_string(),
        "proj-1".to_string(),
        "a@example.com".to_string(),
        "proj-1".to_string(),
    );
    assert_eq!(
        effect,
        Effect::AddProfile {
            name: "work".to_string(),
            profile: expected.clone(),
            create_configuration: true,
        }
    );
    assert_eq!(app.auth_generation, 1);

    let mut data = ProfilesFile::new();
    data.profiles.insert("work".to_string(), expected.clone());
    let batch = app.profile_added(data);
    assert_eq!(app.auth_generation, 2);
    assert_eq!(batch.len(), 1);
    assert_eq!(app.input_mode, InputMode::Normal);
    assert_eq!(app.input_buffer, "");
    assert_eq!(app.status_message, Some("Profile 'work' added.".to_string()));
    assert_eq!(app.profile_names, vec!["work".to_string()]);
    assert_eq!(app.profiles, vec![expected]);
}

#[test]
fn secondary_values_can_be_overridden() {
    let mut app = started(SyncMode::Off);
    app.handle_event(press(Key::Char('n')));
    submit(&mut app, "work");
    submit(&mut app, "a@example.com");
    submit(&mut app, "proj-1");
    submit(&mut app, "svc@example.com");
    let effect = submit(&mut app, "quota-1");
    assert_eq!(
        effect,
        Effect::AddProfile {
            name: "work".to_string(),
            profile: Profile::new(
                "a@example.com".to_string(),
                "proj-1".to_string(),
                "svc@example.com".to_string(),
                "quota-1".to_string(),
            ),
            create_configuration: false,
        }
    );
}

#[test]
fn empty_input_is_rejected_silently() {
    let mut app = started(SyncMode::Strict);
    app.handle_event(press(Key::Char('n')));
    assert_eq!(app.handle_event(press(Key::Enter)), Effect::Nothing);
    assert_eq!(app.input_mode, InputMode::AddProfileName);
    assert_eq!(submit(&mut app, "  \t "), Effect::Nothing);
    assert_eq!(app.input_mode, InputMode::AddProfileName);
    assert_eq!(app.input_buffer, "  \t ");
    assert_eq!(app.status_message, Some("Enter profile name:".to_string()));
}

#[test]
fn input_is_trimmed() {
    let mut app = started(SyncMode::Strict);
    app.handle_event(press(Key::Char('n')));
    submit(&mut app, "  work \u{a0}");
    assert_eq!(app.new_profile_name, "work");
    assert_eq!(app.input_buffer, "");
}

#[test]
fn backspace_removes_the_last_character() {
    let mut app = started(SyncMode::Strict);
    app.handle_event(press(Key::Char('n')));
    assert_eq!(app.handle_event(press(Key::Backspace)), Effect::Nothing);
    assert_eq!(app.input_buffer, "");
    type_text(&mut app, "wörk");
    app.handle_event(press(Key::Backspace));
    app.handle_event(press(Key::Backspace));
    assert_eq!(app.input_buffer, "wö");
    submit(&mut app, "");
    assert_eq!(app.new_profile_name, "wö");
}

#[test]
fn escape_cancels_the_add_sequence() {
    let mut app = started(SyncMode::Strict);
    app.handle_event(press(Key::Char('n')));
    submit(&mut app, "work");
    type_text(&mut app, "a@exam");
    assert_eq!(app.handle_event(press(Key::Esc)), Effect::Nothing);
    assert_eq!(app.input_mode, InputMode::Normal);
    assert_eq!(app.input_buffer, "");
    assert_eq!(app.status_message, None);
    assert!(!app.should_quit);
    assert_eq!(app.auth_generation, 1);
}

#[test]
fn keys_that_the_add_sequence_does_not_know_do_nothing() {
    let mut app = started(SyncMode::Strict);
    app.handle_event(press(Key::Char('n')));
    type_text(&mut app, "q");
    assert_eq!(app.handle_event(press(Key::Up)), Effect::Nothing);
    assert_eq!(app.handle_event(press(Key::Tab)), Effect::Nothing);
    assert_eq!(app.input_buffer, "q");
    assert!(!app.should_quit);
}

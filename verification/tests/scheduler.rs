use gcloud_switch::app::App;
use gcloud_switch::auth::{
    collect_targets, identities, plan_auth_checks, record_result, record_results,
    unknown_statuses, AuthResult, AuthTarget, AuthUnit,
};
use gcloud_switch::profile::{Profile, ProfilesFile};

fn profile(user: &str, adc: &str) -> Profile {
    Profile::new(user.to_string(), "p".to_string(), adc.to_string(), "q".to_string())
}

fn set_of(entries: Vec<(&str, Profile)>) -> ProfilesFile {
    let mut file = ProfilesFile::new();
    for (name, p) in entries {
        file.profiles.insert(name.to_string(), p);
    }
    file
}

fn target(profile_index: usize, is_user: bool) -> AuthTarget {
    AuthTarget { profile_index, is_user }
}

#[test]
fn two_profiles_sharing_one_account_give_one_unit() {
    let profiles = vec![profile("a@x.com", "a@x.com"), profile("a@x.com", "a@x.com")];
    let units = plan_auth_checks(&profiles, 3);
    assert_eq!(
        units,
        vec![AuthUnit {
            generation: 3,
            account: "a@x.com".to_string(),
            targets: vec![target(0, true), target(0, false), target(1, true), target(1, false)],
        }]
    );
}

#[test]
fn one_unit_for_each_distinct_account() {
    let profiles = vec![
        profile("b@x.com", "a@x.com"),
        profile("a@x.com", "c@x.com"),
        profile("", "b@x.com"),
    ];
    let units = plan_auth_checks(&profiles, 1);
    assert_eq!(units.len(), 3);
    assert_eq!(units[0].account, "a@x.com");
    assert_eq!(units[0].targets, vec![target(0, false), target(1, true)]);
    assert_eq!(units[1].account, "b@x.com");
    assert_eq!(units[1].targets, vec![target(0, true), target(2, false)]);
    assert_eq!(units[2].account, "c@x.com");
    assert_eq!(units[2].targets, vec![target(1, false)]);
    assert_eq!(
        identities(&profiles),
        vec!["a@x.com".to_string(), "b@x.com".to_string(), "c@x.com".to_string()]
    );
}

#[test]
fn no_profiles_give_no_units() {
    assert_eq!(plan_auth_checks(&vec![], 1), vec![]);
    assert_eq!(plan_auth_checks(&vec![profile("", "")], 1), vec![]);
    assert_eq!(collect_targets(&vec![profile("", "")], "a@x.com"), vec![]);
}

#[test]
fn a_unit_reports_one_result_for_each_target() {
    let unit = AuthUnit {
        generation: 9,
        account: "a@x.com".to_string(),
        targets: vec![target(0, true), target(4, false)],
    };
    assert_eq!(
        unit.results(true),
        vec![
            AuthResult { generation: 9, profile_index: 0, is_user: true, valid: true },
            AuthResult { generation: 9, profile_index: 4, is_user: false, valid: true },
        ]
    );
    assert_eq!(unit.results(false)[1].valid, false);
}

#[test]
fn one_result_updates_every_profile_that_shares_the_account() {
    let data = set_of(vec![
        ("one", profile("a@x.com", "b@x.com")),
        ("two", profile("a@x.com", "a@x.com")),
    ]);
    let (mut app, batch) = App::new(data);
    assert_eq!(batch.len(), 2);
    assert_eq!(app.user_auth_valid, vec![None, None]);
    assert_eq!(app.adc_auth_valid, vec![None, None]);
    let shared = &batch[0];
    assert_eq!(shared.account, "a@x.com");
    app.check_auth_results(&shared.results(true));
    assert_eq!(app.user_auth_valid, vec![Some(true), Some(true)]);
    assert_eq!(app.adc_auth_valid, vec![None, Some(true)]);
    app.check_auth_results(&batch[1].results(false));
    assert_eq!(app.adc_auth_valid, vec![Some(false), Some(true)]);
}

#[test]
fn stale_results_are_dropped() {
    let data = set_of(vec![("one", profile("a@x.com", "a@x.com"))]);
    let (mut app, first) = App::new(data.clone());
    assert_eq!(app.auth_generation, 1);
    let second = app.reload(data);
    assert_eq!(app.auth_generation, 2);
    assert_eq!(second[0].generation, 2);
    app.check_auth_results(&first[0].results(true));
    assert_eq!(app.user_auth_valid, vec![None]);
    assert_eq!(app.adc_auth_valid, vec![None]);
    app.check_auth_results(&second[0].results(true));
    assert_eq!(app.user_auth_valid, vec![Some(true)]);
    assert_eq!(app.adc_auth_valid, vec![Some(true)]);
}

#[test]
fn reload_raises_the_generation_and_forgets_every_status() {
    let data = set_of(vec![("one", profile("a@x.com", "a@x.com"))]);
    let (mut app, batch) = App::new(data.clone());
    app.check_auth_results(&batch[0].results(true));
    let before = app.auth_generation;
    let again = app.reload(data);
    assert!(app.auth_generation > before);
    assert_eq!(app.user_auth_valid, vec![None]);
    assert_eq!(app.adc_auth_valid, vec![None]);
    assert_eq!(again.len(), 1);
}

#[test]
fn a_result_for_a_missing_profile_is_dropped() {
    let mut user = unknown_statuses(2);
    let mut adc = unknown_statuses(2);
    let r = AuthResult { generation: 1, profile_index: 2, is_user: true, valid: true };
    record_result(&mut user, &mut adc, 1, &r);
    assert_eq!(user, vec![None, None]);
    assert_eq!(adc, vec![None, None]);
}

#[test]
fn later_results_override_earlier_ones() {
    let mut user = unknown_statuses(1);
    let mut adc = unknown_statuses(1);
    let results = vec![
        AuthResult { generation: 5, profile_index: 0, is_user: true, valid: true },
        AuthResult { generation: 4, profile_index: 0, is_user: false, valid: true },
        AuthResult { generation: 5, profile_index: 0, is_user: true, valid: false },
    ];
    record_results(&mut user, &mut adc, 5, &results);
    assert_eq!(user, vec![Some(false)]);
    assert_eq!(adc, vec![None]);
}

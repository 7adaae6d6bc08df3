use gcloud_switch::profile::{Profile, ProfileMap, ProfilesFile, SyncMode};
use gcloud_switch::store::Store;

fn profile(account: &str, project: &str) -> Profile {
    Profile::new(
        account.to_string(),
        project.to_string(),
        account.to_string(),
        project.to_string(),
    )
}

fn sample_store(active: Option<&str>) -> Store {
    let mut data = ProfilesFile::new();
    data.profiles.insert("work".to_string(), profile("w@x.com", "pw"));
    data.profiles.insert("home".to_string(), profile("h@x.com", "ph"));
    data.profiles.insert("lab".to_string(), profile("l@x.com", "pl"));
    data.active_profile = active.map(|s| s.to_string());
    Store::new(data, &vec!["work".to_string(), "home".to_string()])
}

#[test]
fn sync_mode_cycles_through_three_modes() {
    assert_eq!(SyncMode::Strict.next(), SyncMode::Add);
    assert_eq!(SyncMode::Add.next(), SyncMode::Off);
    assert_eq!(SyncMode::Off.next(), SyncMode::Strict);
    assert_eq!(SyncMode::default(), SyncMode::Strict);
    assert_eq!(SyncMode::Strict.label(), "strict");
    assert_eq!(SyncMode::Add.label(), "add");
    assert_eq!(SyncMode::Off.label(), "off");
    assert!(SyncMode::Strict.mirrors_additions());
    assert!(SyncMode::Add.mirrors_additions());
    assert!(!SyncMode::Off.mirrors_additions());
}

#[test]
fn new_profile_has_no_modification_time() {
    let p = profile("a@x.com", "p");
    assert_eq!(p.updated_at, None);
    assert_eq!(p.timestamp(), 0);
    assert_eq!(Profile::empty().user_account, "");
}

#[test]
fn touch_at_records_the_time_and_keeps_the_fields() {
    let mut p = profile("a@x.com", "p");
    p.touch_at(1_700_000_000);
    assert_eq!(p.updated_at, Some(1_700_000_000));
    assert_eq!(p.timestamp(), 1_700_000_000);
    assert_eq!(p.user_account, "a@x.com");
    assert_eq!(p.adc_quota_project, "p");
}

#[test]
fn touch_records_the_present_time() {
    let mut p = profile("a@x.com", "p");
    p.touch();
    let t = p.updated_at.unwrap();
    // later than the first of January 2020
    assert!(t > 1_577_836_800);
    assert_eq!(p.user_project, "p");
}

#[test]
fn same_as_compares_every_field() {
    let a = profile("a@x.com", "p");
    let mut b = a.clone();
    assert!(a.same_as(&b));
    b.updated_at = Some(0);
    assert!(!a.same_as(&b));
    let mut c = a.clone();
    c.adc_quota_project = "q".to_string();
    assert!(!a.same_as(&c));
}

#[test]
fn map_keeps_names_in_ascending_order() {
    let mut map = ProfileMap::new();
    assert!(map.is_empty());
    map.insert("work".to_string(), profile("w@x.com", "pw"));
    map.insert("home".to_string(), profile("h@x.com", "ph"));
    map.insert("Zeta".to_string(), profile("z@x.com", "pz"));
    map.insert("lab".to_string(), profile("l@x.com", "pl"));
    map.insert("homer".to_string(), profile("hr@x.com", "phr"));
    assert_eq!(
        map.names,
        vec![
            "Zeta".to_string(),
            "home".to_string(),
            "homer".to_string(),
            "lab".to_string(),
            "work".to_string()
        ]
    );
    assert_eq!(map.len(), 5);
    assert_eq!(map.profiles[1], profile("h@x.com", "ph"));
    assert_eq!(map.position("lab"), Some(3));
    assert_eq!(map.position("nobody"), None);
}

#[test]
fn map_insert_replaces_an_existing_profile() {
    let mut map = ProfileMap::new();
    map.insert("work".to_string(), profile("w@x.com", "pw"));
    map.insert("work".to_string(), profile("other@x.com", "po"));
    assert_eq!(map.len(), 1);
    assert_eq!(map.get("work"), Some(&profile("other@x.com", "po")));
    assert!(map.contains_key("work"));
    assert!(!map.contains_key("wor"));
    assert_eq!(map.get("wor"), None);
}

#[test]
fn map_remove_returns_the_profile() {
    let mut map = ProfileMap::new();
    map.insert("a".to_string(), profile("a@x.com", "pa"));
    map.insert("b".to_string(), profile("b@x.com", "pb"));
    assert_eq!(map.remove("a"), Some(profile("a@x.com", "pa")));
    assert_eq!(map.remove("a"), None);
    assert_eq!(map.names, vec!["b".to_string()]);
    assert_eq!(map.clone(), map);
}

#[test]
fn document_starts_empty() {
    let data = ProfilesFile::default();
    assert_eq!(data.active_profile, None);
    assert_eq!(data.sync_mode, SyncMode::Strict);
    assert!(data.profiles.is_empty());
    assert!(!data.is_active("x"));
}

#[test]
fn deleting_the_active_profile_clears_it() {
    let mut store = sample_store(Some("work"));
    store.delete_profile("work");
    assert_eq!(store.data.active_profile, None);
    assert_eq!(store.data.profiles.names, vec!["home".to_string(), "lab".to_string()]);
    assert!(!store.has_adc("work"));
    assert!(store.has_adc("home"));
}

#[test]
fn deleting_another_profile_keeps_the_active_one() {
    let mut store = sample_store(Some("work"));
    store.delete_profile("home");
    assert_eq!(store.data.active_profile, Some("work".to_string()));
    assert_eq!(store.data.profiles.names, vec!["lab".to_string(), "work".to_string()]);
    assert!(store.has_adc("work"));
    assert!(!store.has_adc("home"));
}

#[test]
fn deleting_an_unknown_profile_changes_nothing() {
    let mut store = sample_store(Some("work"));
    store.delete_profile("nobody");
    assert_eq!(store, sample_store(Some("work")));
}

#[test]
fn store_adds_and_replaces_profiles() {
    let mut store = sample_store(None);
    store.add_profile("new", profile("n@x.com", "pn"));
    assert_eq!(store.data.profiles.get("new"), Some(&profile("n@x.com", "pn")));
    store.add_profile("new", profile("n2@x.com", "pn2"));
    assert_eq!(store.data.profiles.get("new"), Some(&profile("n2@x.com", "pn2")));
    assert_eq!(store.data.profiles.len(), 4);
    assert_eq!(store.data.active_profile, None);
}

#[test]
fn store_records_stored_credentials() {
    let mut store = sample_store(None);
    assert!(!store.has_adc("lab"));
    store.save_adc("lab");
    assert!(store.has_adc("lab"));
    store.save_adc("lab");
    assert_eq!(
        store.adc_profiles,
        vec!["home".to_string(), "lab".to_string(), "work".to_string()]
    );
}

#[test]
fn store_sets_active_profile_and_mode() {
    let mut store = sample_store(None);
    store.set_active("lab");
    store.set_sync_mode(SyncMode::Off);
    let data = store.load_profiles();
    assert_eq!(data.active_profile, Some("lab".to_string()));
    assert_eq!(data.sync_mode, SyncMode::Off);
    assert!(data.is_active("lab"));
    let mut other = Store::new(ProfilesFile::new(), &vec![]);
    other.save_profiles(data);
    assert_eq!(other.data, store.data);
}

//! Configurations that the credential backend knows, read from what it keeps on disk and
//! prints, and taken over as profiles.

use crate::lists::lemma_next_member;
use crate::profile::{
    opt_text, Profile, ProfileView, ProfilesFile, ProfilesFileView, SyncMode,
};
use crate::store::{Store, StoreView};
use crate::text::{
    ascending, find_slot, insert_sorted, split_of, split_text, strip_text_prefix, texts, trimmed,
};
use vstd::prelude::*;

verus! {

/// A configuration of the credential backend.
#[derive(Debug, PartialEq, Eq)]
pub struct DiscoveredConfig {
    pub name: String,
    pub account: String,
    pub project: String,
}

/// A configuration as plain values.
pub ghost struct ConfigView {
    pub name: Seq<char>,
    pub account: Seq<char>,
    pub project: Seq<char>,
}

impl View for DiscoveredConfig {
    type V = ConfigView;

    open spec fn view(&self) -> ConfigView {
        ConfigView { name: self.name@, account: self.account@, project: self.project@ }
    }
}

/// The views of a list of configurations.
pub open spec fn config_views(v: Seq<DiscoveredConfig>) -> Seq<ConfigView> {
    v.map_values(|c: DiscoveredConfig| c@)
}

/// The value that the first `n` lines give to a setting: what follows `prefix` on the last
/// line that begins with it, lines and value taken without surrounding white space. Empty
/// where no line sets it.
pub open spec fn setting_upto(lines: Seq<Seq<char>>, prefix: Seq<char>, n: int) -> Seq<char>
    decreases n,
{
    if n <= 0 {
        Seq::empty()
    } else {
        let line = trimmed(lines[n - 1]);
        if prefix.is_prefix_of(line) {
            trimmed(line.skip(prefix.len() as int))
        } else {
            setting_upto(lines, prefix, n - 1)
        }
    }
}

/// The value that a configuration text gives to a setting.
pub open spec fn setting_of(content: Seq<char>, prefix: Seq<char>) -> Seq<char> {
    let lines = split_of(content, '\n');
    setting_upto(lines, prefix, lines.len() as int)
}

/// The configuration that a file of the backend holds. The file's name is `config_`
/// followed by the configuration's name. A configuration without an account is none.
pub open spec fn config_of(file_name: Seq<char>, content: Seq<char>) -> Option<ConfigView> {
    if "config_"@.is_prefix_of(file_name) && setting_of(content, "account = "@).len() > 0 {
        Some(
            ConfigView {
                name: file_name.skip("config_"@.len() as int),
                account: setting_of(content, "account = "@),
                project: setting_of(content, "project = "@),
            },
        )
    } else {
        None
    }
}

/// Reads the value of a setting out of the lines of a configuration text.
fn read_setting(lines: &Vec<String>, prefix: &str) -> (r: String)
    ensures
        r@ == setting_upto(texts(lines@), prefix@, lines@.len() as int),
{
    let mut value = String::new();
    let mut i: usize = 0;
    while i < lines.len()
        invariant
            i <= lines.len(),
            value@ == setting_upto(texts(lines@), prefix@, i as int),
        decreases lines.len() - i,
    {
        let line = lines[i].as_str().trim();
        assert(texts(lines@)[i as int] == lines@[i as int]@);
        match strip_text_prefix(line, prefix) {
            Some(rest) => {
                value = String::from_str(rest.trim());
            },
            None => {},
        }
        i += 1;
    }
    value
}

/// Reads a configuration of the backend out of the file that holds it.
pub fn parse_config(file_name: &str, content: &str) -> (r: Option<DiscoveredConfig>)
    ensures
        r is Some <==> config_of(file_name@, content@) is Some,
        r matches Some(c) ==> config_of(file_name@, content@) == Some(c@),
{
    match strip_text_prefix(file_name, "config_") {
        Some(name) => {
            let lines = split_text(content, '\n');
            let account = read_setting(&lines, "account = ");
            let project = read_setting(&lines, "project = ");
            if account.as_str().is_empty() {
                None
            } else {
                Some(DiscoveredConfig { name: String::from_str(name), account, project })
            }
        },
        None => None,
    }
}

/// The lines among the first `n` that hold something, each without surrounding white
/// space.
pub open spec fn entries_upto(lines: Seq<Seq<char>>, n: int) -> Seq<Seq<char>>
    decreases n,
{
    if n <= 0 {
        Seq::empty()
    } else if trimmed(lines[n - 1]).len() > 0 {
        entries_upto(lines, n - 1).push(trimmed(lines[n - 1]))
    } else {
        entries_upto(lines, n - 1)
    }
}

/// The entries of a list that is printed one entry to a line.
pub open spec fn entries_of(output: Seq<char>) -> Seq<Seq<char>> {
    let lines = split_of(output, '\n');
    entries_upto(lines, lines.len() as int)
}

/// Reads a list that the backend printed one entry to a line, such as the projects of an
/// account: each line that holds something, without surrounding white space.
pub fn parse_project_list(output: &str) -> (r: Vec<String>)
    ensures
        texts(r@) == entries_of(output@),
{
    let lines = split_text(output, '\n');
    let mut out: Vec<String> = Vec::new();
    let mut i: usize = 0;
    proof {
        assert(texts(out@) =~= entries_upto(texts(lines@), 0));
    }
    while i < lines.len()
        invariant
            i <= lines.len(),
            texts(out@) == entries_upto(texts(lines@), i as int),
        decreases lines.len() - i,
    {
        let line = lines[i].as_str().trim();
        assert(texts(lines@)[i as int] == lines@[i as int]@);
        let ghost before = texts(out@);
        if !line.is_empty() {
            out.push(String::from_str(line));
            proof {
                assert(texts(out@) =~= before.push(line@));
            }
        }
        i += 1;
    }
    out
}

/// Reads the name of the configuration that is active at the backend out of the file that
/// holds it: the content without surrounding white space, if anything is left.
pub fn parse_active_config(content: &str) -> (r: Option<String>)
    ensures
        r is Some <==> trimmed(content@).len() > 0,
        r matches Some(name) ==> name@ == trimmed(content@),
{
    let name = content.trim();
    if name.is_empty() {
        None
    } else {
        Some(String::from_str(name))
    }
}

/// The profile that a configuration is taken over as: both roles get its account and
/// project, and `now` is its modification time.
pub open spec fn profile_from(config: ConfigView, now: i64) -> ProfileView {
    ProfileView {
        user_account: config.account,
        user_project: config.project,
        adc_account: config.account,
        adc_quota_project: config.project,
        updated_at: Some(now),
    }
}

/// The profiles after the first `n` configurations were taken over, in order: one whose
/// name is taken already is passed over.
pub open spec fn imported_upto(
    profiles: Map<Seq<char>, ProfileView>,
    configs: Seq<ConfigView>,
    now: i64,
    n: int,
) -> Map<Seq<char>, ProfileView>
    decreases n,
{
    if n <= 0 {
        profiles
    } else {
        let before = imported_upto(profiles, configs, now, n - 1);
        if before.contains_key(configs[n - 1].name) {
            before
        } else {
            before.insert(configs[n - 1].name, profile_from(configs[n - 1], now))
        }
    }
}

/// How many of the first `n` configurations were taken over.
pub open spec fn imported_count_upto(
    profiles: Map<Seq<char>, ProfileView>,
    configs: Seq<ConfigView>,
    now: i64,
    n: int,
) -> nat
    decreases n,
{
    if n <= 0 {
        0
    } else {
        let before = imported_upto(profiles, configs, now, n - 1);
        let count = imported_count_upto(profiles, configs, now, n - 1);
        if before.contains_key(configs[n - 1].name) {
            count
        } else {
            count + 1
        }
    }
}

/// An import passes over nothing that was there, and takes over nothing that no
/// configuration names.
pub proof fn lemma_imported_names(
    profiles: Map<Seq<char>, ProfileView>,
    configs: Seq<ConfigView>,
    now: i64,
    n: int,
    name: Seq<char>,
)
    requires
        0 <= n <= configs.len(),
    ensures
        profiles.contains_key(name) ==> imported_upto(profiles, configs, now, n).contains_key(name)
            && imported_upto(profiles, configs, now, n)[name] == profiles[name],
        imported_upto(profiles, configs, now, n).contains_key(name) <==> (profiles.contains_key(
            name,
        ) || exists|i: int| 0 <= i < n && (#[trigger] configs[i]).name == name),
        imported_count_upto(profiles, configs, now, n) <= n,
        imported_count_upto(profiles, configs, now, n) == 0 ==> imported_upto(
            profiles,
            configs,
            now,
            n,
        ) == profiles,
    decreases n,
{
    if n > 0 {
        lemma_imported_names(profiles, configs, now, n - 1, name);
        let before = imported_upto(profiles, configs, now, n - 1);
        if before.contains_key(name) && !profiles.contains_key(name) {
            let i = choose|i: int| 0 <= i < n - 1 && (#[trigger] configs[i]).name == name;
            assert(0 <= i < n && configs[i].name == name);
        }
        if configs[n - 1].name == name {
            assert(0 <= n - 1 < n && configs[n - 1].name == name);
        }
        if exists|i: int| 0 <= i < n && (#[trigger] configs[i]).name == name {
            let i = choose|i: int| 0 <= i < n && (#[trigger] configs[i]).name == name;
            if i < n - 1 {
                assert(0 <= i < n - 1 && configs[i].name == name);
            }
        }
    }
}

/// The document after an import: the configurations that are no profiles yet are taken
/// over, and if one was, the configuration that is active at the backend becomes the active
/// profile, provided it is a profile.
pub open spec fn imported(
    data: ProfilesFileView,
    configs: Seq<ConfigView>,
    backend_active: Option<Seq<char>>,
    now: i64,
) -> ProfilesFileView {
    let profiles = imported_upto(data.profiles, configs, now, configs.len() as int);
    let count = imported_count_upto(data.profiles, configs, now, configs.len() as int);
    ProfilesFileView {
        profiles,
        active_profile: match backend_active {
            Some(a) => if count > 0 && profiles.contains_key(a) {
                Some(a)
            } else {
                data.active_profile
            },
            None => data.active_profile,
        },
        ..data
    }
}

/// Takes the configurations that are no profiles yet over as profiles, with `now` as the
/// time of their modification, and returns how many were taken over. If one was, the
/// configuration that is active at the backend becomes the active profile, provided that it
/// is a profile.
pub fn import_configs(
    data: &mut ProfilesFile,
    configs: &Vec<DiscoveredConfig>,
    backend_active: &Option<String>,
    now: i64,
) -> (count: usize)
    requires
        old(data).wf(),
    ensures
        final(data).wf(),
        final(data)@ == imported(
            old(data)@,
            config_views(configs@),
            opt_text(*backend_active),
            now,
        ),
        count == imported_count_upto(
            old(data)@.profiles,
            config_views(configs@),
            now,
            configs@.len() as int,
        ),
        old(data)@.active_exists() ==> final(data)@.active_exists(),
{
    let ghost start = data@;
    let ghost views = config_views(configs@);
    let mut count: usize = 0;
    let mut i: usize = 0;
    while i < configs.len()
        invariant
            i <= configs.len(),
            views == config_views(configs@),
            data.wf(),
            data@.profiles == imported_upto(start.profiles, views, now, i as int),
            count == imported_count_upto(start.profiles, views, now, i as int),
            count <= i,
            data@.active_profile == start.active_profile,
            data@.sync_mode == start.sync_mode,
        decreases configs.len() - i,
    {
        let c = &configs[i];
        assert(views[i as int] == c@);
        if !data.profiles.contains_key(c.name.as_str()) {
            let mut profile = Profile::new(
                c.account.clone(),
                c.project.clone(),
                c.account.clone(),
                c.project.clone(),
            );
            profile.touch_at(now);
            data.profiles.insert(c.name.clone(), profile);
            count += 1;
        }
        i += 1;
    }
    if count > 0 {
        match backend_active {
            Some(a) => {
                if data.profiles.contains_key(a.as_str()) {
                    data.active_profile = Some(a.clone());
                }
            },
            None => {},
        }
    }
    proof {
        if start.active_profile is Some {
            lemma_imported_names(
                start.profiles,
                views,
                now,
                configs@.len() as int,
                start.active_profile->0,
            );
        }
    }
    count
}

/// The names of the configurations.
pub open spec fn config_names(configs: Seq<ConfigView>) -> Set<Seq<char>> {
    Set::new(|k: Seq<char>| exists|i: int| 0 <= i < configs.len() && (#[trigger] configs[i]).name == k)
}

/// The names of the configurations, in ascending order, each once.
pub fn known_names(configs: &Vec<DiscoveredConfig>) -> (r: Vec<String>)
    ensures
        ascending(texts(r@)),
        texts(r@).to_set() == config_names(config_views(configs@)),
{
    let ghost views = config_views(configs@);
    let mut out: Vec<String> = Vec::new();
    let mut i: usize = 0;
    proof {
        assert(texts(out@).to_set() =~= config_names(views.take(0)));
    }
    while i < configs.len()
        invariant
            i <= configs.len(),
            views == config_views(configs@),
            ascending(texts(out@)),
            texts(out@).to_set() == config_names(views.take(i as int)),
        decreases configs.len() - i,
    {
        assert(views[i as int] == configs@[i as int]@);
        insert_sorted(&mut out, configs[i].name.clone());
        proof {
            let pre = views.take(i as int);
            let nxt = views.take(i + 1);
            let now = texts(out@).to_set();
            assert forall|k: Seq<char>| now.contains(k) <==> config_names(nxt).contains(k) by {
                if config_names(pre).contains(k) {
                    let j = choose|j: int| 0 <= j < pre.len() && (#[trigger] pre[j]).name == k;
                    assert(nxt[j].name == k);
                }
                if k == views[i as int].name {
                    assert(nxt[i as int].name == k);
                }
                if config_names(nxt).contains(k) {
                    let j = choose|j: int| 0 <= j < nxt.len() && (#[trigger] nxt[j]).name == k;
                    if j < i {
                        assert(pre[j].name == k);
                    }
                }
            }
            assert(now =~= config_names(nxt));
        }
        i += 1;
    }
    proof {
        assert(views.take(i as int) =~= views);
    }
    out
}

/// The profiles that the strict mode removes: those that no configuration of the backend
/// stands for.
pub open spec fn orphans(profiles: Map<Seq<char>, ProfileView>, configs: Seq<ConfigView>) -> Set<
    Seq<char>,
> {
    Set::new(|k: Seq<char>| profiles.contains_key(k) && !config_names(configs).contains(k))
}

/// The store after it was brought in line with the backend at startup.
///
/// A store without profiles imports. Otherwise, unless the mode is off, the configurations
/// that are no profiles yet are taken over; in the strict mode the profiles that no
/// configuration stands for are removed, with the credentials stored for them, and none is
/// active if the active one was among them. Last, the configuration that is active at the
/// backend becomes the active profile, provided that it is a profile.
pub open spec fn synced(
    store: StoreView,
    configs: Seq<ConfigView>,
    backend_active: Option<Seq<char>>,
    now: i64,
) -> StoreView {
    if store.data.profiles == Map::<Seq<char>, ProfileView>::empty() {
        StoreView { data: imported(store.data, configs, backend_active, now), ..store }
    } else {
        let mode = store.data.sync_mode;
        let added = if mode == SyncMode::Off {
            store.data.profiles
        } else {
            imported_upto(store.data.profiles, configs, now, configs.len() as int)
        };
        let gone = if mode == SyncMode::Strict {
            orphans(added, configs)
        } else {
            Set::empty()
        };
        let kept = added.remove_keys(gone);
        let active = match store.data.active_profile {
            Some(a) => if gone.contains(a) {
                None
            } else {
                Some(a)
            },
            None => None,
        };
        StoreView {
            data: ProfilesFileView {
                profiles: kept,
                active_profile: match backend_active {
                    Some(a) => if kept.contains_key(a) {
                        Some(a)
                    } else {
                        active
                    },
                    None => active,
                },
                sync_mode: mode,
            },
            adc: store.adc.difference(gone),
        }
    }
}

/// The names of `names` that are not among `known`, in order.
fn names_not_among(names: &Vec<String>, known: &Vec<String>) -> (r: Vec<String>)
    requires
        ascending(texts(known@)),
    ensures
        texts(r@).to_set() == Set::new(
            |k: Seq<char>| texts(names@).contains(k) && !texts(known@).contains(k),
        ),
{
    let ghost all = texts(names@);
    let ghost kn = texts(known@);
    let mut out: Vec<String> = Vec::new();
    let mut i: usize = 0;
    proof {
        assert(texts(out@).to_set() =~= Set::new(
            |k: Seq<char>| all.take(0).contains(k) && !kn.contains(k),
        ));
    }
    while i < names.len()
        invariant
            i <= names.len(),
            all == texts(names@),
            kn == texts(known@),
            ascending(kn),
            texts(out@).to_set() == Set::new(
                |k: Seq<char>| all.take(i as int).contains(k) && !kn.contains(k),
            ),
        decreases names.len() - i,
    {
        let ghost before = texts(out@);
        let (_, found) = find_slot(known, names[i].as_str());
        assert(all[i as int] == names@[i as int]@);
        if !found {
            out.push(names[i].clone());
            proof {
                assert(texts(out@) =~= before.push(all[i as int]));
            }
        }
        proof {
            lemma_next_member(all, i as int);
            if !found {
                before.lemma_push_to_set_commute(all[i as int]);
            }
            assert forall|k: Seq<char>| texts(out@).to_set().contains(k) <==> (all.take(
                i + 1,
            ).contains(k) && !kn.contains(k)) by {
                assert(before.to_set().contains(k) <==> (all.take(i as int).contains(k)
                    && !kn.contains(k)));
            }
            assert(texts(out@).to_set() =~= Set::new(
                |k: Seq<char>| all.take(i + 1).contains(k) && !kn.contains(k),
            ));
        }
        i += 1;
    }
    proof {
        assert(all.take(i as int) =~= all);
    }
    out
}

/// Brings the store in line with the credential backend, as is done at startup, and tells
/// whether that changed the store, so that it has to be persisted. `configs` are the
/// configurations of the backend, `backend_active` the one that is active there, and `now`
/// the time that is recorded for the profiles taken over.
pub fn sync_on_startup(
    store: &mut Store,
    configs: &Vec<DiscoveredConfig>,
    backend_active: &Option<String>,
    now: i64,
) -> (changed: bool)
    requires
        old(store).wf(),
    ensures
        final(store).wf(),
        final(store)@ == synced(
            old(store)@,
            config_views(configs@),
            opt_text(*backend_active),
            now,
        ),
        changed == (final(store)@.data != old(store)@.data),
        old(store)@.data.active_exists() ==> final(store)@.data.active_exists(),
{
    let ghost start = store@;
    let ghost views = config_views(configs@);
    if store.data.profiles.is_empty() {
        proof {
            assert(store.data.profiles.keys().len() == 0);
            assert(start.data.profiles =~= Map::<Seq<char>, ProfileView>::empty());
        }
        let count = import_configs(&mut store.data, configs, backend_active, now);
        proof {
            lemma_imported_names(start.data.profiles, views, now, views.len() as int, seq![]);
            if count > 0 {
                lemma_import_adds(start.data.profiles, views, now, views.len() as int);
            }
        }
        return count > 0;
    }
    proof {
        store.data.profiles.lemma_entry(0);
        assert(start.data.profiles.contains_key(store.data.profiles.keys()[0]));
        assert(start.data.profiles != Map::<Seq<char>, ProfileView>::empty());
    }
    let mut changed = false;
    let mode = store.data.sync_mode;
    if mode.mirrors_additions() {
        let none: Option<String> = None;
        let count = import_configs(&mut store.data, configs, &none, now);
        proof {
            lemma_imported_names(start.data.profiles, views, now, views.len() as int, seq![]);
            if count > 0 {
                lemma_import_adds(start.data.profiles, views, now, views.len() as int);
            }
        }
        changed = count > 0;
    }
    let ghost added = store@.data.profiles;
    let ghost gone = if mode == SyncMode::Strict {
        orphans(added, views)
    } else {
        Set::empty()
    };
    assert(changed == (added != start.data.profiles));
    assert(changed ==> exists|k: Seq<char>|
        added.contains_key(k) && !start.data.profiles.contains_key(k) && config_names(
            views,
        ).contains(k));
    if mode == SyncMode::Strict {
        let known = known_names(configs);
        let doomed = names_not_among(&store.data.profiles.names, &known);
        let ghost list = texts(doomed@);
        proof {
            assert forall|k: Seq<char>| list.to_set().contains(k) <==> gone.contains(k) by {
                if store.data.profiles.keys().contains(k) {
                    let j = store.data.profiles.keys().index_of(k);
                    store.data.profiles.lemma_entry(j);
                }
                assert(texts(known@).contains(k) <==> texts(known@).to_set().contains(k));
            }
            assert(list.to_set() =~= gone);
            assert(list.take(0).to_set() =~= Set::<Seq<char>>::empty());
            assert(added.remove_keys(Set::<Seq<char>>::empty()) =~= added);
            assert(start.adc.difference(Set::<Seq<char>>::empty()) =~= start.adc);
        }
        let mut i: usize = 0;
        while i < doomed.len()
            invariant
                i <= doomed.len(),
                list == texts(doomed@),
                store.wf(),
                store@.data.profiles == added.remove_keys(list.take(i as int).to_set()),
                store@.adc == start.adc.difference(list.take(i as int).to_set()),
                store@.data.sync_mode == start.data.sync_mode,
                store@.data.active_profile == (match start.data.active_profile {
                    Some(a) => if list.take(i as int).to_set().contains(a) {
                        None
                    } else {
                        Some(a)
                    },
                    None => None,
                }),
            decreases doomed.len() - i,
        {
            assert(list[i as int] == doomed@[i as int]@);
            store.delete_profile(doomed[i].as_str());
            proof {
                lemma_next_member(list, i as int);
                assert(store@.data.profiles =~= added.remove_keys(list.take(i + 1).to_set()));
                assert(store@.adc =~= start.adc.difference(list.take(i + 1).to_set()));
            }
            i += 1;
        }
        proof {
            assert(list.take(i as int) =~= list);
            if doomed.len() > 0 {
                assert(list.contains(list[0]));
                assert(gone.contains(list[0]));
            } else {
                assert(gone =~= Set::<Seq<char>>::empty());
            }
        }
        if doomed.len() > 0 {
            changed = true;
        }
    }
    let ghost kept = added.remove_keys(gone);
    proof {
        if gone =~= Set::<Seq<char>>::empty() {
            assert(kept =~= added);
            assert(start.adc.difference(gone) =~= start.adc);
        } else {
            let lost = choose|k: Seq<char>| gone.contains(k);
            assert(added.contains_key(lost) && !kept.contains_key(lost));
            if added == start.data.profiles {
                assert(kept != start.data.profiles);
            }
        }
        if added != start.data.profiles {
            let fresh = choose|k: Seq<char>|
                added.contains_key(k) && !start.data.profiles.contains_key(k) && config_names(
                    views,
                ).contains(k);
            assert(kept.contains_key(fresh));
            assert(kept != start.data.profiles);
        }
        assert(changed == (kept != start.data.profiles));
        assert(store@.data.profiles == kept);
        if start.data.active_profile is Some && start.data.active_exists() {
            lemma_imported_names(
                start.data.profiles,
                views,
                now,
                views.len() as int,
                start.data.active_profile->0,
            );
        }
    }
    match backend_active {
        Some(a) => {
            if store.data.profiles.contains_key(a.as_str()) && !store.data.is_active(a.as_str()) {
                store.data.active_profile = Some(a.clone());
                changed = true;
            }
        },
        None => {},
    }
    changed
}

/// An import that takes a configuration over adds a name that was not there, and the name
/// is that of a configuration.
pub proof fn lemma_import_adds(
    profiles: Map<Seq<char>, ProfileView>,
    configs: Seq<ConfigView>,
    now: i64,
    n: int,
)
    requires
        0 <= n <= configs.len(),
        imported_count_upto(profiles, configs, now, n) > 0,
    ensures
        exists|k: Seq<char>|
            imported_upto(profiles, configs, now, n).contains_key(k) && !profiles.contains_key(k)
                && config_names(configs).contains(k),
        imported_upto(profiles, configs, now, n) != profiles,
    decreases n,
{
    if n > 0 {
        let before = imported_upto(profiles, configs, now, n - 1);
        let k = configs[n - 1].name;
        if before.contains_key(k) {
            lemma_import_adds(profiles, configs, now, n - 1);
            let w = choose|w: Seq<char>|
                before.contains_key(w) && !profiles.contains_key(w) && config_names(
                    configs,
                ).contains(w);
            assert(imported_upto(profiles, configs, now, n).contains_key(w));
        } else {
            lemma_imported_names(profiles, configs, now, n - 1, k);
            assert(imported_upto(profiles, configs, now, n).contains_key(k));
            assert(!profiles.contains_key(k));
            assert(config_names(configs).contains(k));
        }
    }
}

} // verus!

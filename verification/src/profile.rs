//! Profiles, the ordered map that holds them by name, and the document that is persisted.

use crate::lists::{lemma_insert_members, lemma_remove_members};
use crate::text::{
    ascending, clone_texts, find_slot, lemma_ascending_distinct, lemma_ascending_insert,
    lemma_ascending_remove, lemma_ascending_same_members, text_eq, texts,
};
use vstd::prelude::*;

verus! {

/// How the profile set follows the configurations known to the credential backend.
#[derive(Debug, Clone, Copy, PartialEq, Eq, Structural)]
pub enum SyncMode {
    Strict,
    Add,
    Off,
}

impl SyncMode {
    /// The mode that comes after this one when the user cycles through them.
    pub open spec fn spec_next(self) -> SyncMode {
        match self {
            SyncMode::Strict => SyncMode::Add,
            SyncMode::Add => SyncMode::Off,
            SyncMode::Off => SyncMode::Strict,
        }
    }

    /// The mode that comes after this one when the user cycles through them.
    #[verifier::when_used_as_spec(spec_next)]
    pub fn next(self) -> (r: SyncMode)
        ensures
            r == self.spec_next(),
    {
        match self {
            SyncMode::Strict => SyncMode::Add,
            SyncMode::Add => SyncMode::Off,
            SyncMode::Off => SyncMode::Strict,
        }
    }

    /// The word under which the mode is persisted and shown.
    pub open spec fn spec_label(self) -> Seq<char> {
        match self {
            SyncMode::Strict => "strict"@,
            SyncMode::Add => "add"@,
            SyncMode::Off => "off"@,
        }
    }

    /// The word under which the mode is persisted and shown.
    pub fn label(self) -> (r: &'static str)
        ensures
            r@ == self.spec_label(),
    {
        match self {
            SyncMode::Strict => "strict",
            SyncMode::Add => "add",
            SyncMode::Off => "off",
        }
    }

    /// Whether a profile added here is also made known to the credential backend.
    pub open spec fn spec_mirrors_additions(self) -> bool {
        self != SyncMode::Off
    }

    /// Whether a profile added here is also made known to the credential backend.
    #[verifier::when_used_as_spec(spec_mirrors_additions)]
    pub fn mirrors_additions(self) -> (r: bool)
        ensures
            r == self.spec_mirrors_additions(),
    {
        match self {
            SyncMode::Off => false,
            _ => true,
        }
    }
}

impl Default for SyncMode {
    fn default() -> (r: SyncMode)
        ensures
            r == SyncMode::Strict,
    {
        SyncMode::Strict
    }
}

/// What an optional string holds, as characters.
pub open spec fn opt_text(o: Option<String>) -> Option<Seq<char>> {
    match o {
        Some(s) => Some(s@),
        None => None,
    }
}

/// A copy of an optional string.
pub fn clone_opt_text(o: &Option<String>) -> (r: Option<String>)
    ensures
        opt_text(r) == opt_text(*o),
{
    match o {
        Some(s) => Some(s.clone()),
        None => None,
    }
}

/// A pair of credential references, each with the project that goes with it.
#[derive(Debug, PartialEq, Eq)]
pub struct Profile {
    pub user_account: String,
    pub user_project: String,
    pub adc_account: String,
    pub adc_quota_project: String,
    /// Seconds since the epoch at the last modification; `None` when that time is not known.
    pub updated_at: Option<i64>,
}

/// A profile as plain values.
pub ghost struct ProfileView {
    pub user_account: Seq<char>,
    pub user_project: Seq<char>,
    pub adc_account: Seq<char>,
    pub adc_quota_project: Seq<char>,
    pub updated_at: Option<i64>,
}

impl ProfileView {
    /// The modification time by which merges order two copies: an unknown time counts as 0,
    /// older than any known one.
    pub open spec fn timestamp(self) -> int {
        match self.updated_at {
            Some(t) => t as int,
            None => 0,
        }
    }
}

impl View for Profile {
    type V = ProfileView;

    open spec fn view(&self) -> ProfileView {
        ProfileView {
            user_account: self.user_account@,
            user_project: self.user_project@,
            adc_account: self.adc_account@,
            adc_quota_project: self.adc_quota_project@,
            updated_at: self.updated_at,
        }
    }
}

impl Clone for Profile {
    fn clone(&self) -> (r: Profile)
        ensures
            r@ == self@,
    {
        Profile {
            user_account: self.user_account.clone(),
            user_project: self.user_project.clone(),
            adc_account: self.adc_account.clone(),
            adc_quota_project: self.adc_quota_project.clone(),
            updated_at: self.updated_at,
        }
    }
}

/// `SystemTime::now`, as whole seconds since the epoch; 0 when the clock stands before the
/// epoch. Nothing is claimed of the value.
#[verifier::external_body]
fn epoch_seconds() -> i64 {
    std::time::SystemTime::now().duration_since(std::time::UNIX_EPOCH).unwrap_or_default().as_secs() as i64
}

impl Profile {
    /// A profile without a modification time.
    pub fn new(
        user_account: String,
        user_project: String,
        adc_account: String,
        adc_quota_project: String,
    ) -> (r: Profile)
        ensures
            r@ == (ProfileView {
                user_account: user_account@,
                user_project: user_project@,
                adc_account: adc_account@,
                adc_quota_project: adc_quota_project@,
                updated_at: None,
            }),
    {
        Profile { user_account, user_project, adc_account, adc_quota_project, updated_at: None }
    }

    /// The profile with all four fields empty and no modification time.
    pub fn empty() -> (r: Profile)
        ensures
            r@ == (ProfileView {
                user_account: Seq::empty(),
                user_project: Seq::empty(),
                adc_account: Seq::empty(),
                adc_quota_project: Seq::empty(),
                updated_at: None,
            }),
    {
        Profile::new(String::new(), String::new(), String::new(), String::new())
    }

    /// Whether both profiles hold the same values in every field.
    pub fn same_as(&self, other: &Profile) -> (r: bool)
        ensures
            r == (self@ == other@),
    {
        let times = match (self.updated_at, other.updated_at) {
            (Some(a), Some(b)) => a == b,
            (None, None) => true,
            _ => false,
        };
        times && self.user_account == other.user_account && self.user_project
            == other.user_project && self.adc_account == other.adc_account
            && self.adc_quota_project == other.adc_quota_project
    }

    /// The modification time by which merges order two copies.
    pub fn timestamp(&self) -> (r: i64)
        ensures
            r == self@.timestamp(),
    {
        match self.updated_at {
            Some(t) => t,
            None => 0,
        }
    }

    /// Records `secs` as the time of the last modification.
    pub fn touch_at(&mut self, secs: i64)
        ensures
            final(self)@ == (ProfileView { updated_at: Some(secs), ..old(self)@ }),
    {
        self.updated_at = Some(secs);
    }

    /// Records the present time as the time of the last modification. Which time that is
    /// depends on the clock; the four credential fields stay as they are.
    pub fn touch(&mut self)
        ensures
            final(self)@.updated_at is Some,
            final(self)@ == (ProfileView {
                updated_at: final(self)@.updated_at,
                ..old(self)@
            }),
    {
        let now = epoch_seconds();
        self.touch_at(now);
    }
}

/// The views of a list of profiles.
pub open spec fn profile_views(v: Seq<Profile>) -> Seq<ProfileView> {
    v.map_values(|p: Profile| p@)
}

/// The map from each key to the value at the same index.
pub open spec fn pairs_to_map(keys: Seq<Seq<char>>, values: Seq<ProfileView>) -> Map<
    Seq<char>,
    ProfileView,
> {
    Map::new(|k: Seq<char>| keys.contains(k), |k: Seq<char>| values[keys.index_of(k)])
}

/// In a list without repetitions, the key at index `i` maps to the value at index `i`.
pub proof fn lemma_pairs_entry(keys: Seq<Seq<char>>, values: Seq<ProfileView>, i: int)
    requires
        keys.no_duplicates(),
        0 <= i < keys.len(),
    ensures
        pairs_to_map(keys, values).contains_key(keys[i]),
        pairs_to_map(keys, values)[keys[i]] == values[i],
        keys.index_of(keys[i]) == i,
{
    assert(keys.contains(keys[i]));
    let j = keys.index_of(keys[i]);
    assert(0 <= j < keys.len() && keys[j] == keys[i]);
}

/// Profiles by name, in the order of their names. Every name occurs once.
#[derive(Debug, PartialEq, Eq)]
pub struct ProfileMap {
    pub names: Vec<String>,
    pub profiles: Vec<Profile>,
}

impl View for ProfileMap {
    type V = Map<Seq<char>, ProfileView>;

    open spec fn view(&self) -> Map<Seq<char>, ProfileView> {
        pairs_to_map(self.keys(), self.values())
    }
}

impl ProfileMap {
    /// The names, in order.
    pub open spec fn keys(&self) -> Seq<Seq<char>> {
        texts(self.names@)
    }

    /// The profiles, in the order of their names.
    pub open spec fn values(&self) -> Seq<ProfileView> {
        profile_views(self.profiles@)
    }

    /// One profile for each name, and the names strictly ascending.
    pub open spec fn wf(&self) -> bool {
        &&& self.names@.len() == self.profiles@.len()
        &&& ascending(self.keys())
    }

    /// What a well-formed map says of the entry at index `i`.
    pub proof fn lemma_entry(&self, i: int)
        requires
            self.wf(),
            0 <= i < self.names@.len(),
        ensures
            self@.contains_key(self.keys()[i]),
            self@[self.keys()[i]] == self.values()[i],
            self.keys().index_of(self.keys()[i]) == i,
    {
        lemma_ascending_distinct(self.keys());
        lemma_pairs_entry(self.keys(), self.values(), i);
    }

    /// The names of a well-formed map are the keys of its view, each once.
    pub proof fn lemma_keys_are_domain(&self)
        requires
            self.wf(),
        ensures
            self.keys().to_set() == self@.dom(),
            self.keys().no_duplicates(),
            self@.dom().finite(),
            self@.dom().len() == self.keys().len(),
    {
        lemma_ascending_distinct(self.keys());
        assert(self.keys().to_set() =~= self@.dom());
        self.keys().unique_seq_to_set();
    }

    /// Two well-formed maps with the same entries list them in the same order.
    pub proof fn lemma_same_entries_same_order(&self, other: &ProfileMap)
        requires
            self.wf(),
            other.wf(),
            self@ == other@,
        ensures
            self.keys() == other.keys(),
            self.values() == other.values(),
    {
        let a = self.keys();
        let b = other.keys();
        lemma_ascending_distinct(a);
        lemma_ascending_distinct(b);
        assert forall|i: int| 0 <= i < a.len() implies b.contains(#[trigger] a[i]) by {
            self.lemma_entry(i);
            assert(other@.contains_key(a[i]));
        }
        assert forall|i: int| 0 <= i < b.len() implies a.contains(#[trigger] b[i]) by {
            other.lemma_entry(i);
            assert(self@.contains_key(b[i]));
        }
        lemma_ascending_same_members(a, b);
        assert(a == b);
        assert forall|i: int| 0 <= i < a.len() implies self.values()[i] == other.values()[i] by {
            self.lemma_entry(i);
            other.lemma_entry(i);
        }
        assert(self.values() =~= other.values());
    }

    /// The map without profiles.
    pub fn new() -> (r: ProfileMap)
        ensures
            r.wf(),
            r@ == Map::<Seq<char>, ProfileView>::empty(),
            r.keys() == Seq::<Seq<char>>::empty(),
    {
        let r = ProfileMap { names: Vec::new(), profiles: Vec::new() };
        proof {
            assert(r.keys() =~= Seq::<Seq<char>>::empty());
            assert(r@ =~= Map::<Seq<char>, ProfileView>::empty());
        }
        r
    }

    /// The number of profiles.
    pub fn len(&self) -> (r: usize)
        ensures
            r == self.names@.len(),
    {
        self.names.len()
    }

    /// Whether there is no profile.
    pub fn is_empty(&self) -> (r: bool)
        ensures
            r == (self.names@.len() == 0),
    {
        self.names.len() == 0
    }

    /// The index of the profile called `name`.
    pub fn position(&self, name: &str) -> (r: Option<usize>)
        requires
            self.wf(),
        ensures
            r is Some <==> self@.contains_key(name@),
            r is Some ==> r->0 < self.names@.len() && self.keys()[r->0 as int] == name@,
    {
        let (at, found) = find_slot(&self.names, name);
        if found {
            Some(at)
        } else {
            None
        }
    }

    /// Whether there is a profile called `name`.
    pub fn contains_key(&self, name: &str) -> (r: bool)
        requires
            self.wf(),
        ensures
            r == self@.contains_key(name@),
    {
        self.position(name).is_some()
    }

    /// The profile called `name`.
    pub fn get(&self, name: &str) -> (r: Option<&Profile>)
        requires
            self.wf(),
        ensures
            r is Some <==> self@.contains_key(name@),
            r is Some ==> r->0@ == self@[name@],
    {
        match self.position(name) {
            Some(at) => {
                proof {
                    self.lemma_entry(at as int);
                }
                Some(&self.profiles[at])
            },
            None => None,
        }
    }

    /// Adds the profile under `name`, in place of the one that had this name, if any.
    pub fn insert(&mut self, name: String, profile: Profile)
        requires
            old(self).wf(),
        ensures
            final(self).wf(),
            final(self)@ == old(self)@.insert(name@, profile@),
    {
        let ghost before = *self;
        let ghost k = name@;
        let ghost v = profile@;
        let (at, found) = find_slot(&self.names, name.as_str());
        if found {
            self.profiles[at] = profile;
            proof {
                assert(self.values() =~= before.values().update(at as int, v));
                assert(self.keys() == before.keys());
                lemma_ascending_distinct(self.keys());
                assert forall|t: Seq<char>| #[trigger]
                    self@.contains_key(t) == before@.insert(k, v).contains_key(t) by {}
                assert forall|t: Seq<char>| self@.contains_key(t) implies #[trigger] self@[t]
                    == before@.insert(k, v)[t] by {
                    let i = self.keys().index_of(t);
                    self.lemma_entry(i);
                    before.lemma_entry(i);
                    before.lemma_entry(at as int);
                }
                assert(self@ =~= before@.insert(k, v));
            }
        } else {
            self.names.insert(at, name);
            self.profiles.insert(at, profile);
            proof {
                let a = at as int;
                assert(self.keys() =~= before.keys().insert(a, k));
                assert(self.values() =~= before.values().insert(a, v));
                lemma_ascending_insert(before.keys(), a, k);
                lemma_insert_members(before.keys(), a, k);
                assert forall|t: Seq<char>| #[trigger]
                    self@.contains_key(t) == before@.insert(k, v).contains_key(t) by {
                    assert(self.keys().to_set().contains(t) == before.keys().to_set().insert(
                        k,
                    ).contains(t));
                }
                assert forall|t: Seq<char>| self@.contains_key(t) implies #[trigger] self@[t]
                    == before@.insert(k, v)[t] by {
                    let i = self.keys().index_of(t);
                    self.lemma_entry(i);
                    if i < a {
                        before.lemma_entry(i);
                    } else if i > a {
                        before.lemma_entry(i - 1);
                    }
                }
                assert(self@ =~= before@.insert(k, v));
            }
        }
    }

    /// Removes the profile called `name` and returns it.
    pub fn remove(&mut self, name: &str) -> (r: Option<Profile>)
        requires
            old(self).wf(),
        ensures
            final(self).wf(),
            final(self)@ == old(self)@.remove(name@),
            r is Some <==> old(self)@.contains_key(name@),
            r is Some ==> r->0@ == old(self)@[name@],
    {
        let ghost before = *self;
        let ghost k = name@;
        let (at, found) = find_slot(&self.names, name);
        if found {
            let _ = self.names.remove(at);
            let gone = self.profiles.remove(at);
            proof {
                let a = at as int;
                assert(self.keys() =~= before.keys().remove(a));
                assert(self.values() =~= before.values().remove(a));
                lemma_ascending_distinct(before.keys());
                lemma_ascending_remove(before.keys(), a);
                lemma_remove_members(before.keys(), a);
                before.lemma_entry(a);
                assert forall|t: Seq<char>| #[trigger]
                    self@.contains_key(t) == before@.remove(k).contains_key(t) by {
                    assert(self.keys().to_set().contains(t) == before.keys().to_set().remove(
                        k,
                    ).contains(t));
                }
                assert forall|t: Seq<char>| self@.contains_key(t) implies #[trigger] self@[t]
                    == before@.remove(k)[t] by {
                    let i = self.keys().index_of(t);
                    self.lemma_entry(i);
                    let bi = if i < a { i } else { i + 1 };
                    before.lemma_entry(bi);
                }
                assert(self@ =~= before@.remove(k));
            }
            Some(gone)
        } else {
            proof {
                assert(self@ =~= before@.remove(k));
            }
            None
        }
    }
}

/// A copy of a list of profiles.
pub fn clone_profiles(v: &Vec<Profile>) -> (r: Vec<Profile>)
    ensures
        profile_views(r@) == profile_views(v@),
{
    let mut out: Vec<Profile> = Vec::new();
    let mut i: usize = 0;
    while i < v.len()
        invariant
            i <= v.len(),
            out@.len() == i,
            forall|k: int| 0 <= k < i ==> (#[trigger] out@[k])@ == v@[k]@,
        decreases v.len() - i,
    {
        out.push(v[i].clone());
        i += 1;
    }
    proof {
        assert(profile_views(out@) =~= profile_views(v@));
    }
    out
}

impl Clone for ProfileMap {
    fn clone(&self) -> (r: ProfileMap)
        ensures
            r.keys() == self.keys(),
            r.values() == self.values(),
            r@ == self@,
            r.wf() == self.wf(),
    {
        let r = ProfileMap {
            names: clone_texts(&self.names),
            profiles: clone_profiles(&self.profiles),
        };
        proof {
            assert(r.keys().len() == r.names@.len() && r.values().len() == r.profiles@.len());
            assert(self.keys().len() == self.names@.len());
            assert(self.values().len() == self.profiles@.len());
        }
        r
    }
}

/// The persisted document: which profile is active, the sync mode, and the profiles.
#[derive(Debug, PartialEq, Eq)]
pub struct ProfilesFile {
    pub active_profile: Option<String>,
    pub sync_mode: SyncMode,
    pub profiles: ProfileMap,
}

/// The persisted document as plain values.
pub ghost struct ProfilesFileView {
    pub active_profile: Option<Seq<char>>,
    pub sync_mode: SyncMode,
    pub profiles: Map<Seq<char>, ProfileView>,
}

impl ProfilesFileView {
    /// The active profile, if one is named, is among the profiles.
    pub open spec fn active_exists(self) -> bool {
        match self.active_profile {
            Some(name) => self.profiles.contains_key(name),
            None => true,
        }
    }
}

impl View for ProfilesFile {
    type V = ProfilesFileView;

    open spec fn view(&self) -> ProfilesFileView {
        ProfilesFileView {
            active_profile: opt_text(self.active_profile),
            sync_mode: self.sync_mode,
            profiles: self.profiles@,
        }
    }
}

impl ProfilesFile {
    /// The map of the profiles is well-formed.
    pub open spec fn wf(&self) -> bool {
        self.profiles.wf()
    }

    /// The document with no profile, no active profile and the strict mode.
    pub fn new() -> (r: ProfilesFile)
        ensures
            r.wf(),
            r@ == (ProfilesFileView {
                active_profile: None,
                sync_mode: SyncMode::Strict,
                profiles: Map::empty(),
            }),
            r.profiles.keys() == Seq::<Seq<char>>::empty(),
    {
        ProfilesFile {
            active_profile: None,
            sync_mode: SyncMode::Strict,
            profiles: ProfileMap::new(),
        }
    }

    /// Whether `name` is the active profile.
    pub fn is_active(&self, name: &str) -> (r: bool)
        ensures
            r == (self@.active_profile == Some(name@)),
    {
        match &self.active_profile {
            Some(active) => text_eq(active.as_str(), name),
            None => false,
        }
    }
}

impl Default for ProfilesFile {
    fn default() -> (r: ProfilesFile)
        ensures
            r.wf(),
            r@ == (ProfilesFileView {
                active_profile: None,
                sync_mode: SyncMode::Strict,
                profiles: Map::empty(),
            }),
            r.profiles.keys() == Seq::<Seq<char>>::empty(),
    {
        ProfilesFile::new()
    }
}

impl Clone for ProfilesFile {
    fn clone(&self) -> (r: ProfilesFile)
        ensures
            r@ == self@,
            r.profiles.keys() == self.profiles.keys(),
            r.profiles.values() == self.profiles.values(),
            r.wf() == self.wf(),
    {
        ProfilesFile {
            active_profile: clone_opt_text(&self.active_profile),
            sync_mode: self.sync_mode,
            profiles: self.profiles.clone(),
        }
    }
}

} // verus!

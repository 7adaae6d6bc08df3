//! The profile store as it stands in memory between a load and a save: the persisted
//! document and the names of the profiles for which credentials of the secondary role are
//! kept.

use crate::profile::{Profile, ProfilesFile, ProfilesFileView, SyncMode};
use crate::lists::lemma_remove_members;
use crate::text::{
    ascending, find_slot, insert_all_sorted, insert_sorted, lemma_ascending_distinct,
    lemma_ascending_remove, texts,
};
use vstd::prelude::*;

verus! {

/// The content of the profile store.
#[derive(Debug, PartialEq, Eq)]
pub struct Store {
    pub data: ProfilesFile,
    /// The profiles that have stored credentials of the secondary role, in ascending order.
    pub adc_profiles: Vec<String>,
}

/// The content of the profile store as plain values.
pub ghost struct StoreView {
    pub data: ProfilesFileView,
    pub adc: Set<Seq<char>>,
}

impl View for Store {
    type V = StoreView;

    open spec fn view(&self) -> StoreView {
        StoreView { data: self.data@, adc: texts(self.adc_profiles@).to_set() }
    }
}

impl Store {
    /// The document is well-formed, and the names with stored credentials ascend.
    pub open spec fn wf(&self) -> bool {
        self.data.wf() && ascending(texts(self.adc_profiles@))
    }

    /// The store that holds `data`, with stored secondary credentials for the profiles
    /// named in `adc_profiles`.
    pub fn new(data: ProfilesFile, adc_profiles: &Vec<String>) -> (r: Store)
        requires
            data.wf(),
        ensures
            r.wf(),
            r@.data == data@,
            r.data.profiles.keys() == data.profiles.keys(),
            r.data.profiles.values() == data.profiles.values(),
            r@.adc == texts(adc_profiles@).to_set(),
    {
        let mut sorted: Vec<String> = Vec::new();
        insert_all_sorted(&mut sorted, adc_profiles);
        proof {
            assert(texts(sorted@).to_set() =~= texts(adc_profiles@).to_set());
        }
        Store { data, adc_profiles: sorted }
    }

    /// A copy of the document.
    pub fn load_profiles(&self) -> (r: ProfilesFile)
        ensures
            r@ == self@.data,
            r.profiles.keys() == self.data.profiles.keys(),
            r.profiles.values() == self.data.profiles.values(),
            r.wf() == self.data.wf(),
    {
        self.data.clone()
    }

    /// Puts `data` in place of the document.
    pub fn save_profiles(&mut self, data: ProfilesFile)
        ensures
            final(self)@ == (StoreView { data: data@, ..old(self)@ }),
            final(self).data.profiles.keys() == data.profiles.keys(),
            final(self).data.profiles.values() == data.profiles.values(),
            old(self).wf() && data.wf() ==> final(self).wf(),
    {
        self.data = data;
    }

    /// Whether credentials of the secondary role are stored for the profile.
    pub fn has_adc(&self, profile_name: &str) -> (r: bool)
        requires
            self.wf(),
        ensures
            r == self@.adc.contains(profile_name@),
    {
        let (_, found) = find_slot(&self.adc_profiles, profile_name);
        found
    }

    /// Records that credentials of the secondary role are now stored for the profile.
    pub fn save_adc(&mut self, profile_name: &str)
        requires
            old(self).wf(),
        ensures
            final(self).wf(),
            final(self)@ == (StoreView {
                adc: old(self)@.adc.insert(profile_name@),
                ..old(self)@
            }),
            final(self).data.profiles.keys() == old(self).data.profiles.keys(),
            final(self).data.profiles.values() == old(self).data.profiles.values(),
    {
        insert_sorted(&mut self.adc_profiles, String::from_str(profile_name));
    }

    /// Adds the profile under `name`, in place of the one that had this name, if any.
    /// Nothing else changes.
    pub fn add_profile(&mut self, name: &str, profile: Profile)
        requires
            old(self).wf(),
        ensures
            final(self).wf(),
            final(self)@ == (StoreView {
                data: ProfilesFileView {
                    profiles: old(self)@.data.profiles.insert(name@, profile@),
                    ..old(self)@.data
                },
                ..old(self)@
            }),
            old(self)@.data.active_exists() ==> final(self)@.data.active_exists(),
    {
        self.data.profiles.insert(String::from_str(name), profile);
    }

    /// Removes the profile called `name`, together with the credentials stored for it. If
    /// it was the active profile, no profile is active afterwards; else the active profile
    /// stays as it is.
    pub fn delete_profile(&mut self, name: &str)
        requires
            old(self).wf(),
        ensures
            final(self).wf(),
            final(self)@.data.profiles == old(self)@.data.profiles.remove(name@),
            final(self)@.data.active_profile == (if old(self)@.data.active_profile == Some(name@) {
                None
            } else {
                old(self)@.data.active_profile
            }),
            final(self)@.data.sync_mode == old(self)@.data.sync_mode,
            final(self)@.adc == old(self)@.adc.remove(name@),
            old(self)@.data.active_exists() ==> final(self)@.data.active_exists(),
    {
        let _ = self.data.profiles.remove(name);
        let (at, found) = find_slot(&self.adc_profiles, name);
        let ghost before = texts(self.adc_profiles@);
        if found {
            let _ = self.adc_profiles.remove(at);
            proof {
                assert(texts(self.adc_profiles@) =~= before.remove(at as int));
                lemma_ascending_remove(before, at as int);
                lemma_ascending_distinct(before);
                lemma_remove_members(before, at as int);
            }
        } else {
            proof {
                assert(before.to_set() =~= before.to_set().remove(name@));
            }
        }
        if self.data.is_active(name) {
            self.data.active_profile = None;
        }
    }

    /// Makes the profile called `name` the active one.
    pub fn set_active(&mut self, name: &str)
        ensures
            final(self)@ == (StoreView {
                data: ProfilesFileView { active_profile: Some(name@), ..old(self)@.data },
                ..old(self)@
            }),
            final(self).data.profiles.keys() == old(self).data.profiles.keys(),
            final(self).data.profiles.values() == old(self).data.profiles.values(),
            old(self).wf() ==> final(self).wf(),
    {
        self.data.active_profile = Some(String::from_str(name));
    }

    /// Sets the sync mode.
    pub fn set_sync_mode(&mut self, mode: SyncMode)
        ensures
            final(self)@ == (StoreView {
                data: ProfilesFileView { sync_mode: mode, ..old(self)@.data },
                ..old(self)@
            }),
            final(self).data.profiles.keys() == old(self).data.profiles.keys(),
            final(self).data.profiles.values() == old(self).data.profiles.values(),
            old(self).wf() ==> final(self).wf(),
    {
        self.data.sync_mode = mode;
    }
}

} // verus!

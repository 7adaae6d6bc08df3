//! Reconciling the local profile set with a copy fetched from a synchronization target.

use crate::lists::lemma_next_member;
use crate::profile::{ProfileMap, ProfileView, ProfilesFile};
use crate::text::{lemma_ascending_distinct, texts, trimmed};
use vstd::prelude::*;

verus! {

/// Where the profile set is synchronized to.
#[derive(Debug, PartialEq, Eq)]
pub struct SyncConfig {
    pub remote_url: String,
    pub branch: String,
}

/// The branch that is used when none is configured.
pub fn default_branch() -> (r: String)
    ensures
        r@ == "main"@,
{
    String::from_str("main")
}

impl Default for SyncConfig {
    fn default() -> (r: SyncConfig)
        ensures
            r.remote_url@.len() == 0,
            r.branch@ == "main"@,
    {
        SyncConfig { remote_url: String::new(), branch: default_branch() }
    }
}

impl SyncConfig {
    /// Whether the configuration names a remote; one that names none counts as absent.
    pub fn is_configured(&self) -> (r: bool)
        ensures
            r == (self.remote_url@.len() > 0),
    {
        !self.remote_url.as_str().is_empty()
    }
}

/// Whether a stored configuration text holds anything but white space; one that does not
/// counts as absent.
pub fn has_content(text: &str) -> (r: bool)
    ensures
        r == (trimmed(text@).len() > 0),
{
    !text.trim().is_empty()
}

/// Which copy of a profile is kept when both sides changed it.
#[derive(Debug, Clone, Copy, PartialEq, Eq, Structural)]
pub enum MergeChoice {
    Local,
    Remote,
}

/// The choice that an answer to the conflict prompt stands for: the remote copy when the
/// answer, without surrounding white space, begins with `r` or `R`, else the local copy.
pub open spec fn choice_of_answer(answer: Seq<char>) -> MergeChoice {
    let t = trimmed(answer);
    if t.len() > 0 && (t[0] == 'r' || t[0] == 'R') {
        MergeChoice::Remote
    } else {
        MergeChoice::Local
    }
}

/// Reads the answer to the conflict prompt. Anything but an answer for the remote copy
/// keeps the local one.
pub fn parse_merge_choice(answer: &str) -> (r: MergeChoice)
    ensures
        r == choice_of_answer(answer@),
{
    let t = answer.trim();
    if t.is_empty() {
        return MergeChoice::Local;
    }
    let first = t.get_char(0);
    if first == 'r' || first == 'R' {
        MergeChoice::Remote
    } else {
        MergeChoice::Local
    }
}

/// Both copies carry the same known modification time and differ in some field.
pub open spec fn is_conflict(local: ProfileView, remote: ProfileView) -> bool {
    remote.timestamp() == local.timestamp() && remote.timestamp() != 0 && local != remote
}

/// The copy that the merge keeps of a profile that the remote set holds: the remote copy
/// where the local set lacks the profile, where the remote copy is newer, and where the two
/// conflict and the remote copy was chosen; else the local copy.
pub open spec fn merged_entry(
    local: Option<ProfileView>,
    remote: ProfileView,
    choice: MergeChoice,
) -> ProfileView {
    match local {
        None => remote,
        Some(l) => if remote.timestamp() > l.timestamp() {
            remote
        } else if is_conflict(l, remote) && choice == MergeChoice::Remote {
            remote
        } else {
            l
        },
    }
}

/// The entry of `m` under `k`, if there is one.
pub open spec fn lookup(m: Map<Seq<char>, ProfileView>, k: Seq<char>) -> Option<ProfileView> {
    if m.contains_key(k) {
        Some(m[k])
    } else {
        None
    }
}

/// The names among the first `n` remote profiles that conflict with the local copy, in the
/// order of the remote set.
pub open spec fn conflicts_upto(
    local: Map<Seq<char>, ProfileView>,
    names: Seq<Seq<char>>,
    remote: Seq<ProfileView>,
    n: int,
) -> Seq<Seq<char>>
    decreases n,
{
    if n <= 0 {
        Seq::empty()
    } else {
        let before = conflicts_upto(local, names, remote, n - 1);
        if local.contains_key(names[n - 1]) && is_conflict(local[names[n - 1]], remote[n - 1]) {
            before.push(names[n - 1])
        } else {
            before
        }
    }
}

/// The choice made for the conflict with the number `k`, counted from 0 in the order of the
/// remote set. A conflict without an answer keeps the local copy.
pub open spec fn choice_at(choices: Seq<MergeChoice>, k: int) -> MergeChoice {
    if 0 <= k < choices.len() {
        choices[k]
    } else {
        MergeChoice::Local
    }
}

/// The profiles after the first `n` remote profiles have been merged into the local ones.
/// Every local name stays. A name of the remote set maps to the copy that `merged_entry`
/// keeps, with the choice made for it if it is in conflict.
pub open spec fn merged_upto(
    local: Map<Seq<char>, ProfileView>,
    names: Seq<Seq<char>>,
    remote: Seq<ProfileView>,
    choices: Seq<MergeChoice>,
    n: int,
) -> Map<Seq<char>, ProfileView> {
    Map::new(
        |k: Seq<char>| local.contains_key(k) || names.take(n).contains(k),
        |k: Seq<char>|
            if names.take(n).contains(k) {
                let i = names.index_of(k);
                merged_entry(
                    lookup(local, k),
                    remote[i],
                    choice_at(choices, conflicts_upto(local, names, remote, i).len() as int),
                )
            } else {
                local[k]
            },
    )
}

/// The profiles of the merge of `remote` into `local`.
pub open spec fn merged_profiles(
    local: ProfileMap,
    remote: ProfileMap,
    choices: Seq<MergeChoice>,
) -> Map<Seq<char>, ProfileView> {
    merged_upto(local@, remote.keys(), remote.values(), choices, remote.keys().len() as int)
}

/// The names of the profiles that both sides changed, in the order of the remote set.
pub open spec fn conflict_names(local: ProfileMap, remote: ProfileMap) -> Seq<Seq<char>> {
    conflicts_upto(local@, remote.keys(), remote.values(), remote.keys().len() as int)
}

/// The profiles for which the merge needs a choice, in the order in which `merge_profiles`
/// takes the choices.
pub fn conflicts(local: &ProfilesFile, remote: &ProfilesFile) -> (r: Vec<String>)
    requires
        local.wf(),
        remote.wf(),
    ensures
        texts(r@) == conflict_names(local.profiles, remote.profiles),
{
    let mut out: Vec<String> = Vec::new();
    let mut i: usize = 0;
    let ghost names = remote.profiles.keys();
    let ghost values = remote.profiles.values();
    proof {
        assert(texts(out@) =~= conflicts_upto(local.profiles@, names, values, 0));
    }
    while i < remote.profiles.len()
        invariant
            local.wf(),
            remote.wf(),
            i <= remote.profiles.names@.len(),
            names == remote.profiles.keys(),
            values == remote.profiles.values(),
            texts(out@) == conflicts_upto(local.profiles@, names, values, i as int),
        decreases remote.profiles.names@.len() - i,
    {
        let name = &remote.profiles.names[i];
        let theirs = &remote.profiles.profiles[i];
        let ghost before = texts(out@);
        match local.profiles.get(name.as_str()) {
            Some(ours) => {
                let rt = theirs.timestamp();
                if rt == ours.timestamp() && rt != 0 && !ours.same_as(theirs) {
                    out.push(name.clone());
                    proof {
                        assert(texts(out@) =~= before.push(names[i as int]));
                    }
                }
            },
            None => {},
        }
        i += 1;
    }
    out
}

/// Merges the remote set into the local one. Of a profile that only one side holds, that
/// copy is kept; of one that both hold, the newer copy; where both carry the same known time
/// and differ, the copy chosen in `choices`, which are taken in the order of `conflicts`.
/// The active profile and the sync mode are those of the local set.
pub fn merge_profiles(
    local: &ProfilesFile,
    remote: &ProfilesFile,
    choices: &Vec<MergeChoice>,
) -> (r: ProfilesFile)
    requires
        local.wf(),
        remote.wf(),
    ensures
        r.wf(),
        r@.active_profile == local@.active_profile,
        r@.sync_mode == local@.sync_mode,
        r@.profiles == merged_profiles(local.profiles, remote.profiles, choices@),
        local@.active_exists() ==> r@.active_exists(),
{
    let mut out = local.clone();
    let mut answered: usize = 0;
    let mut i: usize = 0;
    let ghost mine = local.profiles@;
    let ghost names = remote.profiles.keys();
    let ghost values = remote.profiles.values();
    proof {
        lemma_ascending_distinct(names);
        assert(names.take(0) =~= Seq::<Seq<char>>::empty());
        assert(out.profiles@ =~= merged_upto(mine, names, values, choices@, 0));
    }
    while i < remote.profiles.len()
        invariant
            local.wf(),
            remote.wf(),
            out.wf(),
            out@.active_profile == local@.active_profile,
            out@.sync_mode == local@.sync_mode,
            mine == local.profiles@,
            names == remote.profiles.keys(),
            values == remote.profiles.values(),
            names.no_duplicates(),
            i <= remote.profiles.names@.len(),
            answered == conflicts_upto(mine, names, values, i as int).len(),
            answered <= i,
            out.profiles@ == merged_upto(mine, names, values, choices@, i as int),
        decreases remote.profiles.names@.len() - i,
    {
        let name = &remote.profiles.names[i];
        let theirs = &remote.profiles.profiles[i];
        let ghost k = names[i as int];
        let ghost before = out.profiles@;
        let mut take_remote = false;
        match local.profiles.get(name.as_str()) {
            Some(ours) => {
                let rt = theirs.timestamp();
                let lt = ours.timestamp();
                if rt > lt {
                    take_remote = true;
                } else if rt == lt && rt != 0 && !ours.same_as(theirs) {
                    if answered < choices.len() {
                        take_remote = choices[answered] == MergeChoice::Remote;
                    }
                    answered += 1;
                }
            },
            None => {
                take_remote = true;
            },
        }
        let ghost kept = merged_entry(
            lookup(mine, k),
            values[i as int],
            choice_at(choices@, conflicts_upto(mine, names, values, i as int).len() as int),
        );
        if take_remote {
            out.profiles.insert(name.clone(), theirs.clone());
        }
        proof {
            let next = merged_upto(mine, names, values, choices@, i + 1);
            let pre = names.take(i as int);
            lemma_next_member(names, i as int);
            assert(!pre.contains(k)) by {
                if pre.contains(k) {
                    let j = choose|j: int| 0 <= j < pre.len() && pre[j] == k;
                    assert(names[j] == names[i as int]);
                }
            }
            assert(names.index_of(k) == i) by {
                assert(names.contains(k));
            }
            assert(before.contains_key(k) == mine.contains_key(k));
            assert(mine.contains_key(k) ==> before[k] == mine[k]);
            assert(out.profiles@ == before.insert(k, kept));
            assert(next =~= before.insert(k, kept));
        }
        i += 1;
    }
    proof {
        if local@.active_profile is Some && local@.active_exists() {
            law_merge_keeps_local_profiles(
                local.profiles,
                remote.profiles,
                choices@,
                local@.active_profile->0,
            );
        }
    }
    out
}

/// What the merge holds under the name of the remote profile with the index `i`: the copy
/// that `merged_entry` keeps, with the choice made for it if it is in conflict.
pub proof fn lemma_merged_remote_entry(
    local: ProfileMap,
    remote: ProfileMap,
    choices: Seq<MergeChoice>,
    i: int,
)
    requires
        local.wf(),
        remote.wf(),
        0 <= i < remote.keys().len(),
    ensures
        merged_profiles(local, remote, choices).contains_key(remote.keys()[i]),
        merged_profiles(local, remote, choices)[remote.keys()[i]] == merged_entry(
            lookup(local@, remote.keys()[i]),
            remote.values()[i],
            choice_at(
                choices,
                conflicts_upto(local@, remote.keys(), remote.values(), i).len() as int,
            ),
        ),
{
    let names = remote.keys();
    remote.lemma_entry(i);
    assert(names.take(names.len() as int) =~= names);
    assert(names.contains(names[i]));
}

/// A pull deletes nothing: every local profile is still there after the merge, and one
/// that the remote set does not hold is unchanged.
pub proof fn law_merge_keeps_local_profiles(
    local: ProfileMap,
    remote: ProfileMap,
    choices: Seq<MergeChoice>,
    name: Seq<char>,
)
    requires
        local.wf(),
        remote.wf(),
        local@.contains_key(name),
    ensures
        merged_profiles(local, remote, choices).contains_key(name),
        !remote@.contains_key(name) ==> merged_profiles(local, remote, choices)[name]
            == local@[name],
{
    let names = remote.keys();
    assert(names.take(names.len() as int) =~= names);
}

/// Merging a set with itself changes nothing, whatever choices are supplied.
pub proof fn law_merge_idempotent(set: ProfileMap, choices: Seq<MergeChoice>)
    requires
        set.wf(),
    ensures
        merged_profiles(set, set, choices) == set@,
{
    let names = set.keys();
    let merged = merged_profiles(set, set, choices);
    assert(names.take(names.len() as int) =~= names);
    assert forall|k: Seq<char>| merged.contains_key(k) implies #[trigger] merged[k] == set@[k] by {
        if names.contains(k) {
            let i = names.index_of(k);
            set.lemma_entry(i);
        }
    }
    assert(merged =~= set@);
}

} // verus!

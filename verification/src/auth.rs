//! Scheduling credential verification: one unit of work for each distinct account, tagged
//! with the generation it was issued under, and the fan-out of its result to the profiles
//! that share the account.

use crate::lists::lemma_next_member;
use crate::profile::{profile_views, Profile, ProfileView};
use crate::text::{ascending, insert_sorted, lemma_ascending_distinct, text_eq, texts};
use vstd::prelude::*;

verus! {

/// A slot whose status a verification result sets: one credential role of one profile.
#[derive(Debug, Clone, Copy, PartialEq, Eq, Structural)]
pub struct AuthTarget {
    pub profile_index: usize,
    /// The primary (user) credential if true, the secondary one if false.
    pub is_user: bool,
}

/// One verification to run: the account to check and the slots that its result is for.
#[derive(Debug, PartialEq, Eq)]
pub struct AuthUnit {
    pub generation: u64,
    pub account: String,
    pub targets: Vec<AuthTarget>,
}

/// The outcome of a verification for one slot.
#[derive(Debug, Clone, Copy, PartialEq, Eq, Structural)]
pub struct AuthResult {
    pub generation: u64,
    pub profile_index: usize,
    pub is_user: bool,
    pub valid: bool,
}

/// The account that a profile names for a role.
pub open spec fn account_of(p: ProfileView, is_user: bool) -> Seq<char> {
    if is_user {
        p.user_account
    } else {
        p.adc_account
    }
}

/// The accounts that at least one profile names, for either role. An empty account is none.
pub open spec fn identity_set(profiles: Seq<ProfileView>) -> Set<Seq<char>> {
    Set::new(
        |a: Seq<char>|
            a.len() > 0 && exists|i: int, is_user: bool|
                0 <= i < profiles.len() && #[trigger] account_of(profiles[i], is_user) == a,
    )
}

/// The slots among the first `n` profiles that name `account`, by profile, the primary role
/// before the secondary.
pub open spec fn targets_upto(profiles: Seq<ProfileView>, account: Seq<char>, n: int) -> Seq<
    AuthTarget,
>
    decreases n,
{
    if n <= 0 {
        Seq::empty()
    } else {
        let before = targets_upto(profiles, account, n - 1);
        let index = (n - 1) as usize;
        let with_user = if profiles[n - 1].user_account == account {
            before.push(AuthTarget { profile_index: index, is_user: true })
        } else {
            before
        };
        if profiles[n - 1].adc_account == account {
            with_user.push(AuthTarget { profile_index: index, is_user: false })
        } else {
            with_user
        }
    }
}

/// All the slots that name `account`.
pub open spec fn targets_of(profiles: Seq<ProfileView>, account: Seq<char>) -> Seq<AuthTarget> {
    targets_upto(profiles, account, profiles.len() as int)
}

/// A slot is among those collected for an account exactly when its profile names the
/// account for its role.
pub proof fn lemma_targets_upto_members(
    profiles: Seq<ProfileView>,
    account: Seq<char>,
    n: int,
    t: AuthTarget,
)
    requires
        0 <= n <= profiles.len(),
        profiles.len() <= usize::MAX,
    ensures
        targets_upto(profiles, account, n).contains(t) <==> (t.profile_index < n && account_of(
            profiles[t.profile_index as int],
            t.is_user,
        ) == account),
    decreases n,
{
    if n > 0 {
        lemma_targets_upto_members(profiles, account, n - 1, t);
        let before = targets_upto(profiles, account, n - 1);
        let index = (n - 1) as usize;
        let u = AuthTarget { profile_index: index, is_user: true };
        let a = AuthTarget { profile_index: index, is_user: false };
        let with_user = if profiles[n - 1].user_account == account {
            before.push(u)
        } else {
            before
        };
        let all = targets_upto(profiles, account, n);
        if profiles[n - 1].user_account == account {
            assert(with_user.last() == u);
            assert forall|x: AuthTarget| with_user.contains(x) <==> (before.contains(x) || x == u) by {
                if before.contains(x) {
                    let j = choose|j: int| 0 <= j < before.len() && before[j] == x;
                    assert(with_user[j] == x);
                }
                if with_user.contains(x) {
                    let j = choose|j: int| 0 <= j < with_user.len() && with_user[j] == x;
                    if j < before.len() {
                        assert(before[j] == x);
                    }
                }
            }
        }
        if profiles[n - 1].adc_account == account {
            assert(all.last() == a);
            assert forall|x: AuthTarget| all.contains(x) <==> (with_user.contains(x) || x == a) by {
                if with_user.contains(x) {
                    let j = choose|j: int| 0 <= j < with_user.len() && with_user[j] == x;
                    assert(all[j] == x);
                }
                if all.contains(x) {
                    let j = choose|j: int| 0 <= j < all.len() && all[j] == x;
                    if j < with_user.len() {
                        assert(with_user[j] == x);
                    }
                }
            }
        }
    }
}

/// The slots of `profiles` that name `account`.
pub fn collect_targets(profiles: &Vec<Profile>, account: &str) -> (r: Vec<AuthTarget>)
    ensures
        r@ == targets_of(profile_views(profiles@), account@),
{
    let ghost views = profile_views(profiles@);
    let mut out: Vec<AuthTarget> = Vec::new();
    let mut i: usize = 0;
    while i < profiles.len()
        invariant
            i <= profiles.len(),
            views == profile_views(profiles@),
            out@ == targets_upto(views, account@, i as int),
        decreases profiles.len() - i,
    {
        let p = &profiles[i];
        assert(views[i as int] == p@);
        if text_eq(p.user_account.as_str(), account) {
            out.push(AuthTarget { profile_index: i, is_user: true });
        }
        if text_eq(p.adc_account.as_str(), account) {
            out.push(AuthTarget { profile_index: i, is_user: false });
        }
        i += 1;
    }
    out
}

/// The distinct accounts that the profiles name, in ascending order.
pub fn identities(profiles: &Vec<Profile>) -> (r: Vec<String>)
    ensures
        ascending(texts(r@)),
        texts(r@).to_set() == identity_set(profile_views(profiles@)),
        r@.len() == identity_set(profile_views(profiles@)).len(),
{
    let ghost views = profile_views(profiles@);
    let mut out: Vec<String> = Vec::new();
    let mut i: usize = 0;
    proof {
        assert(texts(out@).to_set() =~= identity_set(views.take(0)));
    }
    while i < profiles.len()
        invariant
            i <= profiles.len(),
            views == profile_views(profiles@),
            ascending(texts(out@)),
            texts(out@).to_set() == identity_set(views.take(i as int)),
        decreases profiles.len() - i,
    {
        let p = &profiles[i];
        assert(views[i as int] == p@);
        if !p.user_account.as_str().is_empty() {
            insert_sorted(&mut out, p.user_account.clone());
        }
        if !p.adc_account.as_str().is_empty() {
            insert_sorted(&mut out, p.adc_account.clone());
        }
        proof {
            let pre = views.take(i as int);
            let nxt = views.take(i + 1);
            let now = texts(out@).to_set();
            assert forall|a: Seq<char>| now.contains(a) <==> identity_set(nxt).contains(a) by {
                if identity_set(pre).contains(a) {
                    let (j, role) = choose|j: int, role: bool|
                        0 <= j < pre.len() && #[trigger] account_of(pre[j], role) == a;
                    assert(account_of(nxt[j], role) == a);
                }
                if a.len() > 0 && (p@.user_account == a || p@.adc_account == a) {
                    let role = p@.user_account == a;
                    assert(account_of(nxt[i as int], role) == a);
                }
                if identity_set(nxt).contains(a) {
                    let (j, role) = choose|j: int, role: bool|
                        0 <= j < nxt.len() && #[trigger] account_of(nxt[j], role) == a;
                    if j < i {
                        assert(account_of(pre[j], role) == a);
                    }
                }
            }
            assert(now =~= identity_set(nxt));
        }
        i += 1;
    }
    proof {
        assert(views.take(i as int) =~= views);
        lemma_ascending_distinct(texts(out@));
        texts(out@).unique_seq_to_set();
    }
    out
}

/// The accounts of a batch of units, in order.
pub open spec fn unit_accounts(units: Seq<AuthUnit>) -> Seq<Seq<char>> {
    units.map_values(|u: AuthUnit| u.account@)
}

/// What a batch of verifications for `profiles` has to be: one unit for each distinct
/// account, in ascending order of the accounts, each with the slots that name its account
/// and with the generation `generation`.
pub open spec fn is_batch_for(
    units: Seq<AuthUnit>,
    profiles: Seq<ProfileView>,
    generation: u64,
) -> bool {
    &&& ascending(unit_accounts(units))
    &&& unit_accounts(units).to_set() == identity_set(profiles)
    &&& units.len() == identity_set(profiles).len()
    &&& forall|k: int|
        0 <= k < units.len() ==> (#[trigger] units[k]).generation == generation && units[k].targets@
            == targets_of(profiles, units[k].account@)
}

/// The verifications to issue for `profiles`: one for each distinct account, however many
/// profiles share it.
pub fn plan_auth_checks(profiles: &Vec<Profile>, generation: u64) -> (r: Vec<AuthUnit>)
    ensures
        is_batch_for(r@, profile_views(profiles@), generation),
{
    let accounts = identities(profiles);
    let ghost views = profile_views(profiles@);
    let mut units: Vec<AuthUnit> = Vec::new();
    let mut i: usize = 0;
    while i < accounts.len()
        invariant
            i <= accounts.len(),
            views == profile_views(profiles@),
            units@.len() == i,
            forall|k: int|
                0 <= k < i ==> (#[trigger] units@[k]).generation == generation && units@[k].targets@
                    == targets_of(views, units@[k].account@) && units@[k].account@
                    == accounts@[k]@,
        decreases accounts.len() - i,
    {
        let account = accounts[i].clone();
        let targets = collect_targets(profiles, account.as_str());
        units.push(AuthUnit { generation, account, targets });
        i += 1;
    }
    proof {
        assert(unit_accounts(units@) =~= texts(accounts@));
    }
    units
}

impl AuthUnit {
    /// The results that the unit reports once its account has been checked: for each of its
    /// slots one, in order, with the unit's generation and the outcome of the check.
    pub fn results(&self, valid: bool) -> (r: Vec<AuthResult>)
        ensures
            r@ == unit_results(self.generation, self.targets@, valid),
    {
        let mut out: Vec<AuthResult> = Vec::new();
        let mut i: usize = 0;
        while i < self.targets.len()
            invariant
                i <= self.targets.len(),
                out@.len() == i,
                forall|k: int|
                    0 <= k < i ==> #[trigger] out@[k] == (AuthResult {
                        generation: self.generation,
                        profile_index: self.targets@[k].profile_index,
                        is_user: self.targets@[k].is_user,
                        valid,
                    }),
            decreases self.targets.len() - i,
        {
            let t = self.targets[i];
            out.push(
                AuthResult {
                    generation: self.generation,
                    profile_index: t.profile_index,
                    is_user: t.is_user,
                    valid,
                },
            );
            i += 1;
        }
        proof {
            assert(out@ =~= unit_results(self.generation, self.targets@, valid));
        }
        out
    }
}

/// What is known of the credentials of each profile: for each role a list with one entry
/// for each profile, `None` while nothing is known.
pub ghost struct AuthBoard {
    pub user: Seq<Option<bool>>,
    pub adc: Seq<Option<bool>>,
}

impl AuthBoard {
    /// The status of a slot.
    pub open spec fn status(self, index: int, is_user: bool) -> Option<bool> {
        if is_user {
            self.user[index]
        } else {
            self.adc[index]
        }
    }
}

/// The board for `count` profiles of which nothing is known.
pub open spec fn unknown_board(count: nat) -> AuthBoard {
    AuthBoard { user: Seq::new(count, |i: int| None), adc: Seq::new(count, |i: int| None) }
}

/// Whether a result counts: it was issued under the live generation, and its profile exists.
pub open spec fn is_accepted(board: AuthBoard, live: u64, r: AuthResult) -> bool {
    r.generation == live && r.profile_index < board.user.len() && r.profile_index
        < board.adc.len()
}

/// The board after one result has come in. A result that does not count changes nothing.
pub open spec fn board_after(board: AuthBoard, live: u64, r: AuthResult) -> AuthBoard {
    if !is_accepted(board, live, r) {
        board
    } else if r.is_user {
        AuthBoard { user: board.user.update(r.profile_index as int, Some(r.valid)), ..board }
    } else {
        AuthBoard { adc: board.adc.update(r.profile_index as int, Some(r.valid)), ..board }
    }
}

/// The board after the first `n` of `results` have come in, in order.
pub open spec fn board_after_all(
    board: AuthBoard,
    live: u64,
    results: Seq<AuthResult>,
    n: int,
) -> AuthBoard
    decreases n,
{
    if n <= 0 {
        board
    } else {
        board_after(board_after_all(board, live, results, n - 1), live, results[n - 1])
    }
}

/// Results change statuses, never how many there are.
pub proof fn lemma_board_keeps_size(board: AuthBoard, live: u64, results: Seq<AuthResult>, n: int)
    ensures
        board_after_all(board, live, results, n).user.len() == board.user.len(),
        board_after_all(board, live, results, n).adc.len() == board.adc.len(),
    decreases n,
{
    if n > 0 {
        lemma_board_keeps_size(board, live, results, n - 1);
    }
}

/// A result that was issued under another generation than the live one changes nothing.
pub proof fn law_stale_result_is_ignored(board: AuthBoard, live: u64, result: AuthResult)
    requires
        result.generation != live,
    ensures
        board_after(board, live, result) == board,
{
}

/// Results that were all issued under other generations than the live one change nothing,
/// however many they are.
pub proof fn law_stale_results_are_ignored(
    board: AuthBoard,
    live: u64,
    results: Seq<AuthResult>,
    n: int,
)
    requires
        0 <= n <= results.len(),
        forall|k: int| 0 <= k < n ==> (#[trigger] results[k]).generation != live,
    ensures
        board_after_all(board, live, results, n) == board,
    decreases n,
{
    if n > 0 {
        law_stale_results_are_ignored(board, live, results, n - 1);
    }
}

/// The results of a unit, as `AuthUnit::results` reports them for the outcome `valid`.
pub open spec fn unit_results(generation: u64, targets: Seq<AuthTarget>, valid: bool) -> Seq<
    AuthResult,
> {
    Seq::new(
        targets.len(),
        |k: int|
            AuthResult {
                generation,
                profile_index: targets[k].profile_index,
                is_user: targets[k].is_user,
                valid,
            },
    )
}

/// One verification serves every profile that shares its account: once the results of the
/// unit for `account` have come in under the live generation, each slot that names the
/// account holds the outcome, and every other slot is as it was.
pub proof fn law_unit_reaches_every_reference(
    profiles: Seq<ProfileView>,
    board: AuthBoard,
    live: u64,
    account: Seq<char>,
    valid: bool,
    index: int,
    is_user: bool,
)
    requires
        board.user.len() == profiles.len(),
        board.adc.len() == profiles.len(),
        profiles.len() <= usize::MAX,
        0 <= index < profiles.len(),
    ensures
        ({
            let results = unit_results(live, targets_of(profiles, account), valid);
            board_after_all(board, live, results, results.len() as int).status(index, is_user)
                == if account_of(profiles[index], is_user) == account {
                Some(valid)
            } else {
                board.status(index, is_user)
            }
        }),
{
    let targets = targets_of(profiles, account);
    let results = unit_results(live, targets, valid);
    lemma_results_reach(board, live, targets, valid, results.len() as int, index, is_user);
    lemma_targets_upto_members(
        profiles,
        account,
        profiles.len() as int,
        AuthTarget { profile_index: index as usize, is_user },
    );
    assert(targets.take(targets.len() as int) =~= targets);
}

/// After the first `n` results of a unit, a slot holds the outcome if it is among the
/// first `n` targets, and is as it was if not.
proof fn lemma_results_reach(
    board: AuthBoard,
    live: u64,
    targets: Seq<AuthTarget>,
    valid: bool,
    n: int,
    index: int,
    is_user: bool,
)
    requires
        0 <= n <= targets.len(),
        board.user.len() == board.adc.len(),
        0 <= index < board.user.len(),
        index <= usize::MAX,
    ensures
        ({
            let results = unit_results(live, targets, valid);
            let after = board_after_all(board, live, results, n);
            let t = AuthTarget { profile_index: index as usize, is_user };
            &&& after.user.len() == board.user.len()
            &&& after.adc.len() == board.adc.len()
            &&& after.status(index, is_user) == if targets.take(n).contains(t) {
                Some(valid)
            } else {
                board.status(index, is_user)
            }
        }),
    decreases n,
{
    if n > 0 {
        lemma_results_reach(board, live, targets, valid, n - 1, index, is_user);
        lemma_next_member(targets, n - 1);
    } else {
        assert(targets.take(0) =~= Seq::<AuthTarget>::empty());
    }
}

/// Records one result in the status lists.
pub fn record_result(
    user: &mut Vec<Option<bool>>,
    adc: &mut Vec<Option<bool>>,
    live: u64,
    result: &AuthResult,
)
    ensures
        (AuthBoard { user: final(user)@, adc: final(adc)@ }) == board_after(
            AuthBoard { user: old(user)@, adc: old(adc)@ },
            live,
            *result,
        ),
{
    if result.generation != live {
        return ;
    }
    if result.profile_index >= user.len() || result.profile_index >= adc.len() {
        return ;
    }
    if result.is_user {
        user[result.profile_index] = Some(result.valid);
    } else {
        adc[result.profile_index] = Some(result.valid);
    }
}

/// Records a batch of results in the status lists, in order.
pub fn record_results(
    user: &mut Vec<Option<bool>>,
    adc: &mut Vec<Option<bool>>,
    live: u64,
    results: &Vec<AuthResult>,
)
    ensures
        (AuthBoard { user: final(user)@, adc: final(adc)@ }) == board_after_all(
            AuthBoard { user: old(user)@, adc: old(adc)@ },
            live,
            results@,
            results@.len() as int,
        ),
{
    let ghost start = AuthBoard { user: user@, adc: adc@ };
    let mut i: usize = 0;
    while i < results.len()
        invariant
            i <= results.len(),
            (AuthBoard { user: user@, adc: adc@ }) == board_after_all(
                start,
                live,
                results@,
                i as int,
            ),
        decreases results.len() - i,
    {
        record_result(user, adc, live, &results[i]);
        i += 1;
    }
}

/// A list of `count` unknown statuses.
pub fn unknown_statuses(count: usize) -> (r: Vec<Option<bool>>)
    ensures
        r@ == Seq::new(count as nat, |i: int| None::<bool>),
{
    let mut out: Vec<Option<bool>> = Vec::new();
    let mut i: usize = 0;
    while i < count
        invariant
            i <= count,
            out@.len() == i,
            forall|k: int| 0 <= k < i ==> out@[k] == None::<bool>,
        decreases count - i,
    {
        out.push(None);
        i += 1;
    }
    proof {
        assert(out@ =~= Seq::new(count as nat, |i: int| None::<bool>));
    }
    out
}

} // verus!

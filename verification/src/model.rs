//! The interaction state machine as a mathematical model: the state as plain values, what
//! a valid state is, and the state and effect that follow each event.

use crate::app::{Column, InputMode, Key, KeyPress, PendingAction};
use crate::auth::{
    account_of, board_after_all, identity_set, unknown_board, AuthBoard, AuthResult,
};
use crate::profile::{ProfileView, SyncMode};
use crate::text::{ascending, decimal_text, lemma_ascending_same_members, trimmed};
use vstd::prelude::*;

verus! {

/// An effect as plain values.
pub ghost enum EffectView {
    Nothing,
    CheckAuth { user_account: Option<Seq<char>>, adc_account: Option<Seq<char>> },
    Activate { name: Seq<char>, column: Column, account: Seq<char>, project: Seq<char> },
    SaveSyncMode { mode: SyncMode },
    Import,
    AddProfile { name: Seq<char>, profile: ProfileView, create_configuration: bool },
    DeleteProfile { name: Seq<char>, delete_configuration: bool },
    SaveProfile { name: Seq<char>, profile: ProfileView },
    FetchProjects { account: Seq<char> },
    ListAccounts,
}

/// The interaction state as plain values.
pub ghost struct AppView {
    pub profile_names: Seq<Seq<char>>,
    pub profiles: Seq<ProfileView>,
    pub active_profile: Option<Seq<char>>,
    pub user_auth_valid: Seq<Option<bool>>,
    pub adc_auth_valid: Seq<Option<bool>>,
    pub selected_row: int,
    pub selected_col: Column,
    pub should_quit: bool,
    pub status_message: Option<Seq<char>>,
    pub input_mode: InputMode,
    pub input_buffer: Seq<char>,
    pub new_profile_name: Seq<char>,
    pub new_profile: ProfileView,
    pub edit_col: Column,
    pub edit_account_buffer: Seq<char>,
    pub edit_project_buffer: Seq<char>,
    pub suggestions: Seq<Seq<char>>,
    pub suggestion_index: Option<int>,
    pub pending_action: PendingAction,
    pub quit_after_activate: bool,
    pub auth_generation: u64,
    pub fetched_projects: Seq<Seq<char>>,
    pub fetching_projects: bool,
    pub sync_mode: SyncMode,
}

/// The ascending list of the members of a set of strings.
pub open spec fn ascending_list(members: Set<Seq<char>>) -> Seq<Seq<char>> {
    choose|l: Seq<Seq<char>>| ascending(l) && l.to_set() == members
}

/// An ascending list is the ascending list of its members: there is no other.
pub proof fn lemma_ascending_list(l: Seq<Seq<char>>)
    requires
        ascending(l),
    ensures
        ascending_list(l.to_set()) == l,
{
    let c = ascending_list(l.to_set());
    assert(ascending(c) && c.to_set() == l.to_set());
    assert forall|i: int| 0 <= i < c.len() implies l.contains(#[trigger] c[i]) by {
        assert(c.to_set().contains(c[i]));
    }
    assert forall|i: int| 0 <= i < l.len() implies c.contains(#[trigger] l[i]) by {
        assert(l.to_set().contains(l[i]));
    }
    lemma_ascending_same_members(c, l);
}

/// The accounts offered for an account field: those that some profile names, and those
/// that the credential backend knows.
pub open spec fn account_members(profiles: Seq<ProfileView>, backend: Seq<Seq<char>>) -> Set<
    Seq<char>,
> {
    Set::new(|a: Seq<char>| backend.contains(a) || identity_set(profiles).contains(a))
}

/// The project that a profile names for a role.
pub open spec fn project_of(p: ProfileView, is_user: bool) -> Seq<char> {
    if is_user {
        p.user_project
    } else {
        p.adc_quota_project
    }
}

/// The projects offered for a project field: those that some profile names, and those that
/// were fetched for the account being edited. An empty project of a profile is none.
pub open spec fn project_members(profiles: Seq<ProfileView>, fetched: Seq<Seq<char>>) -> Set<
    Seq<char>,
> {
    Set::new(
        |p: Seq<char>|
            fetched.contains(p) || (p.len() > 0 && exists|i: int, is_user: bool|
                0 <= i < profiles.len() && #[trigger] project_of(profiles[i], is_user) == p),
    )
}

/// A profile with the account and project of one role replaced.
pub open spec fn with_role(
    p: ProfileView,
    is_user: bool,
    account: Seq<char>,
    project: Seq<char>,
) -> ProfileView {
    if is_user {
        ProfileView { user_account: account, user_project: project, ..p }
    } else {
        ProfileView { adc_account: account, adc_quota_project: project, ..p }
    }
}

impl AppView {
    /// The state in which the interface starts on a profile set: the active profile is
    /// selected, or the first row if none is active; nothing is known of any credential, and
    /// the first generation of verifications is under way.
    pub open spec fn initial(
        names: Seq<Seq<char>>,
        profiles: Seq<ProfileView>,
        active: Option<Seq<char>>,
        sync_mode: SyncMode,
    ) -> AppView {
        AppView {
            profile_names: names,
            profiles,
            active_profile: active,
            user_auth_valid: unknown_board(names.len()).user,
            adc_auth_valid: unknown_board(names.len()).adc,
            selected_row: match active {
                Some(a) => if names.contains(a) {
                    names.index_of(a)
                } else {
                    0
                },
                None => 0,
            },
            selected_col: Column::Both,
            should_quit: false,
            status_message: None,
            input_mode: InputMode::Normal,
            input_buffer: Seq::empty(),
            new_profile_name: Seq::empty(),
            new_profile: ProfileView {
                user_account: Seq::empty(),
                user_project: Seq::empty(),
                adc_account: Seq::empty(),
                adc_quota_project: Seq::empty(),
                updated_at: None,
            },
            edit_col: Column::User,
            edit_account_buffer: Seq::empty(),
            edit_project_buffer: Seq::empty(),
            suggestions: Seq::empty(),
            suggestion_index: None,
            pending_action: PendingAction::Nothing,
            quit_after_activate: false,
            auth_generation: 1,
            fetched_projects: Seq::empty(),
            fetching_projects: false,
            sync_mode,
        }
    }

    /// The number of profiles.
    pub open spec fn count(self) -> int {
        self.profile_names.len() as int
    }

    /// What holds of every state that the interface reaches: there is one profile and one
    /// status per role for each name, the names ascend, the selected row is a row of the
    /// table (row 0 of an empty one), an open suggestion is one of the list, a mode that acts on
    /// the selected profile has one, and what is edited is one role.
    pub open spec fn wf(self) -> bool {
        &&& self.profiles.len() == self.count()
        &&& self.user_auth_valid.len() == self.count()
        &&& self.adc_auth_valid.len() == self.count()
        &&& self.count() <= usize::MAX
        &&& ascending(self.profile_names)
        &&& 0 <= self.selected_row
        &&& self.selected_row < self.count() || (self.count() == 0 && self.selected_row == 0)
        &&& match self.suggestion_index {
            Some(i) => 0 <= i < self.suggestions.len(),
            None => true,
        }
        &&& self.input_mode.needs_selection() ==> self.count() > 0
        &&& self.edit_col != Column::Both
    }

    /// The statuses of both roles.
    pub open spec fn board(self) -> AuthBoard {
        AuthBoard { user: self.user_auth_valid, adc: self.adc_auth_valid }
    }

    /// The name of the selected profile.
    pub open spec fn selected_name(self) -> Seq<char> {
        self.profile_names[self.selected_row]
    }

    /// The selected profile.
    pub open spec fn selected_profile(self) -> ProfileView {
        self.profiles[self.selected_row]
    }

    /// The state with the status message replaced.
    pub open spec fn with_status(self, message: Seq<char>) -> AppView {
        AppView { status_message: Some(message), ..self }
    }

    /// The state after the profile set was loaded anew. The set replaces the one in memory,
    /// the selected row is brought back into the table, every status is unknown again and the
    /// generation is one higher. A mode that acts on the selected profile ends if no profile
    /// is left.
    pub open spec fn reloaded(
        self,
        names: Seq<Seq<char>>,
        profiles: Seq<ProfileView>,
        active: Option<Seq<char>>,
    ) -> AppView {
        AppView {
            profile_names: names,
            profiles,
            active_profile: active,
            selected_row: if self.selected_row < names.len() {
                self.selected_row
            } else if names.len() == 0 {
                0
            } else {
                names.len() - 1
            },
            user_auth_valid: unknown_board(names.len()).user,
            adc_auth_valid: unknown_board(names.len()).adc,
            auth_generation: (self.auth_generation + 1) as u64,
            input_mode: if names.len() == 0 && self.input_mode.needs_selection() {
                InputMode::Normal
            } else {
                self.input_mode
            },
            ..self
        }
    }

    /// The state after verification results came in, in order.
    pub open spec fn after_auth_results(self, results: Seq<AuthResult>) -> AppView {
        let board = board_after_all(
            self.board(),
            self.auth_generation,
            results,
            results.len() as int,
        );
        AppView { user_auth_valid: board.user, adc_auth_valid: board.adc, ..self }
    }

    /// The state after project lists came in: the last one counts, and with it the fetch is
    /// over.
    pub open spec fn after_project_results(self, results: Seq<Seq<Seq<char>>>) -> AppView {
        if results.len() == 0 {
            self
        } else {
            AppView { fetched_projects: results.last(), fetching_projects: false, ..self }
        }
    }

    /// Whether a role of the selected profile counts as valid: by its status where that is
    /// known, else by a check made for the occasion; with neither, it does not.
    pub open spec fn role_valid(self, is_user: bool, checked: Option<bool>) -> bool {
        match self.board().status(self.selected_row, is_user) {
            Some(v) => v,
            None => match checked {
                Some(v) => v,
                None => false,
            },
        }
    }

    /// Whether the credentials that the selected column takes in have to be renewed before
    /// the profile can be activated.
    pub open spec fn needs_reauth(self, user_checked: Option<bool>, adc_checked: Option<bool>) -> bool {
        (self.selected_col.covers_user() && !self.role_valid(true, user_checked)) || (
        self.selected_col.covers_adc() && !self.role_valid(false, adc_checked))
    }

    /// Whether a role has to be checked on the spot: the column takes it in and nothing is
    /// known of it.
    pub open spec fn role_unknown(self, is_user: bool) -> bool {
        (if is_user {
            self.selected_col.covers_user()
        } else {
            self.selected_col.covers_adc()
        }) && self.board().status(self.selected_row, is_user) is None
    }

    /// Whether the decision to activate has to wait for a check: no credential that the
    /// column takes in is known to be invalid, and of one at least nothing is known.
    pub open spec fn needs_check(self) -> bool {
        !self.needs_reauth(Some(true), Some(true)) && (self.role_unknown(true)
            || self.role_unknown(false))
    }

    /// The request to check what is unknown.
    pub open spec fn check_request(self) -> EffectView {
        EffectView::CheckAuth {
            user_account: if self.role_unknown(true) {
                Some(self.selected_profile().user_account)
            } else {
                None
            },
            adc_account: if self.role_unknown(false) {
                Some(self.selected_profile().adc_account)
            } else {
                None
            },
        }
    }

    /// The request to activate the selected profile for the selected column.
    pub open spec fn activation(self) -> EffectView {
        EffectView::Activate {
            name: self.selected_name(),
            column: self.selected_col,
            account: self.selected_profile().user_account,
            project: self.selected_profile().user_project,
        }
    }

    /// The decision to activate: where credentials have to be renewed first, that is left
    /// pending together with the activation; else the activation is requested at once.
    pub open spec fn after_activate_selected(
        self,
        user_checked: Option<bool>,
        adc_checked: Option<bool>,
    ) -> (AppView, EffectView) {
        if self.needs_reauth(user_checked, adc_checked) {
            (
                AppView { pending_action: PendingAction::ReauthAndActivate, ..self },
                EffectView::Nothing,
            )
        } else {
            (self, self.activation())
        }
    }

    /// The message that reports an activation.
    pub open spec fn activated_message(self) -> Seq<char> {
        match self.selected_col {
            Column::Both => "Activated profile '"@ + self.selected_name() + "'."@,
            Column::User => "Activated user config for '"@ + self.selected_name() + "'."@,
            Column::Adc => "Activated ADC for '"@ + self.selected_name() + "'."@,
        }
    }

    /// The state after the selected profile was activated: it is the active one, and the
    /// interface ends if that was asked for with the key.
    pub open spec fn after_do_activate(self) -> AppView {
        AppView {
            status_message: Some(self.activated_message()),
            active_profile: Some(self.selected_name()),
            should_quit: self.should_quit || self.quit_after_activate,
            ..self
        }
    }

    /// The message that reports a renewal of credentials.
    pub open spec fn reauth_message(self) -> Seq<char> {
        match self.selected_col {
            Column::Both => "Re-authenticated user and ADC for '"@ + self.selected_name()
                + "'."@,
            Column::User => "User re-authenticated for '"@ + self.selected_name() + "'."@,
            Column::Adc => "ADC re-authenticated for '"@ + self.selected_name() + "'."@,
        }
    }

    /// The state after a failure was reported: the message is shown and the interface is
    /// back in the normal mode, with nothing open.
    pub open spec fn after_fail(self, message: Seq<char>) -> AppView {
        AppView {
            status_message: Some(message),
            input_mode: InputMode::Normal,
            input_buffer: Seq::empty(),
            suggestion_index: None,
            ..self
        }
    }

    /// The state with the selection one row up; the first row stays.
    pub open spec fn moved_up(self) -> AppView {
        AppView {
            selected_row: if self.selected_row > 0 {
                self.selected_row - 1
            } else {
                self.selected_row
            },
            status_message: None,
            ..self
        }
    }

    /// The state with the selection one row down; the last row stays.
    pub open spec fn moved_down(self) -> AppView {
        AppView {
            selected_row: if self.selected_row + 1 < self.count() {
                self.selected_row + 1
            } else {
                self.selected_row
            },
            status_message: None,
            ..self
        }
    }

    /// The state and effect after the key that activates the selected profile. With Alt the
    /// interface goes on after the activation, without it ends. Where the decision needs a
    /// check first, the check is requested; else the decision is taken.
    pub open spec fn after_activation_key(self, alt: bool) -> (AppView, EffectView) {
        let asked = AppView { quit_after_activate: !alt, ..self };
        if asked.needs_check() {
            (asked, asked.check_request())
        } else {
            asked.after_activate_selected(None, None)
        }
    }

    /// The role that an edit of the selected column is about: the primary one for the
    /// column that takes in both.
    pub open spec fn column_to_edit(self) -> Column {
        if self.selected_col == Column::Both {
            Column::User
        } else {
            self.selected_col
        }
    }

    /// The state in which the selected profile is edited in place, starting from its
    /// present values.
    pub open spec fn editing_selected(self) -> AppView {
        let col = self.column_to_edit();
        AppView {
            edit_col: col,
            edit_account_buffer: account_of(self.selected_profile(), col == Column::User),
            edit_project_buffer: project_of(self.selected_profile(), col == Column::User),
            input_mode: InputMode::EditAccount,
            suggestions: Seq::empty(),
            suggestion_index: None,
            status_message: None,
            ..self
        }
    }

    /// The state in which the deletion of the selected profile waits to be confirmed.
    pub open spec fn asking_delete(self) -> AppView {
        AppView {
            status_message: Some("Delete profile '"@ + self.selected_name() + "'? (y/n)"@),
            input_mode: InputMode::ConfirmDelete,
            ..self
        }
    }

    /// The state at the first step of the add sequence.
    pub open spec fn adding(self) -> AppView {
        AppView {
            input_mode: InputMode::AddProfileName,
            input_buffer: Seq::empty(),
            status_message: Some("Enter profile name:"@),
            ..self
        }
    }

    /// The state and effect after a key in the normal mode. The keys that act on the
    /// selected profile do nothing while there is no profile.
    pub open spec fn after_normal_key(self, press: KeyPress) -> (AppView, EffectView) {
        match press.key {
            Key::Char('q') | Key::Esc => (
                AppView { should_quit: true, ..self },
                EffectView::Nothing,
            ),
            Key::Up => (self.moved_up(), EffectView::Nothing),
            Key::Down => (self.moved_down(), EffectView::Nothing),
            Key::Left => (
                AppView { selected_col: self.selected_col.left(), status_message: None, ..self },
                EffectView::Nothing,
            ),
            Key::Right => (
                AppView { selected_col: self.selected_col.right(), status_message: None, ..self },
                EffectView::Nothing,
            ),
            Key::Enter => if self.count() == 0 {
                (self, EffectView::Nothing)
            } else {
                self.after_activation_key(press.alt)
            },
            Key::Char('a') => if self.count() == 0 {
                (self, EffectView::Nothing)
            } else {
                (AppView { pending_action: PendingAction::Reauth, ..self }, EffectView::Nothing)
            },
            Key::Char('n') => (self.adding(), EffectView::Nothing),
            Key::Char('e') => if self.count() == 0 {
                (self, EffectView::Nothing)
            } else {
                (self.editing_selected(), EffectView::Nothing)
            },
            Key::Char('d') => if self.count() == 0 {
                (self, EffectView::Nothing)
            } else {
                (self.asking_delete(), EffectView::Nothing)
            },
            Key::Char('s') => (self, EffectView::SaveSyncMode { mode: self.sync_mode.next() }),
            Key::Char('i') => (self, EffectView::Import),
            _ => (self, EffectView::Nothing),
        }
    }

    /// The state after the value of a step of the add sequence was accepted. The secondary
    /// account and project start out as the primary ones. The last step asks for the profile
    /// to be persisted.
    pub open spec fn after_submit(self, value: Seq<char>) -> (AppView, EffectView) {
        match self.input_mode {
            InputMode::AddProfileName => (
                AppView {
                    new_profile_name: value,
                    input_buffer: Seq::empty(),
                    input_mode: InputMode::AddProfileUserAccount,
                    status_message: Some("Enter user account (email):"@),
                    ..self
                },
                EffectView::Nothing,
            ),
            InputMode::AddProfileUserAccount => (
                AppView {
                    new_profile: ProfileView {
                        user_account: value,
                        adc_account: value,
                        ..self.new_profile
                    },
                    input_buffer: Seq::empty(),
                    input_mode: InputMode::AddProfileUserProject,
                    status_message: Some("Enter user project:"@),
                    ..self
                },
                EffectView::Nothing,
            ),
            InputMode::AddProfileUserProject => (
                AppView {
                    new_profile: ProfileView {
                        user_project: value,
                        adc_quota_project: value,
                        ..self.new_profile
                    },
                    input_buffer: Seq::empty(),
                    input_mode: InputMode::AddProfileAdcAccount,
                    status_message: Some(
                        "Enter ADC account ["@ + self.new_profile.adc_account + "]:"@,
                    ),
                    ..self
                },
                EffectView::Nothing,
            ),
            InputMode::AddProfileAdcAccount => (
                AppView {
                    new_profile: ProfileView { adc_account: value, ..self.new_profile },
                    input_buffer: Seq::empty(),
                    input_mode: InputMode::AddProfileAdcQuotaProject,
                    status_message: Some(
                        "Enter ADC quota project ["@ + self.new_profile.adc_quota_project
                            + "]:"@,
                    ),
                    ..self
                },
                EffectView::Nothing,
            ),
            InputMode::AddProfileAdcQuotaProject => {
                let profile = ProfileView { adc_quota_project: value, ..self.new_profile };
                (
                    AppView { new_profile: profile, ..self },
                    EffectView::AddProfile {
                        name: self.new_profile_name,
                        profile,
                        create_configuration: self.sync_mode.mirrors_additions(),
                    },
                )
            },
            _ => (self, EffectView::Nothing),
        }
    }

    /// The state and effect after a key in a step of the add sequence. Enter accepts the
    /// input without surrounding white space, unless nothing is left of it.
    pub open spec fn after_input_key(self, press: KeyPress) -> (AppView, EffectView) {
        match press.key {
            Key::Esc => (
                AppView {
                    input_mode: InputMode::Normal,
                    input_buffer: Seq::empty(),
                    status_message: None,
                    ..self
                },
                EffectView::Nothing,
            ),
            Key::Enter => if trimmed(self.input_buffer).len() == 0 {
                (self, EffectView::Nothing)
            } else {
                self.after_submit(trimmed(self.input_buffer))
            },
            Key::Backspace => (
                AppView {
                    input_buffer: if self.input_buffer.len() > 0 {
                        self.input_buffer.drop_last()
                    } else {
                        self.input_buffer
                    },
                    ..self
                },
                EffectView::Nothing,
            ),
            Key::Char(c) => (
                AppView { input_buffer: self.input_buffer.push(c), ..self },
                EffectView::Nothing,
            ),
            _ => (self, EffectView::Nothing),
        }
    }

    /// The state after the new profile was persisted and the set loaded anew.
    pub open spec fn after_profile_added(
        self,
        names: Seq<Seq<char>>,
        profiles: Seq<ProfileView>,
        active: Option<Seq<char>>,
    ) -> AppView {
        AppView {
            input_mode: InputMode::Normal,
            input_buffer: Seq::empty(),
            ..self.with_status("Profile '"@ + self.new_profile_name + "' added."@).reloaded(
                names,
                profiles,
                active,
            )
        }
    }

    /// The state and effect after a key while a deletion waits to be confirmed.
    pub open spec fn after_confirm_key(self, press: KeyPress) -> (AppView, EffectView) {
        match press.key {
            Key::Char('y') | Key::Char('Y') => (
                self,
                EffectView::DeleteProfile {
                    name: self.selected_name(),
                    delete_configuration: self.sync_mode == SyncMode::Strict,
                },
            ),
            _ => (
                AppView { status_message: None, input_mode: InputMode::Normal, ..self },
                EffectView::Nothing,
            ),
        }
    }

    /// The state after the selected profile was removed from the store and the set loaded
    /// anew.
    pub open spec fn after_profile_deleted(
        self,
        names: Seq<Seq<char>>,
        profiles: Seq<ProfileView>,
        active: Option<Seq<char>>,
    ) -> AppView {
        AppView {
            input_mode: InputMode::Normal,
            ..self.with_status("Deleted profile '"@ + self.selected_name() + "'."@).reloaded(
                names,
                profiles,
                active,
            )
        }
    }

    /// Whether the account field is the one being edited.
    pub open spec fn editing_account(self) -> bool {
        self.input_mode == InputMode::EditAccount
    }

    /// The state with the text of the field being edited replaced.
    pub open spec fn with_edit_text(self, text: Seq<char>) -> AppView {
        if self.editing_account() {
            AppView { edit_account_buffer: text, ..self }
        } else {
            AppView { edit_project_buffer: text, ..self }
        }
    }

    /// The text of the field being edited.
    pub open spec fn edit_text(self) -> Seq<char> {
        if self.editing_account() {
            self.edit_account_buffer
        } else {
            self.edit_project_buffer
        }
    }

    /// The state with the list of suggestions opened on its first entry; an empty list is
    /// not opened.
    pub open spec fn with_suggestions(self, list: Seq<Seq<char>>) -> AppView {
        AppView {
            suggestions: list,
            suggestion_index: if list.len() > 0 {
                Some(0)
            } else {
                None
            },
            ..self
        }
    }

    /// The selected profile with the edited account and project, without surrounding white
    /// space, in place of those of the role being edited.
    pub open spec fn edited_profile(self) -> ProfileView {
        with_role(
            self.selected_profile(),
            self.edit_col == Column::User,
            trimmed(self.edit_account_buffer),
            trimmed(self.edit_project_buffer),
        )
    }

    /// The request to persist the edit.
    pub open spec fn save_request(self) -> EffectView {
        EffectView::SaveProfile { name: self.selected_name(), profile: self.edited_profile() }
    }

    /// The state and effect when the edit moves on from the account to the project: the
    /// projects fetched before are dropped, and those of the account now typed are fetched,
    /// unless no account is typed.
    pub open spec fn after_account_done(self) -> (AppView, EffectView) {
        let account = trimmed(self.edit_account_buffer);
        let moved = AppView {
            input_mode: InputMode::EditProject,
            suggestion_index: None,
            fetched_projects: Seq::empty(),
            ..self
        };
        if account.len() == 0 {
            (moved, EffectView::Nothing)
        } else {
            (
                AppView { fetching_projects: true, ..moved },
                EffectView::FetchProjects { account },
            )
        }
    }

    /// The state and effect after a key while a profile is edited in place.
    pub open spec fn after_edit_key(self, press: KeyPress) -> (AppView, EffectView) {
        match press.key {
            Key::Esc => (
                AppView {
                    input_mode: InputMode::Normal,
                    suggestion_index: None,
                    status_message: Some("Edit cancelled."@),
                    ..self
                },
                EffectView::Nothing,
            ),
            Key::Down => match self.suggestion_index {
                None => if self.editing_account() {
                    (self, EffectView::ListAccounts)
                } else {
                    (
                        self.with_suggestions(
                            ascending_list(project_members(self.profiles, self.fetched_projects)),
                        ),
                        EffectView::Nothing,
                    )
                },
                Some(i) => (
                    AppView {
                        suggestion_index: Some(
                            if i + 1 < self.suggestions.len() {
                                i + 1
                            } else {
                                0
                            },
                        ),
                        ..self
                    },
                    EffectView::Nothing,
                ),
            },
            Key::Up => match self.suggestion_index {
                None => (self, EffectView::Nothing),
                Some(i) => (
                    AppView {
                        suggestion_index: Some(
                            if i == 0 {
                                self.suggestions.len() - 1
                            } else {
                                i - 1
                            },
                        ),
                        ..self
                    },
                    EffectView::Nothing,
                ),
            },
            Key::Enter => match self.suggestion_index {
                Some(i) => (
                    AppView { suggestion_index: None, ..self.with_edit_text(self.suggestions[i]) },
                    EffectView::Nothing,
                ),
                None => (self, self.save_request()),
            },
            Key::Tab => if self.editing_account() {
                self.after_account_done()
            } else {
                (self, self.save_request())
            },
            Key::Backspace => (
                AppView {
                    suggestion_index: None,
                    ..self.with_edit_text(
                        if self.edit_text().len() > 0 {
                            self.edit_text().drop_last()
                        } else {
                            self.edit_text()
                        },
                    )
                },
                EffectView::Nothing,
            ),
            Key::Char(c) => (
                AppView { suggestion_index: None, ..self.with_edit_text(self.edit_text().push(c)) },
                EffectView::Nothing,
            ),
            _ => (self, EffectView::Nothing),
        }
    }

    /// The state after the edit was persisted and the set loaded anew.
    pub open spec fn after_edit_saved(
        self,
        names: Seq<Seq<char>>,
        profiles: Seq<ProfileView>,
        active: Option<Seq<char>>,
    ) -> AppView {
        AppView {
            input_mode: InputMode::Normal,
            suggestion_index: None,
            status_message: Some("Profile '"@ + self.selected_name() + "' updated."@),
            ..self.reloaded(names, profiles, active)
        }
    }

    /// The state after credentials were renewed and the set loaded anew.
    pub open spec fn after_reauth(
        self,
        names: Seq<Seq<char>>,
        profiles: Seq<ProfileView>,
        active: Option<Seq<char>>,
    ) -> AppView {
        self.with_status(self.reauth_message()).reloaded(names, profiles, active)
    }

    /// The state after the sync mode was persisted.
    pub open spec fn after_sync_mode(self, mode: SyncMode) -> AppView {
        AppView {
            sync_mode: mode,
            status_message: Some("Sync mode: "@ + mode.spec_label()),
            ..self
        }
    }

    /// The state after an import that added `count` profiles and loaded the set anew.
    pub open spec fn after_import(
        self,
        count: nat,
        names: Seq<Seq<char>>,
        profiles: Seq<ProfileView>,
        active: Option<Seq<char>>,
    ) -> AppView {
        self.reloaded(names, profiles, active).with_status(
            "Imported "@ + decimal_text(count) + " profile(s)."@,
        )
    }

    /// The state and effect after a key, by the mode that the interface is in.
    pub open spec fn after_key(self, press: KeyPress) -> (AppView, EffectView) {
        if self.input_mode == InputMode::Normal {
            self.after_normal_key(press)
        } else if self.input_mode == InputMode::ConfirmDelete {
            self.after_confirm_key(press)
        } else if self.input_mode == InputMode::EditAccount || self.input_mode
            == InputMode::EditProject {
            self.after_edit_key(press)
        } else {
            self.after_input_key(press)
        }
    }
}

} // verus!

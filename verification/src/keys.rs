//! Handling keys: one transition of the interaction state for each key, by the mode the
//! interface is in.

use crate::app::{App, Column, Effect, InputMode, Key, KeyPress, PendingAction};
use crate::auth::identities;
use crate::model::{
    account_members, ascending_list, lemma_ascending_list, project_members, project_of, AppView,
    EffectView,
};
use crate::profile::{profile_views, SyncMode};
use crate::text::{ascending, framed, insert_all_sorted, insert_sorted, texts, trimmed};
use vstd::prelude::*;

verus! {

impl App {
    /// Whether a role of the selected profile counts as valid, by its status or else by
    /// the check made for the occasion.
    pub fn role_valid(&self, is_user: bool, checked: Option<bool>) -> (r: bool)
        requires
            self@.wf(),
            self@.count() > 0,
        ensures
            r == self@.role_valid(is_user, checked),
    {
        let status = if is_user {
            self.user_auth_valid[self.selected_row]
        } else {
            self.adc_auth_valid[self.selected_row]
        };
        match status {
            Some(v) => v,
            None => match checked {
                Some(v) => v,
                None => false,
            },
        }
    }

    /// Whether credentials have to be renewed before the selected profile can be activated
    /// for the selected column.
    pub fn needs_reauth(&self, user_checked: Option<bool>, adc_checked: Option<bool>) -> (r: bool)
        requires
            self@.wf(),
            self@.count() > 0,
        ensures
            r == self@.needs_reauth(user_checked, adc_checked),
    {
        (self.selected_col.covers_user() && !self.role_valid(true, user_checked)) || (
        self.selected_col.covers_adc() && !self.role_valid(false, adc_checked))
    }

    /// Whether the selected column takes in a role of which nothing is known.
    pub fn role_unknown(&self, is_user: bool) -> (r: bool)
        requires
            self@.wf(),
            self@.count() > 0,
        ensures
            r == self@.role_unknown(is_user),
    {
        if is_user {
            self.selected_col.covers_user() && self.user_auth_valid[self.selected_row].is_none()
        } else {
            self.selected_col.covers_adc() && self.adc_auth_valid[self.selected_row].is_none()
        }
    }

    /// The request to activate the selected profile for the selected column.
    pub fn activation(&self) -> (r: Effect)
        requires
            self@.wf(),
            self@.count() > 0,
        ensures
            r@ == self@.activation(),
    {
        let profile = &self.profiles[self.selected_row];
        Effect::Activate {
            name: self.profile_names[self.selected_row].clone(),
            column: self.selected_col,
            account: profile.user_account.clone(),
            project: profile.user_project.clone(),
        }
    }

    /// Decides on the activation of the selected profile. `user_checked` and `adc_checked`
    /// are the outcomes of checks made for the occasion; they count for a role whose status is
    /// unknown. Where a credential that the column takes in is not valid, renewing it and
    /// activating afterwards is left pending; else the activation is requested.
    pub fn activate_selected(
        &mut self,
        user_checked: Option<bool>,
        adc_checked: Option<bool>,
    ) -> (r: Effect)
        requires
            old(self)@.wf(),
            old(self)@.count() > 0,
        ensures
            (final(self)@, r@) == old(self)@.after_activate_selected(user_checked, adc_checked),
            final(self)@.wf(),
    {
        if self.needs_reauth(user_checked, adc_checked) {
            self.pending_action = PendingAction::ReauthAndActivate;
            Effect::Nothing
        } else {
            self.activation()
        }
    }

    /// The projects to suggest for a project field, in ascending order, each once: those
    /// that were fetched and those that the profiles name.
    pub fn build_project_suggestions(&self) -> (r: Vec<String>)
        ensures
            ascending(texts(r@)),
            texts(r@).to_set() == project_members(self@.profiles, self@.fetched_projects),
            texts(r@) == ascending_list(
                project_members(self@.profiles, self@.fetched_projects),
            ),
    {
        let ghost views = self@.profiles;
        let ghost fetched = self@.fetched_projects;
        let mut out: Vec<String> = Vec::new();
        insert_all_sorted(&mut out, &self.fetched_projects);
        let mut i: usize = 0;
        proof {
            assert(texts(out@).to_set() =~= project_members(views.take(0), fetched));
        }
        while i < self.profiles.len()
            invariant
                i <= self.profiles.len(),
                views == profile_views(self.profiles@),
                ascending(texts(out@)),
                texts(out@).to_set() == project_members(views.take(i as int), fetched),
            decreases self.profiles.len() - i,
        {
            let p = &self.profiles[i];
            assert(views[i as int] == p@);
            if !p.user_project.as_str().is_empty() {
                insert_sorted(&mut out, p.user_project.clone());
            }
            if !p.adc_quota_project.as_str().is_empty() {
                insert_sorted(&mut out, p.adc_quota_project.clone());
            }
            proof {
                let pre = views.take(i as int);
                let nxt = views.take(i + 1);
                let now = texts(out@).to_set();
                assert forall|a: Seq<char>| now.contains(a) <==> project_members(
                    nxt,
                    fetched,
                ).contains(a) by {
                    if project_members(pre, fetched).contains(a) && !fetched.contains(a) {
                        let (j, role) = choose|j: int, role: bool|
                            0 <= j < pre.len() && #[trigger] project_of(pre[j], role) == a;
                        assert(project_of(nxt[j], role) == a);
                    }
                    if a.len() > 0 && (p@.user_project == a || p@.adc_quota_project == a) {
                        let role = p@.user_project == a;
                        assert(project_of(nxt[i as int], role) == a);
                    }
                    if project_members(nxt, fetched).contains(a) && !fetched.contains(a) {
                        let (j, role) = choose|j: int, role: bool|
                            0 <= j < nxt.len() && #[trigger] project_of(nxt[j], role) == a;
                        if j < i {
                            assert(project_of(pre[j], role) == a);
                        }
                    }
                }
                assert(now =~= project_members(nxt, fetched));
            }
            i += 1;
        }
        proof {
            assert(views.take(i as int) =~= views);
            lemma_ascending_list(texts(out@));
        }
        out
    }

    /// The accounts to suggest for an account field, in ascending order, each once: those
    /// that the profiles name and those that the credential backend knows.
    pub fn build_account_suggestions(&self, backend_accounts: &Vec<String>) -> (r: Vec<String>)
        ensures
            ascending(texts(r@)),
            texts(r@).to_set() == account_members(self@.profiles, texts(backend_accounts@)),
            texts(r@) == ascending_list(
                account_members(self@.profiles, texts(backend_accounts@)),
            ),
    {
        let mut out = identities(&self.profiles);
        insert_all_sorted(&mut out, backend_accounts);
        proof {
            assert(texts(out@).to_set() =~= account_members(
                self@.profiles,
                texts(backend_accounts@),
            ));
            lemma_ascending_list(texts(out@));
        }
        out
    }

    /// Opens the suggestions for the account field on what the profiles name and the
    /// backend knows.
    pub fn show_account_suggestions(&mut self, backend_accounts: &Vec<String>)
        ensures
            final(self)@ == old(self)@.with_suggestions(
                ascending_list(account_members(old(self)@.profiles, texts(backend_accounts@))),
            ),
            old(self)@.wf() ==> final(self)@.wf(),
    {
        self.suggestions = self.build_account_suggestions(backend_accounts);
        self.suggestion_index = if self.suggestions.len() > 0 {
            Some(0)
        } else {
            None
        };
    }

    /// The selected profile with the edited account and project in place of those of the
    /// role being edited, together with its name: what is to be persisted.
    pub fn save_edit(&self) -> (r: Effect)
        requires
            self@.wf(),
            self@.count() > 0,
        ensures
            r@ == self@.save_request(),
    {
        let name = self.profile_names[self.selected_row].clone();
        let mut profile = self.profiles[self.selected_row].clone();
        let account = String::from_str(self.edit_account_buffer.as_str().trim());
        let project = String::from_str(self.edit_project_buffer.as_str().trim());
        match self.edit_col {
            Column::User => {
                profile.user_account = account;
                profile.user_project = project;
            },
            _ => {
                profile.adc_account = account;
                profile.adc_quota_project = project;
            },
        }
        Effect::SaveProfile { name, profile }
    }

    /// Handles the key that activates the selected profile. Without Alt the interface is to
    /// end once the profile is active. Where nothing is known of a credential that the column
    /// takes in, and none is known to be invalid, a check is requested; else the decision is
    /// taken as `activate_selected` takes it.
    pub fn request_activation(&mut self, alt: bool) -> (r: Effect)
        requires
            old(self)@.wf(),
            old(self)@.count() > 0,
        ensures
            (final(self)@, r@) == old(self)@.after_activation_key(alt),
            final(self)@.wf(),
    {
        self.quit_after_activate = !alt;
        let check_user = self.role_unknown(true);
        let check_adc = self.role_unknown(false);
        if !self.needs_reauth(Some(true), Some(true)) && (check_user || check_adc) {
            let profile = &self.profiles[self.selected_row];
            Effect::CheckAuth {
                user_account: if check_user {
                    Some(profile.user_account.clone())
                } else {
                    None
                },
                adc_account: if check_adc {
                    Some(profile.adc_account.clone())
                } else {
                    None
                },
            }
        } else {
            self.activate_selected(None, None)
        }
    }

    /// Starts editing the selected profile in place: the role of the selected column, or
    /// the primary one for the column that takes in both.
    pub fn begin_edit(&mut self)
        requires
            old(self)@.wf(),
            old(self)@.count() > 0,
        ensures
            final(self)@ == old(self)@.editing_selected(),
            final(self)@.wf(),
    {
        let col = match self.selected_col {
            Column::Both => Column::User,
            other => other,
        };
        let profile = &self.profiles[self.selected_row];
        let (account, project) = match col {
            Column::User => (profile.user_account.clone(), profile.user_project.clone()),
            _ => (profile.adc_account.clone(), profile.adc_quota_project.clone()),
        };
        self.edit_col = col;
        self.edit_account_buffer = account;
        self.edit_project_buffer = project;
        self.input_mode = InputMode::EditAccount;
        self.suggestions = Vec::new();
        self.suggestion_index = None;
        self.status_message = None;
        proof {
            assert(self@.suggestions =~= Seq::<Seq<char>>::empty());
        }
    }

    /// Asks for the deletion of the selected profile to be confirmed.
    pub fn ask_delete(&mut self)
        requires
            old(self)@.wf(),
            old(self)@.count() > 0,
        ensures
            final(self)@ == old(self)@.asking_delete(),
            final(self)@.wf(),
    {
        self.status_message = Some(
            framed("Delete profile '", self.profile_names[self.selected_row].as_str(), "'? (y/n)"),
        );
        self.input_mode = InputMode::ConfirmDelete;
    }

    /// Handles a key in the normal mode: quitting, moving the selection, asking for an
    /// activation or a renewal of credentials, and entering the other modes.
    pub fn handle_normal_key(&mut self, press: KeyPress) -> (r: Effect)
        requires
            old(self)@.wf(),
        ensures
            (final(self)@, r@) == old(self)@.after_normal_key(press),
            final(self)@.wf(),
    {
        let count = self.profile_names.len();
        match press.key {
            Key::Char('q') | Key::Esc => {
                self.should_quit = true;
                Effect::Nothing
            },
            Key::Up => {
                if self.selected_row > 0 {
                    self.selected_row = self.selected_row - 1;
                }
                self.status_message = None;
                Effect::Nothing
            },
            Key::Down => {
                if count > 0 && self.selected_row < count - 1 {
                    self.selected_row = self.selected_row + 1;
                }
                self.status_message = None;
                Effect::Nothing
            },
            Key::Left => {
                self.selected_col = self.selected_col.left();
                self.status_message = None;
                Effect::Nothing
            },
            Key::Right => {
                self.selected_col = self.selected_col.right();
                self.status_message = None;
                Effect::Nothing
            },
            Key::Enter => {
                if count == 0 {
                    Effect::Nothing
                } else {
                    self.request_activation(press.alt)
                }
            },
            Key::Char('a') => {
                if count > 0 {
                    self.pending_action = PendingAction::Reauth;
                }
                Effect::Nothing
            },
            Key::Char('n') => {
                self.input_mode = InputMode::AddProfileName;
                self.input_buffer = String::new();
                self.status_message = Some(String::from_str("Enter profile name:"));
                Effect::Nothing
            },
            Key::Char('e') => {
                if count > 0 {
                    self.begin_edit();
                }
                Effect::Nothing
            },
            Key::Char('d') => {
                if count > 0 {
                    self.ask_delete();
                }
                Effect::Nothing
            },
            Key::Char('s') => Effect::SaveSyncMode { mode: self.sync_mode.next() },
            Key::Char('i') => Effect::Import,
            _ => Effect::Nothing,
        }
    }

    /// Handles a key in a step of the add sequence. Enter accepts what was typed, without
    /// surrounding white space, and moves on to the next step; with nothing typed it does
    /// nothing. The last step asks for the new profile to be persisted.
    pub fn handle_input_key(&mut self, press: KeyPress) -> (r: Effect)
        requires
            old(self)@.wf(),
        ensures
            (final(self)@, r@) == old(self)@.after_input_key(press),
            final(self)@.wf(),
    {
        match press.key {
            Key::Esc => {
                self.input_mode = InputMode::Normal;
                self.input_buffer = String::new();
                self.status_message = None;
                Effect::Nothing
            },
            Key::Enter => {
                let value = String::from_str(self.input_buffer.as_str().trim());
                if value.as_str().is_empty() {
                    return Effect::Nothing;
                }
                match self.input_mode {
                    InputMode::AddProfileName => {
                        self.new_profile_name = value;
                        self.input_buffer = String::new();
                        self.input_mode = InputMode::AddProfileUserAccount;
                        self.status_message = Some(
                            String::from_str("Enter user account (email):"),
                        );
                        Effect::Nothing
                    },
                    InputMode::AddProfileUserAccount => {
                        self.new_profile.adc_account = value.clone();
                        self.new_profile.user_account = value;
                        self.input_buffer = String::new();
                        self.input_mode = InputMode::AddProfileUserProject;
                        self.status_message = Some(String::from_str("Enter user project:"));
                        Effect::Nothing
                    },
                    InputMode::AddProfileUserProject => {
                        self.status_message = Some(
                            framed(
                                "Enter ADC account [",
                                self.new_profile.adc_account.as_str(),
                                "]:",
                            ),
                        );
                        self.new_profile.adc_quota_project = value.clone();
                        self.new_profile.user_project = value;
                        self.input_buffer = String::new();
                        self.input_mode = InputMode::AddProfileAdcAccount;
                        Effect::Nothing
                    },
                    InputMode::AddProfileAdcAccount => {
                        self.status_message = Some(
                            framed(
                                "Enter ADC quota project [",
                                self.new_profile.adc_quota_project.as_str(),
                                "]:",
                            ),
                        );
                        self.new_profile.adc_account = value;
                        self.input_buffer = String::new();
                        self.input_mode = InputMode::AddProfileAdcQuotaProject;
                        Effect::Nothing
                    },
                    InputMode::AddProfileAdcQuotaProject => {
                        self.new_profile.adc_quota_project = value;
                        Effect::AddProfile {
                            name: self.new_profile_name.clone(),
                            profile: self.new_profile.clone(),
                            create_configuration: self.sync_mode.mirrors_additions(),
                        }
                    },
                    _ => Effect::Nothing,
                }
            },
            Key::Backspace => {
                let _ = self.input_buffer.pop();
                Effect::Nothing
            },
            Key::Char(c) => {
                self.input_buffer.push(c);
                Effect::Nothing
            },
            _ => Effect::Nothing,
        }
    }

    /// Handles a key while a deletion waits to be confirmed: `y` asks for the selected
    /// profile to be removed, any other key calls the deletion off.
    pub fn handle_confirm_delete(&mut self, press: KeyPress) -> (r: Effect)
        requires
            old(self)@.wf(),
            old(self)@.count() > 0,
        ensures
            (final(self)@, r@) == old(self)@.after_confirm_key(press),
            final(self)@.wf(),
    {
        match press.key {
            Key::Char('y') | Key::Char('Y') => Effect::DeleteProfile {
                name: self.profile_names[self.selected_row].clone(),
                delete_configuration: self.sync_mode == SyncMode::Strict,
            },
            _ => {
                self.status_message = None;
                self.input_mode = InputMode::Normal;
                Effect::Nothing
            },
        }
    }

    /// Handles a key while a profile is edited in place: typing, moving through the
    /// suggestions, taking one over, moving on from the account to the project, and asking for
    /// the edit to be persisted.
    pub fn handle_edit_key(&mut self, press: KeyPress) -> (r: Effect)
        requires
            old(self)@.wf(),
            old(self)@.count() > 0,
        ensures
            (final(self)@, r@) == old(self)@.after_edit_key(press),
            final(self)@.wf(),
    {
        let on_account = self.input_mode == InputMode::EditAccount;
        match press.key {
            Key::Esc => {
                self.input_mode = InputMode::Normal;
                self.suggestion_index = None;
                self.status_message = Some(String::from_str("Edit cancelled."));
                Effect::Nothing
            },
            Key::Down => match self.suggestion_index {
                None => {
                    if on_account {
                        Effect::ListAccounts
                    } else {
                        self.suggestions = self.build_project_suggestions();
                        self.suggestion_index = if self.suggestions.len() > 0 {
                            Some(0)
                        } else {
                            None
                        };
                        Effect::Nothing
                    }
                },
                Some(i) => {
                    let len = self.suggestions.len();
                    self.suggestion_index = Some(
                        if i + 1 < len {
                            i + 1
                        } else {
                            0
                        },
                    );
                    Effect::Nothing
                },
            },
            Key::Up => match self.suggestion_index {
                None => Effect::Nothing,
                Some(i) => {
                    self.suggestion_index = Some(
                        if i == 0 {
                            self.suggestions.len() - 1
                        } else {
                            i - 1
                        },
                    );
                    Effect::Nothing
                },
            },
            Key::Enter => match self.suggestion_index {
                Some(i) => {
                    let picked = self.suggestions[i].clone();
                    if on_account {
                        self.edit_account_buffer = picked;
                    } else {
                        self.edit_project_buffer = picked;
                    }
                    self.suggestion_index = None;
                    Effect::Nothing
                },
                None => self.save_edit(),
            },
            Key::Tab => {
                if on_account {
                    self.input_mode = InputMode::EditProject;
                    self.suggestion_index = None;
                    self.start_project_fetch()
                } else {
                    self.save_edit()
                }
            },
            Key::Backspace => {
                if on_account {
                    let _ = self.edit_account_buffer.pop();
                } else {
                    let _ = self.edit_project_buffer.pop();
                }
                self.suggestion_index = None;
                Effect::Nothing
            },
            Key::Char(c) => {
                if on_account {
                    self.edit_account_buffer.push(c);
                } else {
                    self.edit_project_buffer.push(c);
                }
                self.suggestion_index = None;
                Effect::Nothing
            },
            _ => Effect::Nothing,
        }
    }

    /// Drops the projects fetched before and asks for those of the account now typed in the
    /// account field; with no account typed, nothing is fetched.
    pub fn start_project_fetch(&mut self) -> (r: Effect)
        ensures
            final(self)@ == (AppView {
                fetched_projects: Seq::empty(),
                fetching_projects: old(self).fetching_projects || trimmed(
                    old(self)@.edit_account_buffer,
                ).len() > 0,
                ..old(self)@
            }),
            r@ == (if trimmed(old(self)@.edit_account_buffer).len() > 0 {
                EffectView::FetchProjects {
                    account: trimmed(old(self)@.edit_account_buffer),
                }
            } else {
                EffectView::Nothing
            }),
    {
        let account = String::from_str(self.edit_account_buffer.as_str().trim());
        self.fetched_projects = Vec::new();
        proof {
            assert(self@.fetched_projects =~= Seq::<Seq<char>>::empty());
        }
        if account.as_str().is_empty() {
            Effect::Nothing
        } else {
            self.fetching_projects = true;
            Effect::FetchProjects { account }
        }
    }

    /// Handles a key: the transition of the mode that the interface is in. What is returned
    /// is for the caller to carry out.
    pub fn handle_event(&mut self, press: KeyPress) -> (r: Effect)
        requires
            old(self)@.wf(),
        ensures
            (final(self)@, r@) == old(self)@.after_key(press),
            final(self)@.wf(),
    {
        match self.input_mode {
            InputMode::Normal => self.handle_normal_key(press),
            InputMode::ConfirmDelete => self.handle_confirm_delete(press),
            InputMode::EditAccount | InputMode::EditProject => self.handle_edit_key(press),
            _ => self.handle_input_key(press),
        }
    }
}

} // verus!

//! The interaction state: what the interface shows and edits, the keys it takes, and the
//! work it asks its caller to carry out.

use crate::auth::{
    is_batch_for, lemma_board_keeps_size, plan_auth_checks, record_results, unknown_board,
    unknown_statuses, AuthResult, AuthUnit,
};
use crate::model::{AppView, EffectView};
use crate::profile::{opt_text, profile_views, Profile, ProfilesFile, SyncMode};
use crate::text::texts;
use vstd::prelude::*;

verus! {

/// Which credentials of the selected profile an action applies to.
#[derive(Debug, Clone, Copy, PartialEq, Eq, Structural)]
pub enum Column {
    Both,
    User,
    Adc,
}

impl Column {
    /// The column one step to the left; the leftmost stays.
    pub open spec fn spec_left(self) -> Column {
        match self {
            Column::Both => Column::Both,
            Column::User => Column::Both,
            Column::Adc => Column::User,
        }
    }

    /// The column one step to the left; the leftmost stays.
    #[verifier::when_used_as_spec(spec_left)]
    pub fn left(self) -> (r: Column)
        ensures
            r == self.spec_left(),
    {
        match self {
            Column::Both => Column::Both,
            Column::User => Column::Both,
            Column::Adc => Column::User,
        }
    }

    /// The column one step to the right; the rightmost stays.
    pub open spec fn spec_right(self) -> Column {
        match self {
            Column::Both => Column::User,
            Column::User => Column::Adc,
            Column::Adc => Column::Adc,
        }
    }

    /// The column one step to the right; the rightmost stays.
    #[verifier::when_used_as_spec(spec_right)]
    pub fn right(self) -> (r: Column)
        ensures
            r == self.spec_right(),
    {
        match self {
            Column::Both => Column::User,
            Column::User => Column::Adc,
            Column::Adc => Column::Adc,
        }
    }

    /// Whether the column takes in the primary (user) credential.
    pub open spec fn spec_covers_user(self) -> bool {
        self != Column::Adc
    }

    /// Whether the column takes in the primary (user) credential.
    #[verifier::when_used_as_spec(spec_covers_user)]
    pub fn covers_user(self) -> (r: bool)
        ensures
            r == self.spec_covers_user(),
    {
        match self {
            Column::Adc => false,
            _ => true,
        }
    }

    /// Whether the column takes in the secondary (application default) credential.
    pub open spec fn spec_covers_adc(self) -> bool {
        self != Column::User
    }

    /// Whether the column takes in the secondary (application default) credential.
    #[verifier::when_used_as_spec(spec_covers_adc)]
    pub fn covers_adc(self) -> (r: bool)
        ensures
            r == self.spec_covers_adc(),
    {
        match self {
            Column::User => false,
            _ => true,
        }
    }
}

/// What the keyboard input currently means.
#[derive(Debug, Clone, Copy, PartialEq, Eq, Structural)]
pub enum InputMode {
    Normal,
    AddProfileName,
    AddProfileUserAccount,
    AddProfileUserProject,
    AddProfileAdcAccount,
    AddProfileAdcQuotaProject,
    ConfirmDelete,
    EditAccount,
    EditProject,
}

impl InputMode {
    /// Whether the mode acts on the selected profile, so that there has to be one.
    pub open spec fn spec_needs_selection(self) -> bool {
        self == InputMode::ConfirmDelete || self == InputMode::EditAccount || self
            == InputMode::EditProject
    }

    /// Whether the mode acts on the selected profile, so that there has to be one.
    #[verifier::when_used_as_spec(spec_needs_selection)]
    pub fn needs_selection(self) -> (r: bool)
        ensures
            r == self.spec_needs_selection(),
    {
        match self {
            InputMode::ConfirmDelete | InputMode::EditAccount | InputMode::EditProject => true,
            _ => false,
        }
    }

    /// Whether the mode is a step of the sequence that adds a profile.
    pub open spec fn spec_is_adding(self) -> bool {
        self == InputMode::AddProfileName || self == InputMode::AddProfileUserAccount || self
            == InputMode::AddProfileUserProject || self == InputMode::AddProfileAdcAccount
            || self == InputMode::AddProfileAdcQuotaProject
    }

    /// Whether the mode is a step of the sequence that adds a profile.
    #[verifier::when_used_as_spec(spec_is_adding)]
    pub fn is_adding(self) -> (r: bool)
        ensures
            r == self.spec_is_adding(),
    {
        match self {
            InputMode::AddProfileName
            | InputMode::AddProfileUserAccount
            | InputMode::AddProfileUserProject
            | InputMode::AddProfileAdcAccount
            | InputMode::AddProfileAdcQuotaProject => true,
            _ => false,
        }
    }
}

/// An operation that needs the terminal for itself and is therefore left to the caller's
/// loop instead of being carried out while a key is handled.
#[derive(Debug, Clone, Copy, PartialEq, Eq, Structural)]
pub enum PendingAction {
    Nothing,
    Reauth,
    ReauthAndActivate,
}

/// A key of the keyboard, as far as the interface tells keys apart.
#[derive(Debug, Clone, Copy, PartialEq, Eq, Structural)]
pub enum Key {
    Char(char),
    Enter,
    Esc,
    Up,
    Down,
    Left,
    Right,
    Tab,
    Backspace,
    Other,
}

/// A key that was pressed, and whether Alt was held down with it.
#[derive(Debug, Clone, Copy, PartialEq, Eq, Structural)]
pub struct KeyPress {
    pub key: Key,
    pub alt: bool,
}

/// What the caller has to carry out after a key was handled. The interaction state itself
/// touches neither the profile store nor the credential backend.
#[derive(Debug, PartialEq, Eq)]
pub enum Effect {
    /// Nothing is left to do.
    Nothing,
    /// Check the named accounts once, now, and hand the outcomes to `activate_selected`.
    CheckAuth { user_account: Option<String>, adc_account: Option<String> },
    /// Make the credentials of the profile current for the column and persist the profile as
    /// the active one; then call `do_activate`.
    Activate { name: String, column: Column, account: String, project: String },
    /// Persist the sync mode; then call `set_sync_mode`.
    SaveSyncMode { mode: SyncMode },
    /// Look for configurations of the backend to import; then call `finish_import`.
    Import,
    /// Persist the new profile; then call `profile_added`.
    AddProfile { name: String, profile: Profile, create_configuration: bool },
    /// Remove the profile from the store; then call `profile_deleted`.
    DeleteProfile { name: String, delete_configuration: bool },
    /// Persist the edited profile; then call `edit_saved`.
    SaveProfile { name: String, profile: Profile },
    /// Fetch the projects of the account in the background; hand what comes back to
    /// `check_project_results`.
    FetchProjects { account: String },
    /// Ask the backend for the accounts it knows; then call `show_account_suggestions`.
    ListAccounts,
}

impl View for Effect {
    type V = EffectView;

    open spec fn view(&self) -> EffectView {
        match *self {
            Effect::Nothing => EffectView::Nothing,
            Effect::CheckAuth { user_account, adc_account } => EffectView::CheckAuth {
                user_account: opt_text(user_account),
                adc_account: opt_text(adc_account),
            },
            Effect::Activate { name, column, account, project } => EffectView::Activate {
                name: name@,
                column,
                account: account@,
                project: project@,
            },
            Effect::SaveSyncMode { mode } => EffectView::SaveSyncMode { mode },
            Effect::Import => EffectView::Import,
            Effect::AddProfile { name, profile, create_configuration } => EffectView::AddProfile {
                name: name@,
                profile: profile@,
                create_configuration,
            },
            Effect::DeleteProfile { name, delete_configuration } => EffectView::DeleteProfile {
                name: name@,
                delete_configuration,
            },
            Effect::SaveProfile { name, profile } => EffectView::SaveProfile {
                name: name@,
                profile: profile@,
            },
            Effect::FetchProjects { account } => EffectView::FetchProjects { account: account@ },
            Effect::ListAccounts => EffectView::ListAccounts,
        }
    }
}

/// The interaction state.
#[derive(Debug, PartialEq, Eq)]
pub struct App {
    pub profile_names: Vec<String>,
    pub profiles: Vec<Profile>,
    pub active_profile: Option<String>,
    pub user_auth_valid: Vec<Option<bool>>,
    pub adc_auth_valid: Vec<Option<bool>>,
    pub selected_row: usize,
    pub selected_col: Column,
    pub should_quit: bool,
    pub status_message: Option<String>,
    pub input_mode: InputMode,
    pub input_buffer: String,
    /// The profile that the add sequence is putting together.
    pub new_profile_name: String,
    pub new_profile: Profile,
    /// The credentials that are being edited in place.
    pub edit_col: Column,
    pub edit_account_buffer: String,
    pub edit_project_buffer: String,
    pub suggestions: Vec<String>,
    pub suggestion_index: Option<usize>,
    pub pending_action: PendingAction,
    pub quit_after_activate: bool,
    /// The generation of the verifications whose results still count.
    pub auth_generation: u64,
    pub fetched_projects: Vec<String>,
    pub fetching_projects: bool,
    pub sync_mode: SyncMode,
}

impl View for App {
    type V = AppView;

    open spec fn view(&self) -> AppView {
        AppView {
            profile_names: texts(self.profile_names@),
            profiles: profile_views(self.profiles@),
            active_profile: opt_text(self.active_profile),
            user_auth_valid: self.user_auth_valid@,
            adc_auth_valid: self.adc_auth_valid@,
            selected_row: self.selected_row as int,
            selected_col: self.selected_col,
            should_quit: self.should_quit,
            status_message: opt_text(self.status_message),
            input_mode: self.input_mode,
            input_buffer: self.input_buffer@,
            new_profile_name: self.new_profile_name@,
            new_profile: self.new_profile@,
            edit_col: self.edit_col,
            edit_account_buffer: self.edit_account_buffer@,
            edit_project_buffer: self.edit_project_buffer@,
            suggestions: texts(self.suggestions@),
            suggestion_index: match self.suggestion_index {
                Some(i) => Some(i as int),
                None => None,
            },
            pending_action: self.pending_action,
            quit_after_activate: self.quit_after_activate,
            auth_generation: self.auth_generation,
            fetched_projects: texts(self.fetched_projects@),
            fetching_projects: self.fetching_projects,
            sync_mode: self.sync_mode,
        }
    }
}

impl App {
    /// The interface on a profile set as it was loaded, and the verifications to issue for
    /// it.
    pub fn new(data: ProfilesFile) -> (r: (App, Vec<AuthUnit>))
        requires
            data.wf(),
        ensures
            r.0@ == AppView::initial(
                data.profiles.keys(),
                data.profiles.values(),
                data@.active_profile,
                data.sync_mode,
            ),
            r.0@.wf(),
            is_batch_for(r.1@, r.0@.profiles, r.0.auth_generation),
    {
        let selected_row = match &data.active_profile {
            Some(active) => match data.profiles.position(active.as_str()) {
                Some(at) => {
                    proof {
                        data.profiles.lemma_entry(at as int);
                    }
                    at
                },
                None => 0,
            },
            None => 0,
        };
        let count = data.profiles.len();
        let sync_mode = data.sync_mode;
        let active_profile = data.active_profile;
        let profile_names = data.profiles.names;
        let profiles = data.profiles.profiles;
        let batch = plan_auth_checks(&profiles, 1);
        let app = App {
            profile_names,
            profiles,
            active_profile,
            user_auth_valid: unknown_statuses(count),
            adc_auth_valid: unknown_statuses(count),
            selected_row,
            selected_col: Column::Both,
            should_quit: false,
            status_message: None,
            input_mode: InputMode::Normal,
            input_buffer: String::new(),
            new_profile_name: String::new(),
            new_profile: Profile::empty(),
            edit_col: Column::User,
            edit_account_buffer: String::new(),
            edit_project_buffer: String::new(),
            suggestions: Vec::new(),
            suggestion_index: None,
            pending_action: PendingAction::Nothing,
            quit_after_activate: false,
            auth_generation: 1,
            fetched_projects: Vec::new(),
            fetching_projects: false,
            sync_mode,
        };
        proof {
            assert(app@.suggestions =~= Seq::<Seq<char>>::empty());
            assert(app@.fetched_projects =~= Seq::<Seq<char>>::empty());
        }
        (app, batch)
    }

    /// Starts a new generation of verifications: every status is unknown again, results of
    /// earlier generations no longer count, and one verification is issued for each distinct
    /// account of the profiles.
    pub fn start_auth_checks(&mut self) -> (batch: Vec<AuthUnit>)
        requires
            old(self).auth_generation < u64::MAX,
        ensures
            final(self)@ == (AppView {
                auth_generation: (old(self).auth_generation + 1) as u64,
                user_auth_valid: unknown_board(old(self).profiles@.len()).user,
                adc_auth_valid: unknown_board(old(self).profiles@.len()).adc,
                ..old(self)@
            }),
            final(self).auth_generation > old(self).auth_generation,
            is_batch_for(batch@, final(self)@.profiles, final(self).auth_generation),
    {
        self.auth_generation = self.auth_generation + 1;
        self.user_auth_valid = unknown_statuses(self.profiles.len());
        self.adc_auth_valid = unknown_statuses(self.profiles.len());
        plan_auth_checks(&self.profiles, self.auth_generation)
    }

    /// Replaces the profile set in memory by the one just loaded and starts a new generation
    /// of verifications, which are returned.
    pub fn reload(&mut self, data: ProfilesFile) -> (batch: Vec<AuthUnit>)
        requires
            old(self)@.wf(),
            data.wf(),
            old(self).auth_generation < u64::MAX,
        ensures
            final(self)@ == old(self)@.reloaded(
                data.profiles.keys(),
                data.profiles.values(),
                data@.active_profile,
            ),
            final(self)@.wf(),
            final(self).auth_generation > old(self).auth_generation,
            is_batch_for(batch@, final(self)@.profiles, final(self).auth_generation),
    {
        self.active_profile = data.active_profile;
        self.profile_names = data.profiles.names;
        self.profiles = data.profiles.profiles;
        let count = self.profile_names.len();
        if self.selected_row >= count {
            self.selected_row = if count == 0 {
                0
            } else {
                count - 1
            };
        }
        if count == 0 && self.input_mode.needs_selection() {
            self.input_mode = InputMode::Normal;
        }
        self.start_auth_checks()
    }

    /// Takes in the verification results that have arrived, in order. A result of an
    /// earlier generation, or for a profile that is not there, is dropped.
    pub fn check_auth_results(&mut self, results: &Vec<AuthResult>)
        ensures
            final(self)@ == old(self)@.after_auth_results(results@),
            old(self)@.wf() ==> final(self)@.wf(),
    {
        let ghost board = self@.board();
        let live = self.auth_generation;
        record_results(&mut self.user_auth_valid, &mut self.adc_auth_valid, live, results);
        proof {
            lemma_board_keeps_size(board, live, results@, results@.len() as int);
        }
    }

    /// Takes in the project lists that have arrived, in order: the last one is what the
    /// project field suggests from now on.
    pub fn check_project_results(&mut self, results: Vec<Vec<String>>)
        ensures
            final(self)@ == old(self)@.after_project_results(
                results@.map_values(|list: Vec<String>| texts(list@)),
            ),
            old(self)@.wf() ==> final(self)@.wf(),
    {
        let mut results = results;
        match results.pop() {
            Some(last) => {
                self.fetched_projects = last;
                self.fetching_projects = false;
            },
            None => {},
        }
    }
}

} // verus!

//! What follows the work that the interface hands to its caller: the outcome of each
//! effect taken in, failures reported, and the steps of the handover of the terminal for an
//! interactive renewal of credentials.

use crate::app::{App, Column, Effect, InputMode, PendingAction};
use crate::auth::{is_batch_for, AuthUnit};
use crate::model::{AppView, EffectView};
use crate::profile::{ProfilesFile, SyncMode};
use crate::text::{count_text, framed};
use vstd::prelude::*;

verus! {

/// How a search for configurations of the backend to import ended.
#[derive(Debug, PartialEq, Eq)]
pub enum ImportOutcome {
    /// The backend has no configuration.
    NothingFound,
    /// Every configuration of the backend is a profile already.
    NothingNew,
    /// `count` profiles were added; `data` is the set as it was persisted.
    Imported { count: usize, data: ProfilesFile },
}

/// One call of the credential backend.
#[derive(Debug, PartialEq, Eq)]
pub enum BackendStep {
    /// Renew the primary credential of the account, interactively.
    ReauthUser { account: String },
    /// Make the primary credential of the profile the current one.
    ActivateUser { name: String, account: String, project: String },
    /// Renew the secondary credential, interactively, and store it for the profile.
    ReauthAdc { name: String, quota_project: String },
    /// Make the stored secondary credential of the profile the current one.
    ActivateAdc { name: String },
}

/// A call of the credential backend as plain values.
pub ghost enum BackendStepView {
    ReauthUser { account: Seq<char> },
    ActivateUser { name: Seq<char>, account: Seq<char>, project: Seq<char> },
    ReauthAdc { name: Seq<char>, quota_project: Seq<char> },
    ActivateAdc { name: Seq<char> },
}

impl View for BackendStep {
    type V = BackendStepView;

    open spec fn view(&self) -> BackendStepView {
        match *self {
            BackendStep::ReauthUser { account } => BackendStepView::ReauthUser {
                account: account@,
            },
            BackendStep::ActivateUser { name, account, project } => BackendStepView::ActivateUser {
                name: name@,
                account: account@,
                project: project@,
            },
            BackendStep::ReauthAdc { name, quota_project } => BackendStepView::ReauthAdc {
                name: name@,
                quota_project: quota_project@,
            },
            BackendStep::ActivateAdc { name } => BackendStepView::ActivateAdc { name: name@ },
        }
    }
}

/// How the loop goes on once a handover of the terminal is over.
#[derive(Debug, Clone, Copy, PartialEq, Eq, Structural)]
pub enum Resumption {
    /// Show the last status message and end, without taking the terminal back.
    Exit,
    /// Take the terminal back and draw the whole screen anew.
    Redraw,
}

/// The views of a list of calls.
pub open spec fn step_views(steps: Seq<BackendStep>) -> Seq<BackendStepView> {
    steps.map_values(|s: BackendStep| s@)
}

impl AppView {
    /// The calls that renew the credentials of the selected profile for the selected
    /// column: for the primary role the renewal and then the activation of the profile's
    /// configuration, for the secondary role the renewal; for both, the primary role first.
    pub open spec fn reauth_steps(self) -> Seq<BackendStepView> {
        let p = self.selected_profile();
        let user = seq![
            BackendStepView::ReauthUser { account: p.user_account },
            BackendStepView::ActivateUser {
                name: self.selected_name(),
                account: p.user_account,
                project: p.user_project,
            },
        ];
        let adc = seq![
            BackendStepView::ReauthAdc {
                name: self.selected_name(),
                quota_project: p.adc_quota_project,
            },
        ];
        match self.selected_col {
            Column::Both => user + adc,
            Column::User => user,
            Column::Adc => adc,
        }
    }

    /// The state and effect after the credentials were renewed under a pending action and
    /// the set was loaded anew: the renewal is reported, and if the action was to activate
    /// afterwards and a profile is selected, its activation is requested.
    pub open spec fn after_finish_reauth(
        self,
        action: PendingAction,
        names: Seq<Seq<char>>,
        profiles: Seq<crate::profile::ProfileView>,
        active: Option<Seq<char>>,
    ) -> (AppView, EffectView) {
        let renewed = self.after_reauth(names, profiles, active);
        if action == PendingAction::ReauthAndActivate && renewed.count() > 0 {
            (renewed, renewed.activation())
        } else {
            (renewed, EffectView::Nothing)
        }
    }
}

impl App {
    /// Reports a failure of the work that was handed to the caller: the message is shown,
    /// and the interface is back in the normal mode with nothing open. The profiles, the
    /// selection and the statuses stay as they were.
    pub fn fail(&mut self, message: String)
        ensures
            final(self)@ == old(self)@.after_fail(message@),
            old(self)@.wf() ==> final(self)@.wf(),
    {
        self.status_message = Some(message);
        self.input_mode = InputMode::Normal;
        self.input_buffer = String::new();
        self.suggestion_index = None;
    }

    /// Takes in that the sync mode was persisted.
    pub fn set_sync_mode(&mut self, mode: SyncMode)
        ensures
            final(self)@ == old(self)@.after_sync_mode(mode),
            old(self)@.wf() ==> final(self)@.wf(),
    {
        self.sync_mode = mode;
        self.status_message = Some(String::from_str("Sync mode: ").concat(mode.label()));
    }

    /// Takes in that the selected profile was activated for the selected column and
    /// persisted as the active one: it is the active profile, the activation is reported, and
    /// the interface ends if the key asked for that.
    pub fn do_activate(&mut self)
        requires
            old(self)@.wf(),
            old(self)@.count() > 0,
        ensures
            final(self)@ == old(self)@.after_do_activate(),
            final(self)@.wf(),
    {
        let name = self.profile_names[self.selected_row].clone();
        let message = match self.selected_col {
            Column::Both => framed("Activated profile '", name.as_str(), "'."),
            Column::User => framed("Activated user config for '", name.as_str(), "'."),
            Column::Adc => framed("Activated ADC for '", name.as_str(), "'."),
        };
        self.status_message = Some(message);
        self.active_profile = Some(name);
        if self.quit_after_activate {
            self.should_quit = true;
        }
    }

    /// Takes in that the credentials of the selected profile were renewed for the selected
    /// column: the renewal is reported and the set, loaded anew, replaces the one in memory.
    /// Returns the verifications to issue.
    pub fn execute_reauth(&mut self, data: ProfilesFile) -> (batch: Vec<AuthUnit>)
        requires
            old(self)@.wf(),
            old(self)@.count() > 0,
            data.wf(),
            old(self).auth_generation < u64::MAX,
        ensures
            final(self)@ == old(self)@.after_reauth(
                data.profiles.keys(),
                data.profiles.values(),
                data@.active_profile,
            ),
            final(self)@.wf(),
            final(self).auth_generation > old(self).auth_generation,
            is_batch_for(batch@, final(self)@.profiles, final(self).auth_generation),
    {
        let name = self.profile_names[self.selected_row].as_str();
        let message = match self.selected_col {
            Column::Both => framed("Re-authenticated user and ADC for '", name, "'."),
            Column::User => framed("User re-authenticated for '", name, "'."),
            Column::Adc => framed("ADC re-authenticated for '", name, "'."),
        };
        self.status_message = Some(message);
        self.reload(data)
    }

    /// Takes in that the profile put together by the add sequence was persisted: the set,
    /// loaded anew, replaces the one in memory, and the interface is back in the normal mode.
    /// Returns the verifications to issue.
    pub fn profile_added(&mut self, data: ProfilesFile) -> (batch: Vec<AuthUnit>)
        requires
            old(self)@.wf(),
            data.wf(),
            old(self).auth_generation < u64::MAX,
        ensures
            final(self)@ == old(self)@.after_profile_added(
                data.profiles.keys(),
                data.profiles.values(),
                data@.active_profile,
            ),
            final(self)@.wf(),
            final(self).auth_generation > old(self).auth_generation,
            is_batch_for(batch@, final(self)@.profiles, final(self).auth_generation),
    {
        self.status_message = Some(
            framed("Profile '", self.new_profile_name.as_str(), "' added."),
        );
        let batch = self.reload(data);
        self.input_mode = InputMode::Normal;
        self.input_buffer = String::new();
        batch
    }

    /// Takes in that the selected profile was removed from the store: the set, loaded anew,
    /// replaces the one in memory, and the interface is back in the normal mode. Returns the
    /// verifications to issue.
    pub fn profile_deleted(&mut self, data: ProfilesFile) -> (batch: Vec<AuthUnit>)
        requires
            old(self)@.wf(),
            old(self)@.count() > 0,
            data.wf(),
            old(self).auth_generation < u64::MAX,
        ensures
            final(self)@ == old(self)@.after_profile_deleted(
                data.profiles.keys(),
                data.profiles.values(),
                data@.active_profile,
            ),
            final(self)@.wf(),
            final(self).auth_generation > old(self).auth_generation,
            is_batch_for(batch@, final(self)@.profiles, final(self).auth_generation),
    {
        self.status_message = Some(
            framed("Deleted profile '", self.profile_names[self.selected_row].as_str(), "'."),
        );
        let batch = self.reload(data);
        self.input_mode = InputMode::Normal;
        batch
    }

    /// Takes in that the edit of the selected profile was persisted: the set, loaded anew,
    /// replaces the one in memory, and the interface is back in the normal mode. Returns the
    /// verifications to issue.
    pub fn edit_saved(&mut self, data: ProfilesFile) -> (batch: Vec<AuthUnit>)
        requires
            old(self)@.wf(),
            old(self)@.count() > 0,
            data.wf(),
            old(self).auth_generation < u64::MAX,
        ensures
            final(self)@ == old(self)@.after_edit_saved(
                data.profiles.keys(),
                data.profiles.values(),
                data@.active_profile,
            ),
            final(self)@.wf(),
            final(self).auth_generation > old(self).auth_generation,
            is_batch_for(batch@, final(self)@.profiles, final(self).auth_generation),
    {
        let message = framed(
            "Profile '",
            self.profile_names[self.selected_row].as_str(),
            "' updated.",
        );
        let batch = self.reload(data);
        self.input_mode = InputMode::Normal;
        self.suggestion_index = None;
        self.status_message = Some(message);
        batch
    }

    /// Takes in how an import ended. After an import that added profiles the set, loaded
    /// anew, replaces the one in memory; the verifications to issue are returned. Otherwise
    /// only the reason is reported, and nothing is to be issued.
    pub fn finish_import(&mut self, outcome: ImportOutcome) -> (batch: Vec<AuthUnit>)
        requires
            old(self)@.wf(),
            old(self).auth_generation < u64::MAX,
            outcome matches ImportOutcome::Imported { data, .. } ==> data.wf(),
        ensures
            final(self)@ == (match outcome {
                ImportOutcome::NothingFound => old(self)@.with_status(
                    "No gcloud configurations found."@,
                ),
                ImportOutcome::NothingNew => old(self)@.with_status(
                    "No new configurations to import."@,
                ),
                ImportOutcome::Imported { count, data } => old(self)@.after_import(
                    count as nat,
                    data.profiles.keys(),
                    data.profiles.values(),
                    data@.active_profile,
                ),
            }),
            final(self)@.wf(),
            outcome is Imported ==> final(self).auth_generation > old(self).auth_generation
                && is_batch_for(batch@, final(self)@.profiles, final(self).auth_generation),
            !(outcome is Imported) ==> batch@.len() == 0,
    {
        match outcome {
            ImportOutcome::NothingFound => {
                self.status_message = Some(String::from_str("No gcloud configurations found."));
                Vec::new()
            },
            ImportOutcome::NothingNew => {
                self.status_message = Some(String::from_str("No new configurations to import."));
                Vec::new()
            },
            ImportOutcome::Imported { count, data } => {
                let batch = self.reload(data);
                self.status_message = Some(
                    framed("Imported ", count_text(count).as_str(), " profile(s)."),
                );
                batch
            },
        }
    }

    /// Takes the pending action out of the state, so that it is carried out once.
    pub fn take_pending_action(&mut self) -> (r: PendingAction)
        ensures
            r == old(self).pending_action,
            final(self)@ == (AppView { pending_action: PendingAction::Nothing, ..old(self)@ }),
            old(self)@.wf() ==> final(self)@.wf(),
    {
        let action = self.pending_action;
        self.pending_action = PendingAction::Nothing;
        action
    }

    /// The calls of the credential backend that renew the credentials of the selected
    /// profile for the selected column, in the order in which they are to be made. A call that
    /// fails ends the renewal.
    pub fn reauth_plan(&self) -> (r: Vec<BackendStep>)
        requires
            self@.wf(),
            self@.count() > 0,
        ensures
            step_views(r@) == self@.reauth_steps(),
    {
        let name = &self.profile_names[self.selected_row];
        let profile = &self.profiles[self.selected_row];
        let mut steps: Vec<BackendStep> = Vec::new();
        if self.selected_col.covers_user() {
            steps.push(BackendStep::ReauthUser { account: profile.user_account.clone() });
            steps.push(
                BackendStep::ActivateUser {
                    name: name.clone(),
                    account: profile.user_account.clone(),
                    project: profile.user_project.clone(),
                },
            );
        }
        if self.selected_col.covers_adc() {
            steps.push(
                BackendStep::ReauthAdc {
                    name: name.clone(),
                    quota_project: profile.adc_quota_project.clone(),
                },
            );
        }
        proof {
            assert(step_views(steps@) =~= self@.reauth_steps());
        }
        steps
    }

    /// Begins the handover of the terminal for the pending action, if there is one: the
    /// action is taken out of the state, and it is returned with the calls of the credential
    /// backend to make while the terminal is released. Without a pending action, or without a
    /// profile to act on, there is no handover.
    pub fn begin_handover(&mut self) -> (r: Option<(PendingAction, Vec<BackendStep>)>)
        requires
            old(self)@.wf(),
        ensures
            final(self)@ == (AppView { pending_action: PendingAction::Nothing, ..old(self)@ }),
            final(self)@.wf(),
            r is Some <==> old(self).pending_action != PendingAction::Nothing && old(
                self,
            )@.count() > 0,
            r matches Some(handover) ==> handover.0 == old(self).pending_action && step_views(
                handover.1@,
            ) == old(self)@.reauth_steps(),
    {
        let action = self.take_pending_action();
        match action {
            PendingAction::Nothing => None,
            _ => if self.profile_names.len() > 0 {
                Some((action, self.reauth_plan()))
            } else {
                None
            },
        }
    }

    /// How the loop goes on after a handover: it ends where the interface is to end, which
    /// is so after an activation that was asked for with the key that ends the interface;
    /// else it takes the terminal back.
    pub fn resumption(&self) -> (r: Resumption)
        ensures
            r == (if self.should_quit {
                Resumption::Exit
            } else {
                Resumption::Redraw
            }),
    {
        if self.should_quit {
            Resumption::Exit
        } else {
            Resumption::Redraw
        }
    }

    /// Takes in that the renewal under the pending action `action` succeeded, with the set
    /// loaded anew. Returns the verifications to issue, and the activation to carry out if the
    /// action was to activate afterwards.
    pub fn finish_reauth(&mut self, action: PendingAction, data: ProfilesFile) -> (r: (
        Vec<AuthUnit>,
        Effect,
    ))
        requires
            old(self)@.wf(),
            old(self)@.count() > 0,
            data.wf(),
            old(self).auth_generation < u64::MAX,
        ensures
            (final(self)@, r.1@) == old(self)@.after_finish_reauth(
                action,
                data.profiles.keys(),
                data.profiles.values(),
                data@.active_profile,
            ),
            final(self)@.wf(),
            final(self).auth_generation > old(self).auth_generation,
            is_batch_for(r.0@, final(self)@.profiles, final(self).auth_generation),
    {
        let batch = self.execute_reauth(data);
        let effect = match action {
            PendingAction::ReauthAndActivate => if self.profile_names.len() > 0 {
                self.activation()
            } else {
                Effect::Nothing
            },
            _ => Effect::Nothing,
        };
        (batch, effect)
    }
}

} // verus!

//! What holds of the interaction state machine whatever the state and the key.

use crate::app::{InputMode, Key, KeyPress, PendingAction};
use crate::auth::{board_after, AuthResult};
use crate::model::{AppView, EffectView};
use crate::profile::ProfileView;
use crate::text::trimmed;
use vstd::prelude::*;

verus! {

/// A key takes a valid state to a valid state.
pub proof fn law_key_keeps_state_valid(s: AppView, press: KeyPress)
    requires
        s.wf(),
    ensures
        s.after_key(press).0.wf(),
{
}

/// Keys leave the profile set, the statuses and the generation alone: those change only
/// when the set is loaded anew or results come in.
pub proof fn law_key_starts_no_generation(s: AppView, press: KeyPress)
    ensures
        s.after_key(press).0.auth_generation == s.auth_generation,
        s.after_key(press).0.user_auth_valid == s.user_auth_valid,
        s.after_key(press).0.adc_auth_valid == s.adc_auth_valid,
        s.after_key(press).0.profile_names == s.profile_names,
        s.after_key(press).0.profiles == s.profiles,
        s.after_key(press).0.active_profile == s.active_profile,
{
}

/// Esc in any mode but the normal one leads back to the normal mode and asks for nothing
/// to be persisted or carried out. What was typed in a step of the add sequence is dropped,
/// and so is the place in the suggestions of an edit.
pub proof fn law_escape_cancels(s: AppView, alt: bool)
    requires
        s.input_mode != InputMode::Normal,
    ensures
        s.after_key(KeyPress { key: Key::Esc, alt }).0.input_mode == InputMode::Normal,
        s.after_key(KeyPress { key: Key::Esc, alt }).1 == EffectView::Nothing,
        s.input_mode.is_adding() ==> s.after_key(KeyPress { key: Key::Esc, alt }).0.input_buffer
            == Seq::<char>::empty(),
        s.editing_account() || s.input_mode == InputMode::EditProject ==> s.after_key(
            KeyPress { key: Key::Esc, alt },
        ).0.suggestion_index is None,
{
}

/// In a step of the add sequence, Enter on an input that holds nothing but white space
/// does nothing at all.
pub proof fn law_empty_input_is_rejected(s: AppView, alt: bool)
    requires
        s.input_mode.is_adding(),
        trimmed(s.input_buffer).len() == 0,
    ensures
        s.after_key(KeyPress { key: Key::Enter, alt }) == (s, EffectView::Nothing),
{
}

/// The add sequence, step by step: from its first step, five accepted values lead to the
/// request to persist one profile under the first value as its name, with the other four as
/// its fields; until then nothing is requested. After the third step the secondary account
/// and project are the primary ones, which is what the last two steps start from.
pub proof fn law_add_sequence(
    s: AppView,
    name: Seq<char>,
    account: Seq<char>,
    project: Seq<char>,
    adc_account: Seq<char>,
    adc_project: Seq<char>,
)
    requires
        s.input_mode == InputMode::AddProfileName,
    ensures
        ({
            let s1 = s.after_submit(name);
            let s2 = s1.0.after_submit(account);
            let s3 = s2.0.after_submit(project);
            let s4 = s3.0.after_submit(adc_account);
            let s5 = s4.0.after_submit(adc_project);
            &&& s1.1 == EffectView::Nothing
            &&& s2.1 == EffectView::Nothing
            &&& s3.1 == EffectView::Nothing
            &&& s4.1 == EffectView::Nothing
            &&& s3.0.new_profile.adc_account == account
            &&& s3.0.new_profile.adc_quota_project == project
            &&& s5.1 == EffectView::AddProfile {
                name,
                profile: ProfileView {
                    user_account: account,
                    user_project: project,
                    adc_account,
                    adc_quota_project: adc_project,
                    updated_at: s.new_profile.updated_at,
                },
                create_configuration: s.sync_mode.mirrors_additions(),
            }
        }),
{
}

/// While a handover of the terminal is under way no new action comes to be pending:
/// neither the renewal, nor the activation after it, nor a failure of either raises one.
pub proof fn law_handover_raises_no_action(
    s: AppView,
    action: PendingAction,
    names: Seq<Seq<char>>,
    profiles: Seq<ProfileView>,
    active: Option<Seq<char>>,
    message: Seq<char>,
)
    requires
        s.pending_action == PendingAction::Nothing,
    ensures
        s.after_finish_reauth(action, names, profiles, active).0.pending_action
            == PendingAction::Nothing,
        s.after_do_activate().pending_action == PendingAction::Nothing,
        s.after_fail(message).pending_action == PendingAction::Nothing,
{
}

/// An interface that is not to end after an activation does not end through one, and a
/// failure never ends it.
pub proof fn law_only_a_wanted_exit(s: AppView, message: Seq<char>)
    requires
        !s.should_quit,
    ensures
        s.after_do_activate().should_quit == s.quit_after_activate,
        !s.after_fail(message).should_quit,
{
}

/// Loading the set anew supersedes every verification issued before: a result that carries
/// the generation of the state before the load, or an earlier one, changes nothing after it.
pub proof fn law_reload_supersedes(
    s: AppView,
    names: Seq<Seq<char>>,
    profiles: Seq<ProfileView>,
    active: Option<Seq<char>>,
    result: AuthResult,
)
    requires
        s.auth_generation < u64::MAX,
        result.generation <= s.auth_generation,
    ensures
        s.reloaded(names, profiles, active).auth_generation > s.auth_generation,
        board_after(
            s.reloaded(names, profiles, active).board(),
            s.reloaded(names, profiles, active).auth_generation,
            result,
        ) == s.reloaded(names, profiles, active).board(),
{
}

} // verus!

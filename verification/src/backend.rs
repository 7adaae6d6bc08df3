//! What the credential backend is asked to do, and what is read out of the credentials
//! that it stores.

use crate::app::Column;
use crate::protocol::{step_views, BackendStep, BackendStepView};
use crate::store::Store;
use crate::text::framed;
use vstd::prelude::*;

verus! {

/// The calls that activate a profile for both roles: the primary credential, and the
/// secondary one if credentials are stored for the profile.
pub open spec fn both_steps(
    has_adc: bool,
    name: Seq<char>,
    account: Seq<char>,
    project: Seq<char>,
) -> Seq<BackendStepView> {
    let user = seq![BackendStepView::ActivateUser { name, account, project }];
    if has_adc {
        user.push(BackendStepView::ActivateAdc { name })
    } else {
        user
    }
}

/// The calls that make the credentials of a profile current for both roles. The secondary
/// role is left out while no credentials are stored for it.
pub fn activate_both(store: &Store, profile_name: &str, account: &str, project: &str) -> (r: Vec<
    BackendStep,
>)
    requires
        store.wf(),
    ensures
        step_views(r@) == both_steps(
            store@.adc.contains(profile_name@),
            profile_name@,
            account@,
            project@,
        ),
{
    let mut steps: Vec<BackendStep> = Vec::new();
    steps.push(
        BackendStep::ActivateUser {
            name: String::from_str(profile_name),
            account: String::from_str(account),
            project: String::from_str(project),
        },
    );
    if store.has_adc(profile_name) {
        steps.push(BackendStep::ActivateAdc { name: String::from_str(profile_name) });
    }
    proof {
        assert(step_views(steps@) =~= both_steps(
            store@.adc.contains(profile_name@),
            profile_name@,
            account@,
            project@,
        ));
    }
    steps
}

/// The message for a profile whose secondary credential cannot be activated because none is
/// stored.
pub open spec fn no_adc_message(name: Seq<char>) -> Seq<char> {
    "No ADC credentials stored for profile '"@ + name + "'. Run re-auth (r) first."@
}

/// The calls that activate a profile for a column, or the reason why it cannot be
/// activated: the secondary role alone needs stored credentials.
pub open spec fn activation_steps(
    has_adc: bool,
    column: Column,
    name: Seq<char>,
    account: Seq<char>,
    project: Seq<char>,
) -> Result<Seq<BackendStepView>, Seq<char>> {
    match column {
        Column::Both => Ok(both_steps(has_adc, name, account, project)),
        Column::User => Ok(seq![BackendStepView::ActivateUser { name, account, project }]),
        Column::Adc => if has_adc {
            Ok(seq![BackendStepView::ActivateAdc { name }])
        } else {
            Err(no_adc_message(name))
        },
    }
}

/// The calls of the credential backend that make the credentials of a profile current for
/// `column`, in order. For the secondary role alone this fails, with the message to show,
/// when no credentials are stored for the profile.
pub fn activation_plan(
    store: &Store,
    column: Column,
    profile_name: &str,
    account: &str,
    project: &str,
) -> (r: Result<Vec<BackendStep>, String>)
    requires
        store.wf(),
    ensures
        match r {
            Ok(steps) => activation_steps(
                store@.adc.contains(profile_name@),
                column,
                profile_name@,
                account@,
                project@,
            ) == Ok::<Seq<BackendStepView>, Seq<char>>(step_views(steps@)),
            Err(message) => activation_steps(
                store@.adc.contains(profile_name@),
                column,
                profile_name@,
                account@,
                project@,
            ) == Err::<Seq<BackendStepView>, Seq<char>>(message@),
        },
{
    match column {
        Column::Both => Ok(activate_both(store, profile_name, account, project)),
        Column::User => {
            let mut steps: Vec<BackendStep> = Vec::new();
            steps.push(
                BackendStep::ActivateUser {
                    name: String::from_str(profile_name),
                    account: String::from_str(account),
                    project: String::from_str(project),
                },
            );
            proof {
                assert(step_views(steps@) =~= seq![
                    BackendStepView::ActivateUser {
                        name: profile_name@,
                        account: account@,
                        project: project@,
                    },
                ]);
            }
            Ok(steps)
        },
        Column::Adc => {
            if store.has_adc(profile_name) {
                let mut steps: Vec<BackendStep> = Vec::new();
                steps.push(BackendStep::ActivateAdc { name: String::from_str(profile_name) });
                proof {
                    assert(step_views(steps@) =~= seq![
                        BackendStepView::ActivateAdc { name: profile_name@ },
                    ]);
                }
                Ok(steps)
            } else {
                Err(
                    framed(
                        "No ADC credentials stored for profile '",
                        profile_name,
                        "'. Run re-auth (r) first.",
                    ),
                )
            }
        },
    }
}

} // verus!

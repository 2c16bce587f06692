//! Leaving the program.
//!
//! The subscriptions that a session made stay with the broker unless they
//! are deleted. So a request to quit is held back while there are any, and
//! the user is asked whether to delete them first, to quit without deleting,
//! or not to quit after all.

use crate::actions::{delete_subscriptions, Submission};
use crate::message::FrontendMessage;
use crate::model::SubscriptionName;
use vstd::prelude::*;

verus! {

/// How far the deletion of the session's subscriptions has come.
#[derive(Debug, Clone, Copy, PartialEq, Eq, Structural)]
pub enum SubscriptionCleanupState {
    /// Nothing has been asked for.
    Idle,
    /// The deletion has been asked for and its outcome is awaited.
    Waiting,
    /// The outcome has arrived.
    Complete,
}

impl Default for SubscriptionCleanupState {
    fn default() -> (state: Self)
        ensures
            state == SubscriptionCleanupState::Idle,
    {
        SubscriptionCleanupState::Idle
    }
}

/// What the user chose in the dialog.
#[derive(Debug, Clone, Copy, PartialEq, Eq, Structural)]
pub enum ExitChoice {
    /// Delete the subscriptions, then quit.
    DeleteSubscriptions,
    /// Quit and leave the subscriptions.
    Skip,
    /// Do not quit.
    Cancel,
}

/// What the dialog shows.
#[derive(Debug, Clone, Copy, PartialEq, Eq, Structural)]
pub enum ExitDialog {
    /// No dialog.
    Hidden,
    /// The question, with the subscriptions and the three choices.
    Confirm,
    /// The notice that the subscriptions are being deleted.
    Deleting,
    /// An empty dialog: the deletion is over and the program is about to
    /// quit.
    Closing,
}

/// The state of leaving.
#[derive(Debug, Clone, Copy, PartialEq, Eq, Structural)]
pub struct ExitState {
    pub show_exit_dialogue: bool,
    pub can_exit: bool,
    pub subscription_cleanup_state: SubscriptionCleanupState,
}

impl Default for ExitState {
    fn default() -> (state: Self)
        ensures
            state == (ExitState {
                show_exit_dialogue: false,
                can_exit: false,
                subscription_cleanup_state: SubscriptionCleanupState::Idle,
            }),
    {
        ExitState {
            show_exit_dialogue: false,
            can_exit: false,
            subscription_cleanup_state: SubscriptionCleanupState::Idle,
        }
    }
}

/// The dialog to show, given whether the session has subscriptions left.
pub open spec fn dialog_of(state: ExitState, has_subscriptions: bool) -> ExitDialog {
    if !state.show_exit_dialogue || !has_subscriptions {
        ExitDialog::Hidden
    } else {
        match state.subscription_cleanup_state {
            SubscriptionCleanupState::Idle => ExitDialog::Confirm,
            SubscriptionCleanupState::Waiting => ExitDialog::Deleting,
            SubscriptionCleanupState::Complete => ExitDialog::Closing,
        }
    }
}

/// Whether the program may quit once the dialog has been looked at: it
/// might before, or the dialog is up and either nothing is left to delete or
/// the deletion is over.
pub open spec fn may_exit_after_show(state: ExitState, has_subscriptions: bool) -> bool {
    state.can_exit || (state.show_exit_dialogue && (!has_subscriptions
        || state.subscription_cleanup_state == SubscriptionCleanupState::Complete))
}

/// The state after the user's choice. Choices count only while the question
/// is up.
pub open spec fn after_choice(state: ExitState, has_subscriptions: bool, choice: ExitChoice)
    -> ExitState {
    if dialog_of(state, has_subscriptions) != ExitDialog::Confirm {
        state
    } else {
        match choice {
            ExitChoice::DeleteSubscriptions => ExitState {
                subscription_cleanup_state: SubscriptionCleanupState::Waiting,
                ..state
            },
            ExitChoice::Skip => ExitState { can_exit: true, ..state },
            ExitChoice::Cancel => ExitState { show_exit_dialogue: false, ..state },
        }
    }
}

impl ExitDialog {
    /// The title of the dialog.
    pub fn title(&self) -> (title: &'static str)
        ensures
            title@ == if *self == ExitDialog::Deleting {
                "Deleting Subscriptions..."@
            } else {
                "Confirm Quit"@
            },
    {
        match self {
            ExitDialog::Deleting => "Deleting Subscriptions...",
            _ => "Confirm Quit",
        }
    }
}

impl ExitState {
    /// Takes note that the window is asked to close: the dialog comes up.
    /// Says whether the window may close now.
    pub fn on_close_event(&mut self) -> (may_close: bool)
        ensures
            may_close == old(self).can_exit,
            *final(self) == (ExitState { show_exit_dialogue: true, ..*old(self) }),
    {
        self.show_exit_dialogue = true;
        self.can_exit
    }

    /// Looks at the dialog for one frame: says what to show for the
    /// subscriptions that the session still has, and lets the program quit
    /// where nothing holds it any more.
    pub fn show(&mut self, sub_names: &Vec<SubscriptionName>) -> (dialog: ExitDialog)
        ensures
            dialog == dialog_of(*old(self), sub_names@.len() > 0),
            *final(self) == (ExitState {
                can_exit: may_exit_after_show(*old(self), sub_names@.len() > 0),
                ..*old(self)
            }),
    {
        if !self.show_exit_dialogue {
            return ExitDialog::Hidden;
        }
        if sub_names.len() == 0 {
            self.can_exit = true;
            return ExitDialog::Hidden;
        }
        match self.subscription_cleanup_state {
            SubscriptionCleanupState::Idle => ExitDialog::Confirm,
            SubscriptionCleanupState::Waiting => ExitDialog::Deleting,
            SubscriptionCleanupState::Complete => {
                self.can_exit = true;
                ExitDialog::Closing
            },
        }
    }

    /// Takes the user's choice in the dialog. Choosing to delete asks the
    /// bridge to delete `sub_names` and waits for the outcome; no other
    /// choice sends anything.
    pub fn on_choice(&mut self, choice: ExitChoice, sub_names: Vec<SubscriptionName>) -> (cleanup:
        Option<Submission>)
        ensures
            *final(self) == after_choice(*old(self), sub_names@.len() > 0, choice),
            cleanup == if dialog_of(*old(self), sub_names@.len() > 0) == ExitDialog::Confirm
                && choice == ExitChoice::DeleteSubscriptions {
                Some(
                    Submission {
                        delay_millis: None,
                        message: FrontendMessage::DeleteSubscriptions(sub_names),
                        must_arrive: false,
                    },
                )
            } else {
                None
            },
    {
        if !self.show_exit_dialogue || sub_names.len() == 0 {
            return None;
        }
        match self.subscription_cleanup_state {
            SubscriptionCleanupState::Idle => match choice {
                ExitChoice::DeleteSubscriptions => {
                    self.subscription_cleanup_state = SubscriptionCleanupState::Waiting;
                    Some(delete_subscriptions(sub_names))
                },
                ExitChoice::Skip => {
                    self.can_exit = true;
                    None
                },
                ExitChoice::Cancel => {
                    self.show_exit_dialogue = false;
                    None
                },
            },
            _ => None,
        }
    }
}

} // verus!

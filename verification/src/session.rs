//! The player's session: when the page may talk to the server on the player's
//! behalf, and what to do when restoring the session fails.

use vstd::prelude::*;
use crate::text::{contains_seq, contains_text};

verus! {

/// The parts of the saved data that decide what the page may ask the server.
#[derive(Clone, Copy, PartialEq, Eq, Structural, Debug)]
pub struct Session {
    /// The player chose offline mode.
    pub offline_mode: bool,
    /// The id of the logged-in user, if any.
    pub user_id: Option<i32>,
    /// Login tokens are saved.
    pub has_tokens: bool,
}

impl Session {
    /// The page may ask the server for the player's own data: online, logged in,
    /// and with tokens.
    pub open spec fn spec_online(self) -> bool {
        !self.offline_mode && self.user_id is Some && self.has_tokens
    }

    /// Whether the page may ask the server for the player's own data.
    pub fn online(&self) -> (r: bool)
        ensures
            r == self.spec_online(),
            self.offline_mode ==> !r,
            r ==> self.user_id is Some && self.has_tokens,
            !self.offline_mode && self.user_id is Some && self.has_tokens ==> r,
    {
        !self.offline_mode && self.user_id.is_some() && self.has_tokens
    }

    /// The key of whoever is looking at the page: the user id, or -1 when nobody
    /// is logged in.
    pub open spec fn spec_viewer(self) -> i32 {
        match self.user_id {
            Some(id) => id,
            None => -1i32,
        }
    }

    /// The key of whoever is looking at the page.
    pub fn viewer(&self) -> (r: i32)
        ensures
            r == self.spec_viewer(),
    {
        match self.user_id {
            Some(id) => id,
            None => -1,
        }
    }

    /// Whether opening the home page starts restoring the saved session (refresh
    /// the login, fetch the user): when not offline and a user is saved.
    pub fn restores_session(&self) -> (r: bool)
        ensures
            r == (!self.offline_mode && self.user_id is Some),
    {
        !self.offline_mode && self.user_id.is_some()
    }
}

/// Offline mode, a missing user or missing tokens each forbid asking the server;
/// with none of them missing, the server may be asked.
pub proof fn online_needs_all_three(session: Session)
    ensures
        session.offline_mode ==> !session.spec_online(),
        session.user_id is None ==> !session.spec_online(),
        !session.has_tokens ==> !session.spec_online(),
        !session.offline_mode && session.user_id is Some && session.has_tokens ==> session.spec_online(),
{
}

/// What to do when restoring the session failed.
#[derive(Clone, Copy, PartialEq, Eq, Structural, Debug)]
pub struct RestoreFailure {
    /// The saved token was refused: forget the user and the tokens, save and sync.
    pub forget_session: bool,
    /// The account is waiting to be deleted: ask whether to cancel the deletion
    /// (and clear any earlier answer); otherwise the error is shown.
    pub ask_pending_delete: bool,
}

/// Decides what a failed session restore leads to, from the error's debug text and
/// whether the error is the server's "pending delete request" code.
pub fn restore_failure(error_text: &str, pending_delete: bool) -> (r: RestoreFailure)
    ensures
        r.forget_session == contains_seq(error_text@, "invalid token"@),
        r.ask_pending_delete == pending_delete,
{
    let forget = contains_text(error_text, "invalid token");
    RestoreFailure { forget_session: forget, ask_pending_delete: pending_delete }
}

/// The answer stored for the pending-delete dialog: confirm (cancel the deletion).
pub const PENDING_CONFIRM: i8 = 1;

/// The answer stored for the pending-delete dialog: cancel (log out).
pub const PENDING_CANCEL: i8 = 2;

/// The answer that the pending-delete dialog's button `button` stores: none for
/// the dialog's dismissal (-1, which keeps the dialog), `PENDING_CONFIRM` for the
/// confirm button (1), `PENDING_CANCEL` for any other button.
pub open spec fn pending_answer_spec(button: i32) -> Option<i8> {
    if button == -1 {
        None
    } else if button == 1 {
        Some(PENDING_CONFIRM)
    } else {
        Some(PENDING_CANCEL)
    }
}

/// The answer that a button of the pending-delete dialog stores.
pub fn pending_delete_answer(button: i32) -> (r: Option<i8>)
    ensures
        r == pending_answer_spec(button),
{
    if button == -1 {
        None
    } else if button == 1 {
        Some(PENDING_CONFIRM)
    } else {
        Some(PENDING_CANCEL)
    }
}

/// What an answer of the pending-delete dialog leads to.
#[derive(Clone, Copy, PartialEq, Eq, Structural, Debug)]
pub enum PendingAction {
    /// No answer yet.
    Nothing,
    /// Restore the session again, this time cancelling the deletion request.
    RetryCancellingDeletion,
    /// No tokens are left to retry with: stop restoring the session.
    StopRestoring,
    /// Log out.
    Logout,
}

/// The action for the stored answer `answer` (0 when there is none).
pub open spec fn pending_action_spec(answer: i8, has_tokens: bool) -> PendingAction {
    if answer == PENDING_CONFIRM {
        if has_tokens {
            PendingAction::RetryCancellingDeletion
        } else {
            PendingAction::StopRestoring
        }
    } else if answer == PENDING_CANCEL {
        PendingAction::Logout
    } else {
        PendingAction::Nothing
    }
}

/// The action for a stored answer of the pending-delete dialog.
pub fn pending_delete_action(answer: i8, has_tokens: bool) -> (a: PendingAction)
    ensures
        a == pending_action_spec(answer, has_tokens),
{
    if answer == PENDING_CONFIRM {
        if has_tokens {
            PendingAction::RetryCancellingDeletion
        } else {
            PendingAction::StopRestoring
        }
    } else if answer == PENDING_CANCEL {
        PendingAction::Logout
    } else {
        PendingAction::Nothing
    }
}

/// Every button that closes the pending-delete dialog is acted upon: its stored
/// answer differs from the empty answer 0 and leads to an action; only confirming
/// retries, and only with tokens.
pub proof fn pending_delete_answers_are_acted_on(button: i32, has_tokens: bool)
    requires
        button != -1,
    ensures
        pending_answer_spec(button) matches Some(a) && a != 0 && pending_action_spec(a, has_tokens)
            != PendingAction::Nothing,
        pending_action_spec(0, has_tokens) == PendingAction::Nothing,
        pending_answer_spec(button) matches Some(a) && (pending_action_spec(a, has_tokens)
            == PendingAction::RetryCancellingDeletion <==> button == 1 && has_tokens),
{
}

} // verus!

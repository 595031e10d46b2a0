//! The states of a chat.

use vstd::prelude::*;

verus! {

/// What the service expects next from a chat.
#[derive(Clone, Copy, PartialEq, Eq, Structural, Debug)]
pub enum State {
    /// Reminders are sent.
    Active,
    /// Reminders are not sent.
    Disabled,
    /// The next document is read as a list of birthdays.
    WaitingJson,
    /// The next text message is read as one birthday.
    WaitingBirthday,
    /// The next text message is read as the number of a birthday to remove.
    WaitingRemoving,
}

impl State {
    /// Whether the chat is in one of the three input modes.
    pub open spec fn is_waiting(self) -> bool {
        self is WaitingJson || self is WaitingBirthday || self is WaitingRemoving
    }
}

} // verus!

//! Core of a birthday reminder service: per-chat state and birthday lists
//! kept under a memory budget, what the service answers to commands and
//! messages, and the decisions of the daily jobs that read the lists.

pub mod args;
pub mod birthday;
pub mod birthdays_map;
pub mod handles;
pub mod messages;
pub mod state;
pub mod tasks;
pub mod text;
pub mod utils;

pub use args::Args;
pub use birthday::{Birthday, BirthdayView, Birthdays};
pub use birthdays_map::{BirthdaysMap, ChatId, Error, ErrorKind, BIRTHDAY_MAP_LIMIT};
pub use state::State;

//! The orders that switch a chat between its states.

use vstd::prelude::*;
use vstd::string::StringExecFns;

use crate::birthday::{listing, BirthdayView, Birthdays};
use crate::birthdays_map::{BirthdaysMap, Change, ChatId, RecordView};
use crate::handles::{answer_views, say, AdminCommands, Answer, AnswerView};
use crate::messages::{
    ACTIVE_ALREADY_ACTIVE_MSG, ACTIVE_EMPTY_LIST, ACTIVE_MSG, ACTIVE_WAITING_BIR_MSG,
    ACTIVE_WAITING_JSON_MSG, ADD_MSG, BUSY_MSG, CANCEL_ALREADY_DISABLED_MSG,
    CANCEL_EMPTY_LIST_MSG, CANCEL_MSG, DISABLE_ALREADY_DISABLED_MSG, DISABLE_EMPTY_LIST,
    DISABLE_MSG, DISABLE_WAITING_MSG, JSON_MSG, REMOVE_MSG,
};
use crate::state::State;

verus! {

/// The list of a chat, which is empty for a chat without a record.
pub open spec fn list_of(records: Map<i64, RecordView>, chat: i64) -> Seq<BirthdayView> {
    if records.contains_key(chat) {
        records[chat].1
    } else {
        Seq::empty()
    }
}

/// The record that a chat gets when its first order needs none of its own:
/// reminders off, no birthdays.
pub open spec fn first_record(chat: i64) -> Change {
    Change::PutRecord { chat, state: State::Disabled, list: Seq::empty() }
}

/// The change that an order asks of the map, if it asks for any.
pub open spec fn admin_change(records: Map<i64, RecordView>, chat: i64, cmd: AdminCommands) -> Option<
    Change,
> {
    let known = records.contains_key(chat);
    let state = records[chat].0;
    match cmd {
        AdminCommands::Add => Some(Change::SetState { chat, state: State::WaitingBirthday }),
        AdminCommands::AddMany => Some(Change::SetState { chat, state: State::WaitingJson }),
        AdminCommands::Remove => Some(Change::SetState { chat, state: State::WaitingRemoving }),
        AdminCommands::List => None,
        _ if !known => Some(first_record(chat)),
        AdminCommands::Cancel => if state.is_waiting() {
            Some(Change::SetState { chat, state: State::Disabled })
        } else {
            None
        },
        AdminCommands::Active => if state == State::Disabled && records[chat].1.len() > 0 {
            Some(Change::SetState { chat, state: State::Active })
        } else {
            None
        },
        AdminCommands::Disable => if state == State::Active {
            Some(Change::SetState { chat, state: State::Disabled })
        } else {
            None
        },
    }
}

/// The records after an order: those after the change that it asks for, if
/// it asks for one and the map accepts it, and else those from before.
pub open spec fn admin_outcome(
    records: Map<i64, RecordView>,
    ceiling: nat,
    chat: i64,
    cmd: AdminCommands,
) -> Map<i64, RecordView> {
    match admin_change(records, chat, cmd) {
        Some(change) => change.outcome(records, ceiling),
        None => records,
    }
}

/// What an order is answered with.
pub open spec fn admin_answers(
    records: Map<i64, RecordView>,
    ceiling: nat,
    chat: i64,
    cmd: AdminCommands,
) -> Seq<AnswerView> {
    let known = records.contains_key(chat);
    let state = records[chat].0;
    let list = AnswerView::Text(listing(list_of(records, chat)));
    let refused = admin_change(records, chat, cmd) matches Some(change) && !change.admitted(
        records,
        ceiling,
    );
    if refused {
        seq![AnswerView::Text(BUSY_MSG@)]
    } else {
        match cmd {
            AdminCommands::Add => seq![AnswerView::Text(ADD_MSG@)],
            AdminCommands::AddMany => seq![AnswerView::Text(JSON_MSG@), AnswerView::SampleFile],
            AdminCommands::Remove => seq![AnswerView::Text(REMOVE_MSG@), list],
            AdminCommands::List => seq![list],
            AdminCommands::Cancel => if !known {
                seq![AnswerView::Text(CANCEL_EMPTY_LIST_MSG@)]
            } else if state.is_waiting() {
                seq![AnswerView::Text(CANCEL_MSG@), list]
            } else {
                seq![AnswerView::Text(CANCEL_ALREADY_DISABLED_MSG@)]
            },
            AdminCommands::Active => if !known {
                seq![AnswerView::Text(ACTIVE_EMPTY_LIST@)]
            } else {
                match state {
                    State::Disabled => if records[chat].1.len() == 0 {
                        seq![AnswerView::Text(ACTIVE_EMPTY_LIST@)]
                    } else {
                        seq![AnswerView::Text(ACTIVE_MSG@)]
                    },
                    State::Active => seq![AnswerView::Text(ACTIVE_ALREADY_ACTIVE_MSG@)],
                    State::WaitingJson => seq![AnswerView::Text(ACTIVE_WAITING_JSON_MSG@)],
                    _ => seq![AnswerView::Text(ACTIVE_WAITING_BIR_MSG@)],
                }
            },
            AdminCommands::Disable => if !known {
                seq![AnswerView::Text(DISABLE_EMPTY_LIST@)]
            } else {
                match state {
                    State::Disabled => seq![AnswerView::Text(DISABLE_ALREADY_DISABLED_MSG@)],
                    State::Active => seq![AnswerView::Text(DISABLE_MSG@)],
                    _ => seq![AnswerView::Text(DISABLE_WAITING_MSG@)],
                }
            },
        }
    }
}

/// The list of the chat as text, that of an empty list for a chat without a
/// record.
fn list_text(map: &BirthdaysMap, chat_id: &ChatId) -> (text: String)
    ensures
        text@ == listing(list_of(map@, chat_id.0)),
{
    match map.get(chat_id) {
        Some(record) => record.1.list(),
        None => Birthdays::default().list(),
    }
}

/// Puts the chat into an input mode: sets the state `waiting` and answers
/// with `prompt`, and after it the document that serves as an example or
/// the list of the chat, as the mode asks.
fn enter_mode(map: &mut BirthdaysMap, chat_id: ChatId, cmd: AdminCommands) -> (answers: Vec<Answer>)
    requires
        cmd == AdminCommands::Add || cmd == AdminCommands::AddMany || cmd == AdminCommands::Remove,
    ensures
        final(map).ceiling() == old(map).ceiling(),
        final(map)@ == admin_outcome(old(map)@, old(map).ceiling(), chat_id.0, cmd),
        answer_views(answers@) == admin_answers(old(map)@, old(map).ceiling(), chat_id.0, cmd),
        old(map).within_limit() ==> final(map).within_limit(),
{
    let state = match cmd {
        AdminCommands::Add => State::WaitingBirthday,
        AdminCommands::AddMany => State::WaitingJson,
        _ => State::WaitingRemoving,
    };
    match map.update_state(&chat_id, state) {
        Ok(()) => {
            let mut answers: Vec<Answer> = Vec::new();
            match cmd {
                AdminCommands::Add => {
                    answers.push(Answer::Text(String::from_str(ADD_MSG)));
                },
                AdminCommands::AddMany => {
                    answers.push(Answer::Text(String::from_str(JSON_MSG)));
                    answers.push(Answer::SampleFile);
                },
                _ => {
                    answers.push(Answer::Text(String::from_str(REMOVE_MSG)));
                    answers.push(Answer::Text(list_text(map, &chat_id)));
                },
            }
            answers
        },
        Err(_) => say(BUSY_MSG),
    }
}

/// Gives a chat without a record its first one and answers with `welcome`,
/// or with the word that the map is full.
fn admit_chat(map: &mut BirthdaysMap, chat_id: ChatId, welcome: &str) -> (answers: Vec<Answer>)
    requires
        !old(map)@.contains_key(chat_id.0),
    ensures
        final(map).ceiling() == old(map).ceiling(),
        final(map)@ == first_record(chat_id.0).outcome(old(map)@, old(map).ceiling()),
        answer_views(answers@) == if first_record(chat_id.0).admitted(
            old(map)@,
            old(map).ceiling(),
        ) {
            seq![AnswerView::Text(welcome@)]
        } else {
            seq![AnswerView::Text(BUSY_MSG@)]
        },
        old(map).within_limit() ==> final(map).within_limit(),
{
    match map.insert(chat_id, State::Disabled, Birthdays::default()) {
        Ok(()) => say(welcome),
        Err(_) => say(BUSY_MSG),
    }
}

/// Ends the input mode of the chat.
fn handle_cancel_command(map: &mut BirthdaysMap, chat_id: ChatId) -> (answers: Vec<Answer>)
    ensures
        final(map).ceiling() == old(map).ceiling(),
        final(map)@ == admin_outcome(
            old(map)@,
            old(map).ceiling(),
            chat_id.0,
            AdminCommands::Cancel,
        ),
        answer_views(answers@) == admin_answers(
            old(map)@,
            old(map).ceiling(),
            chat_id.0,
            AdminCommands::Cancel,
        ),
        old(map).within_limit() ==> final(map).within_limit(),
{
    let state = match map.get(&chat_id) {
        Some(record) => record.0,
        None => {
            return admit_chat(map, chat_id, CANCEL_EMPTY_LIST_MSG);
        },
    };
    match state {
        State::WaitingBirthday | State::WaitingJson | State::WaitingRemoving => {
            match map.update_state(&chat_id, State::Disabled) {
                Ok(()) => {
                    let mut answers: Vec<Answer> = Vec::new();
                    answers.push(Answer::Text(String::from_str(CANCEL_MSG)));
                    answers.push(Answer::Text(list_text(map, &chat_id)));
                    answers
                },
                Err(_) => say(BUSY_MSG),
            }
        },
        _ => say(CANCEL_ALREADY_DISABLED_MSG),
    }
}

/// Switches the reminders of the chat on, if it has birthdays and is in no
/// input mode.
fn handle_active_command(map: &mut BirthdaysMap, chat_id: ChatId) -> (answers: Vec<Answer>)
    ensures
        final(map).ceiling() == old(map).ceiling(),
        final(map)@ == admin_outcome(
            old(map)@,
            old(map).ceiling(),
            chat_id.0,
            AdminCommands::Active,
        ),
        answer_views(answers@) == admin_answers(
            old(map)@,
            old(map).ceiling(),
            chat_id.0,
            AdminCommands::Active,
        ),
        old(map).within_limit() ==> final(map).within_limit(),
{
    let (state, empty) = match map.get(&chat_id) {
        Some(record) => (record.0, record.1.is_empty()),
        None => {
            return admit_chat(map, chat_id, ACTIVE_EMPTY_LIST);
        },
    };
    match state {
        State::Disabled => {
            if empty {
                say(ACTIVE_EMPTY_LIST)
            } else {
                match map.update_state(&chat_id, State::Active) {
                    Ok(()) => say(ACTIVE_MSG),
                    Err(_) => say(BUSY_MSG),
                }
            }
        },
        State::Active => say(ACTIVE_ALREADY_ACTIVE_MSG),
        State::WaitingJson => say(ACTIVE_WAITING_JSON_MSG),
        State::WaitingBirthday | State::WaitingRemoving => say(ACTIVE_WAITING_BIR_MSG),
    }
}

/// Switches the reminders of the chat off, if they are on.
fn handle_disable_command(map: &mut BirthdaysMap, chat_id: ChatId) -> (answers: Vec<Answer>)
    ensures
        final(map).ceiling() == old(map).ceiling(),
        final(map)@ == admin_outcome(
            old(map)@,
            old(map).ceiling(),
            chat_id.0,
            AdminCommands::Disable,
        ),
        answer_views(answers@) == admin_answers(
            old(map)@,
            old(map).ceiling(),
            chat_id.0,
            AdminCommands::Disable,
        ),
        old(map).within_limit() ==> final(map).within_limit(),
{
    let state = match map.get(&chat_id) {
        Some(record) => record.0,
        None => {
            return admit_chat(map, chat_id, DISABLE_EMPTY_LIST);
        },
    };
    match state {
        State::Disabled => say(DISABLE_ALREADY_DISABLED_MSG),
        State::Active => match map.update_state(&chat_id, State::Disabled) {
            Ok(()) => say(DISABLE_MSG),
            Err(_) => say(BUSY_MSG),
        },
        State::WaitingJson | State::WaitingBirthday | State::WaitingRemoving => say(
            DISABLE_WAITING_MSG,
        ),
    }
}

/// Carries out an order for a chat: changes the map as the order asks and
/// says what to answer. An order that would need room that the map does
/// not have changes nothing and is answered with the word that the map is
/// full.
pub fn admin_commands_handler(map: &mut BirthdaysMap, chat_id: ChatId, cmd: AdminCommands) -> (answers:
    Vec<Answer>)
    ensures
        final(map).ceiling() == old(map).ceiling(),
        final(map)@ == admin_outcome(old(map)@, old(map).ceiling(), chat_id.0, cmd),
        answer_views(answers@) == admin_answers(old(map)@, old(map).ceiling(), chat_id.0, cmd),
        old(map).within_limit() ==> final(map).within_limit(),
{
    match cmd {
        AdminCommands::Add => enter_mode(map, chat_id, cmd),
        AdminCommands::AddMany => enter_mode(map, chat_id, cmd),
        AdminCommands::Remove => enter_mode(map, chat_id, cmd),
        AdminCommands::Cancel => handle_cancel_command(map, chat_id),
        AdminCommands::Active => handle_active_command(map, chat_id),
        AdminCommands::Disable => handle_disable_command(map, chat_id),
        AdminCommands::List => {
            let mut answers: Vec<Answer> = Vec::new();
            answers.push(Answer::Text(list_text(map, &chat_id)));
            answers
        },
    }
}

} // verus!

//! Messages that are no commands: a birthday, a number or a document that
//! a chat was asked for.

use vstd::prelude::*;
use vstd::string::StringExecFns;

use crate::birthday::{Birthday, BirthdayView, Birthdays};
use crate::birthdays_map::{BirthdaysMap, Change, ChatId, RecordView};
use crate::handles::admin::list_of;
use crate::handles::{answer_views, say, Answer, AnswerView};
use crate::messages::{
    ADDED_MSG, BUSY_MSG, INVALID_FILE_MSG, INVALID_INPUT_MSG, LOADED_MSG, NOT_FOUND_MSG,
    REMOVED_ENDING, REMOVED_MIDDLE, REMOVED_OPENING,
};
use crate::state::State;
use crate::utils::{
    birthday_of_groups, birthday_view, index_of, parse_birthday_index, parse_birthday_info,
    regex_captures, BIRTHDAY_PATTERN,
};

verus! {

/// What the next message of a chat is read as.
#[derive(Clone, Copy, PartialEq, Eq, Structural, Debug)]
pub enum Expected {
    /// Nothing is awaited: a message that is no command is left alone.
    Nothing,
    /// A document with birthdays.
    Document,
    /// A text that writes one birthday.
    Birthday,
    /// A text that writes the number of a birthday.
    Number,
}

/// What a chat is expected to send, by its state; a chat without a record
/// is expected to send nothing.
pub open spec fn expected_of(records: Map<i64, RecordView>, chat: i64) -> Expected {
    if !records.contains_key(chat) {
        Expected::Nothing
    } else {
        match records[chat].0 {
            State::WaitingJson => Expected::Document,
            State::WaitingBirthday => Expected::Birthday,
            State::WaitingRemoving => Expected::Number,
            _ => Expected::Nothing,
        }
    }
}

/// What the chat is expected to send next.
pub fn expected_input(map: &BirthdaysMap, chat_id: &ChatId) -> (expected: Expected)
    ensures
        expected == expected_of(map@, chat_id.0),
{
    match map.get(chat_id) {
        Some(record) => match record.0 {
            State::WaitingJson => Expected::Document,
            State::WaitingBirthday => Expected::Birthday,
            State::WaitingRemoving => Expected::Number,
            _ => Expected::Nothing,
        },
        None => Expected::Nothing,
    }
}

/// What is to be done with a message that is no command.
#[derive(Debug)]
pub enum Reaction {
    /// Send these answers, which may be none.
    Answers(Vec<Answer>),
    /// Fetch the document of the message, read it as a list of birthdays,
    /// and hand the outcome to [`document_handler`].
    ReadDocument,
}

/// The answer to a birthday that was sent to be added: to one that could
/// not be read, that the message was not written as asked; else what the
/// map made of the birthday.
pub open spec fn added_answers(
    records: Map<i64, RecordView>,
    ceiling: nat,
    chat: i64,
    parsed: Option<BirthdayView>,
) -> Seq<AnswerView> {
    match parsed {
        Some(birthday) => if (Change::AddBirthday { chat, birthday }).admitted(records, ceiling) {
            seq![AnswerView::Text(ADDED_MSG@)]
        } else {
            seq![AnswerView::Text(BUSY_MSG@)]
        },
        None => seq![AnswerView::Text(INVALID_INPUT_MSG@)],
    }
}

/// The records after a birthday was sent to be added.
pub open spec fn added_outcome(
    records: Map<i64, RecordView>,
    ceiling: nat,
    chat: i64,
    parsed: Option<BirthdayView>,
) -> Map<i64, RecordView> {
    match parsed {
        Some(birthday) => (Change::AddBirthday { chat, birthday }).outcome(records, ceiling),
        None => records,
    }
}

/// Adds the birthday that was read from a message to the list of the chat,
/// if one was read and the map has room, and says what to answer.
pub fn add_parsed(map: &mut BirthdaysMap, chat_id: ChatId, parsed: Option<Birthday>) -> (answers:
    Vec<Answer>)
    ensures
        final(map).ceiling() == old(map).ceiling(),
        final(map)@ == added_outcome(
            old(map)@,
            old(map).ceiling(),
            chat_id.0,
            birthday_view(parsed),
        ),
        answer_views(answers@) == added_answers(
            old(map)@,
            old(map).ceiling(),
            chat_id.0,
            birthday_view(parsed),
        ),
        old(map).within_limit() ==> final(map).within_limit(),
{
    match parsed {
        Some(birthday) => match map.update_birthdays(&chat_id, birthday) {
            Ok(()) => say(ADDED_MSG),
            Err(_) => say(BUSY_MSG),
        },
        None => say(INVALID_INPUT_MSG),
    }
}

/// Reads a message as a birthday and adds it to the list of the chat.
pub fn add_handler(map: &mut BirthdaysMap, chat_id: ChatId, text: &str) -> (answers: Vec<Answer>)
    ensures
        final(map).ceiling() == old(map).ceiling(),
        final(map)@ == added_outcome(
            old(map)@,
            old(map).ceiling(),
            chat_id.0,
            birthday_of_groups(regex_captures(BIRTHDAY_PATTERN@, text@)),
        ),
        answer_views(answers@) == added_answers(
            old(map)@,
            old(map).ceiling(),
            chat_id.0,
            birthday_of_groups(regex_captures(BIRTHDAY_PATTERN@, text@)),
        ),
        old(map).within_limit() ==> final(map).within_limit(),
{
    add_parsed(map, chat_id, parse_birthday_info(text))
}

/// What tells a chat that a birthday was removed.
pub open spec fn removed_text(birthday: BirthdayView) -> Seq<char> {
    REMOVED_OPENING@ + birthday.name + REMOVED_MIDDLE@ + birthday.date + REMOVED_ENDING@
}

/// The answer to a message that was sent as the number of a birthday to
/// remove.
pub open spec fn removed_answers(records: Map<i64, RecordView>, chat: i64, input: Seq<char>) -> Seq<
    AnswerView,
> {
    match index_of(input) {
        Some(index) => if index < list_of(records, chat).len() {
            seq![AnswerView::Text(removed_text(records[chat].1[index as int]))]
        } else {
            seq![AnswerView::Text(NOT_FOUND_MSG@)]
        },
        None => seq![AnswerView::Text(INVALID_INPUT_MSG@)],
    }
}

/// The records after a message was sent as the number of a birthday to
/// remove.
pub open spec fn removed_outcome(records: Map<i64, RecordView>, chat: i64, input: Seq<char>) -> Map<
    i64,
    RecordView,
> {
    match index_of(input) {
        Some(index) => (Change::RemoveBirthday { chat, index: index as nat }).applied(records),
        None => records,
    }
}

/// Reads a message as the number of a birthday, removes that birthday from
/// the list of the chat, and says what to answer.
pub fn remove_handler(map: &mut BirthdaysMap, chat_id: ChatId, text: &str) -> (answers: Vec<Answer>)
    ensures
        final(map).ceiling() == old(map).ceiling(),
        final(map)@ == removed_outcome(old(map)@, chat_id.0, text@),
        answer_views(answers@) == removed_answers(old(map)@, chat_id.0, text@),
        old(map).within_limit() ==> final(map).within_limit(),
{
    match parse_birthday_index(text) {
        Some(index) => match map.remove_birthday(&chat_id, index) {
            Some(birthday) => {
                let mut line = String::from_str(REMOVED_OPENING);
                line.append(birthday.name.as_str());
                line.append(REMOVED_MIDDLE);
                line.append(birthday.date.as_str());
                line.append(REMOVED_ENDING);
                let mut answers: Vec<Answer> = Vec::new();
                answers.push(Answer::Text(line));
                answers
            },
            None => say(NOT_FOUND_MSG),
        },
        None => say(INVALID_INPUT_MSG),
    }
}

/// The answer to a document that was sent as a list of birthdays, of which
/// `parsed` is what could be read.
pub open spec fn loaded_answers(
    records: Map<i64, RecordView>,
    ceiling: nat,
    chat: i64,
    parsed: Option<Seq<BirthdayView>>,
) -> Seq<AnswerView> {
    match parsed {
        Some(list) => if (Change::AddList { chat, list }).admitted(records, ceiling) {
            seq![AnswerView::Text(LOADED_MSG@)]
        } else {
            seq![AnswerView::Text(BUSY_MSG@)]
        },
        None => seq![AnswerView::Text(INVALID_FILE_MSG@)],
    }
}

/// The records after a document was sent as a list of birthdays.
pub open spec fn loaded_outcome(
    records: Map<i64, RecordView>,
    ceiling: nat,
    chat: i64,
    parsed: Option<Seq<BirthdayView>>,
) -> Map<i64, RecordView> {
    match parsed {
        Some(list) => (Change::AddList { chat, list }).outcome(records, ceiling),
        None => records,
    }
}

/// The value of a list that may be missing.
pub open spec fn list_view(list: Option<Birthdays>) -> Option<Seq<BirthdayView>> {
    match list {
        Some(list) => Some(list@),
        None => None,
    }
}

/// Merges the list that was read from a document into that of the chat, if
/// one was read and the map has room, and says what to answer.
pub fn document_handler(map: &mut BirthdaysMap, chat_id: ChatId, parsed: Option<Birthdays>) -> (answers:
    Vec<Answer>)
    ensures
        final(map).ceiling() == old(map).ceiling(),
        final(map)@ == loaded_outcome(old(map)@, old(map).ceiling(), chat_id.0, list_view(parsed)),
        answer_views(answers@) == loaded_answers(
            old(map)@,
            old(map).ceiling(),
            chat_id.0,
            list_view(parsed),
        ),
        old(map).within_limit() ==> final(map).within_limit(),
{
    match parsed {
        Some(list) => match map.extend_birthdays(&chat_id, list) {
            Ok(()) => say(LOADED_MSG),
            Err(_) => say(BUSY_MSG),
        },
        None => say(INVALID_FILE_MSG),
    }
}

/// The value of a [`Reaction`].
pub ghost enum ReactionView {
    Answers(Seq<AnswerView>),
    ReadDocument,
}

impl View for Reaction {
    type V = ReactionView;

    open spec fn view(&self) -> ReactionView {
        match self {
            Reaction::Answers(answers) => ReactionView::Answers(answer_views(answers@)),
            Reaction::ReadDocument => ReactionView::ReadDocument,
        }
    }
}

/// The characters of a text that may be missing.
pub open spec fn text_view(text: Option<&str>) -> Option<Seq<char>> {
    match text {
        Some(text) => Some(text@),
        None => None,
    }
}

/// What is done with a message that is no command, by what the chat is
/// expected to send and what the message holds.
pub open spec fn common_reaction(
    records: Map<i64, RecordView>,
    ceiling: nat,
    chat: i64,
    text: Option<Seq<char>>,
    has_document: bool,
) -> ReactionView {
    match (expected_of(records, chat), text) {
        (Expected::Document, _) => if has_document {
            ReactionView::ReadDocument
        } else {
            ReactionView::Answers(Seq::empty())
        },
        (Expected::Birthday, Some(text)) => ReactionView::Answers(
            added_answers(
                records,
                ceiling,
                chat,
                birthday_of_groups(regex_captures(BIRTHDAY_PATTERN@, text)),
            ),
        ),
        (Expected::Number, Some(text)) => ReactionView::Answers(
            removed_answers(records, chat, text),
        ),
        _ => ReactionView::Answers(Seq::empty()),
    }
}

/// The records after a message that is no command.
pub open spec fn common_outcome(
    records: Map<i64, RecordView>,
    ceiling: nat,
    chat: i64,
    text: Option<Seq<char>>,
) -> Map<i64, RecordView> {
    match (expected_of(records, chat), text) {
        (Expected::Birthday, Some(text)) => added_outcome(
            records,
            ceiling,
            chat,
            birthday_of_groups(regex_captures(BIRTHDAY_PATTERN@, text)),
        ),
        (Expected::Number, Some(text)) => removed_outcome(records, chat, text),
        _ => records,
    }
}

/// Reads a message that is no command as what the chat is expected to
/// send. A text is read as a birthday or as a number where one of them is
/// awaited; for a document that is awaited the caller is told to read it;
/// everything else is left alone.
pub fn common_commands_handler(
    map: &mut BirthdaysMap,
    chat_id: ChatId,
    text: Option<&str>,
    has_document: bool,
) -> (reaction: Reaction)
    ensures
        final(map).ceiling() == old(map).ceiling(),
        final(map)@ == common_outcome(old(map)@, old(map).ceiling(), chat_id.0, text_view(text)),
        reaction@ == common_reaction(
            old(map)@,
            old(map).ceiling(),
            chat_id.0,
            text_view(text),
            has_document,
        ),
        old(map).within_limit() ==> final(map).within_limit(),
{
    match expected_input(map, &chat_id) {
        Expected::Document => {
            if has_document {
                return Reaction::ReadDocument;
            }
        },
        Expected::Birthday => {
            if let Some(text) = text {
                return Reaction::Answers(add_handler(map, chat_id, text));
            }
        },
        Expected::Number => {
            if let Some(text) = text {
                return Reaction::Answers(remove_handler(map, chat_id, text));
            }
        },
        Expected::Nothing => {},
    }
    let none: Vec<Answer> = Vec::new();
    assert(answer_views(none@) =~= Seq::<AnswerView>::empty());
    Reaction::Answers(none)
}

} // verus!

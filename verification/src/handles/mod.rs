//! What the service does with commands and messages: the change to the map
//! and the answers to send. Sending is left to the caller.

use vstd::prelude::*;
use vstd::string::StringExecFns;

use crate::messages::{
    ADMIN_INTERACTION_ENDING, ADMIN_INTERACTION_PREFIX, CREATOR_MESSAGE, GREETINGS_MSG,
    NO_INTERACTION_ENDING, NO_INTERACTION_PREFIX,
};
use crate::utils::{get_place, place_of, ChatKind, Place};

pub mod admin;
pub mod common;
pub mod maintainer;

pub use admin::admin_commands_handler;
pub use common::{add_handler, common_commands_handler, document_handler, remove_handler};
pub use maintainer::maintainer_commands_handler;

verus! {

/// The commands of the maintainer.
#[derive(Clone, Copy, PartialEq, Eq, Structural, Debug)]
pub enum MaintainerCommands {
    /// Asks how the service is doing.
    Status,
    /// Asks for the map of birthdays to be saved now.
    Backup,
}

/// The commands of those who may give a chat orders.
#[derive(Clone, Copy, PartialEq, Eq, Structural, Debug)]
pub enum AdminCommands {
    /// Lets the chat send one birthday after the other.
    Add,
    /// Lets the chat send a document with birthdays.
    AddMany,
    /// Lets the chat send the number of a birthday to remove.
    Remove,
    /// Ends the input mode of the chat.
    Cancel,
    /// Switches the reminders of the chat on.
    Active,
    /// Switches the reminders of the chat off.
    Disable,
    /// Asks for the list of the birthdays of the chat.
    List,
}

/// The commands of everyone.
#[derive(Clone, Copy, PartialEq, Eq, Structural, Debug)]
pub enum Command {
    /// Asks for the greeting.
    Start,
    /// Asks for the commands and what they do.
    Help,
    /// Asks whether the sender may give the chat orders.
    CheckControl,
    /// Asks for the file that shows how a document with birthdays looks.
    File,
}

/// One thing to send to a chat in answer to a message.
#[derive(Debug)]
pub enum Answer {
    /// A text.
    Text(String),
    /// The file that shows how a document with birthdays looks.
    SampleFile,
}

/// The value of an [`Answer`].
pub ghost enum AnswerView {
    Text(Seq<char>),
    SampleFile,
}

impl View for Answer {
    type V = AnswerView;

    open spec fn view(&self) -> AnswerView {
        match self {
            Answer::Text(text) => AnswerView::Text(text@),
            Answer::SampleFile => AnswerView::SampleFile,
        }
    }
}

/// The values of answers, in their order.
pub open spec fn answer_views(answers: Seq<Answer>) -> Seq<AnswerView> {
    answers.map_values(|answer: Answer| answer@)
}

/// One text as the whole answer.
pub(crate) fn say(text: &str) -> (answers: Vec<Answer>)
    ensures
        answer_views(answers@) == seq![AnswerView::Text(text@)],
{
    let mut answers: Vec<Answer> = Vec::new();
    answers.push(Answer::Text(String::from_str(text)));
    answers
}

/// Who sent a message, as far as the answers depend on it.
#[derive(Clone, Copy, PartialEq, Eq, Structural, Debug)]
pub struct Sender {
    /// Whether the sender is the maintainer.
    pub is_maintainer: bool,
    /// Whether the sender is among those who run the chat.
    pub is_admin: bool,
    /// The kind of chat that the message came in.
    pub chat: ChatKind,
}

/// The descriptions of the commands, as the platform's own tools write
/// them: those of everyone and those of the maintainer as one text each,
/// those of the orders line by line.
#[derive(Debug)]
pub struct Descriptions {
    pub base: String,
    pub admin: Vec<String>,
    pub maintainer: String,
}

/// The answer to the question whether the sender may give the chat orders.
pub open spec fn control_text(sender: Sender) -> Seq<char> {
    if sender.is_maintainer {
        CREATOR_MESSAGE@
    } else if sender.is_admin {
        ADMIN_INTERACTION_PREFIX@ + place_of(sender.chat).words() + ADMIN_INTERACTION_ENDING@
    } else {
        NO_INTERACTION_PREFIX@ + place_of(sender.chat).words() + NO_INTERACTION_ENDING@
    }
}

/// Answers the question whether the sender may give the chat orders.
fn handle_check_control_command(sender: &Sender) -> (text: String)
    ensures
        text@ == control_text(*sender),
{
    if sender.is_maintainer {
        String::from_str(CREATOR_MESSAGE)
    } else {
        let place = get_place(sender.chat).to_string();
        let (opening, ending) = if sender.is_admin {
            (ADMIN_INTERACTION_PREFIX, ADMIN_INTERACTION_ENDING)
        } else {
            (NO_INTERACTION_PREFIX, NO_INTERACTION_ENDING)
        };
        let mut text = String::from_str(opening);
        text.append(place.as_str());
        text.append(ending);
        text
    }
}

/// The descriptions of the orders with the place behind each line.
pub open spec fn placed_lines(lines: Seq<String>, place: Place) -> Seq<char>
    decreases lines.len(),
{
    if lines.len() == 0 {
        Seq::empty()
    } else {
        placed_lines(lines.drop_last(), place) + lines.last()@ + " "@ + place.words() + "\n"@
    }
}

/// Whether the help names the orders to the sender: to the maintainer, to
/// those who run a chat that many can read, and to everyone in a chat in
/// which people talk.
pub open spec fn shows_orders(sender: Sender) -> bool {
    sender.is_maintainer || (sender.is_admin && sender.chat.public()) || sender.chat.talk()
}

/// The help for the sender: the commands of everyone, then the orders if
/// the sender may give them, then the commands of the maintainer for the
/// maintainer.
pub open spec fn help_text(descriptions: Descriptions, sender: Sender) -> Seq<char> {
    descriptions.base@ + (if shows_orders(sender) {
        "\n"@ + placed_lines(descriptions.admin@, place_of(sender.chat))
    } else {
        Seq::empty()
    }) + (if sender.is_maintainer {
        "\n"@ + descriptions.maintainer@
    } else {
        Seq::empty()
    })
}

/// Writes the help for the sender.
fn handle_help_command(descriptions: &Descriptions, sender: &Sender) -> (text: String)
    ensures
        text@ == help_text(*descriptions, *sender),
{
    let mut text = descriptions.base.clone();
    if sender.is_maintainer || (sender.is_admin && sender.chat.is_public())
        || sender.chat.is_chat() {
        let place = get_place(sender.chat).to_string();
        text.append("\n");
        let ghost before = text@;
        let mut i: usize = 0;
        while i < descriptions.admin.len()
            invariant
                i <= descriptions.admin.len(),
                place@ == place_of(sender.chat).words(),
                text@ == before + placed_lines(
                    descriptions.admin@.take(i as int),
                    place_of(sender.chat),
                ),
            decreases descriptions.admin.len() - i,
        {
            assert(descriptions.admin@.take(i as int + 1).drop_last() =~= descriptions.admin@.take(
                i as int,
            ));
            text.append(descriptions.admin[i].as_str());
            text.append(" ");
            text.append(place.as_str());
            text.append("\n");
            i += 1;
        }
        assert(descriptions.admin@.take(i as int) =~= descriptions.admin@);
    }
    if sender.is_maintainer {
        text.append("\n");
        text.append(descriptions.maintainer.as_str());
    }
    text
}

/// What a command of everyone is answered with.
pub open spec fn base_answers(cmd: Command, sender: Sender, descriptions: Descriptions) -> Seq<
    AnswerView,
> {
    match cmd {
        Command::Start => seq![AnswerView::Text(GREETINGS_MSG@)],
        Command::Help => seq![AnswerView::Text(help_text(descriptions, sender))],
        Command::CheckControl => seq![AnswerView::Text(control_text(sender))],
        Command::File => seq![AnswerView::SampleFile],
    }
}

/// Answers a command of everyone: the greeting, the help, whether the
/// sender may give orders, or the file that serves as an example.
pub fn base_commands_handler(cmd: Command, sender: &Sender, descriptions: &Descriptions) -> (answers:
    Vec<Answer>)
    ensures
        answer_views(answers@) == base_answers(cmd, *sender, *descriptions),
{
    let mut answers: Vec<Answer> = Vec::new();
    match cmd {
        Command::Start => {
            answers.push(Answer::Text(String::from_str(GREETINGS_MSG)));
        },
        Command::Help => {
            answers.push(Answer::Text(handle_help_command(descriptions, sender)));
        },
        Command::CheckControl => {
            answers.push(Answer::Text(handle_check_control_command(sender)));
        },
        Command::File => {
            answers.push(Answer::SampleFile);
        },
    }
    answers
}

} // verus!

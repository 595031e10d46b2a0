//! Who may give orders where, and how a birthday and the number of a
//! birthday are read from a message.

use vstd::prelude::*;
use vstd::string::StringExecFns;

use crate::birthday::{Birthday, BirthdayView};
use crate::text::{number_of, parse_number};

verus! {

/// The user who maintains the service.
pub const MAINTAINER_USER_ID: u64 = 437_067_064;

/// How a birthday is written in a message: two words for the name, the
/// date as `DD-MM`, and after it, if wanted, the handle with or without `@`.
pub const BIRTHDAY_PATTERN: &'static str =
    r"^(?P<name>\w+\s\w+), (?P<date>\d{2}-\d{2})(, @?(?P<username>\w+))?$";

/// The kinds of chat that the platform knows.
#[derive(Clone, Copy, PartialEq, Eq, Structural, Debug)]
pub enum ChatKind {
    Private,
    Group,
    Supergroup,
    Channel,
}

impl ChatKind {
    /// Whether the chat is one that many can read: a group of either kind
    /// or a channel.
    pub open spec fn public(self) -> bool {
        self is Group || self is Supergroup || self is Channel
    }

    /// Whether the chat is one in which people talk: a private chat or a
    /// group of either kind.
    pub open spec fn talk(self) -> bool {
        self is Private || self is Group || self is Supergroup
    }

    /// Whether the chat is one that many can read.
    pub fn is_public(&self) -> (yes: bool)
        ensures
            yes == self.public(),
    {
        match self {
            ChatKind::Private => false,
            _ => true,
        }
    }

    /// Whether the chat is one in which people talk.
    pub fn is_chat(&self) -> (yes: bool)
        ensures
            yes == self.talk(),
    {
        match self {
            ChatKind::Channel => false,
            _ => true,
        }
    }
}

/// Where the service is talked to, as the answers name it.
#[derive(Clone, Copy, PartialEq, Eq, Structural, Debug)]
pub enum Place {
    Group,
    Channel,
    Chat,
}

impl Place {
    /// The words that name the place in an answer.
    pub open spec fn words(self) -> Seq<char> {
        match self {
            Place::Group => "в группе"@,
            Place::Channel => "в канале"@,
            Place::Chat => "в чате"@,
        }
    }

    /// The words that name the place in an answer.
    pub fn to_string(&self) -> (text: String)
        ensures
            text@ == self.words(),
    {
        match self {
            Place::Group => String::from_str("в группе"),
            Place::Channel => String::from_str("в канале"),
            Place::Chat => String::from_str("в чате"),
        }
    }
}

/// Whether the user is the maintainer of the service.
pub fn is_maintainer(user_id: u64) -> (yes: bool)
    ensures
        yes == (user_id == MAINTAINER_USER_ID),
{
    user_id == MAINTAINER_USER_ID
}

/// Whether the platform must be asked if the sender is among those who
/// run the chat, before [`may_give_orders`] can be answered: only for one
/// who is not the maintainer, in a chat that many can read.
pub fn needs_admin_lookup(is_maintainer: bool, chat: ChatKind) -> (yes: bool)
    ensures
        yes == (!is_maintainer && chat.public()),
{
    !is_maintainer && chat.is_public()
}

/// Whether the sender may give the chat orders: the maintainer may, those
/// who run a chat that many can read may, and in a chat in which people
/// talk everyone may.
pub fn may_give_orders(is_maintainer: bool, chat: ChatKind, is_admin: bool) -> (yes: bool)
    ensures
        yes == (is_maintainer || (chat.public() && is_admin) || chat.talk()),
        yes == (is_maintainer || is_admin || !(chat is Channel)),
{
    is_maintainer || (chat.is_public() && is_admin) || chat.is_chat()
}

/// The place that a chat of the given kind is: groups of both kinds are
/// groups, a channel is a channel, and all else is a chat.
pub open spec fn place_of(chat: ChatKind) -> Place {
    match chat {
        ChatKind::Group | ChatKind::Supergroup => Place::Group,
        ChatKind::Channel => Place::Channel,
        ChatKind::Private => Place::Chat,
    }
}

/// The place that a chat of the given kind is.
pub fn get_place(chat: ChatKind) -> (place: Place)
    ensures
        place == place_of(chat),
{
    match chat {
        ChatKind::Group | ChatKind::Supergroup => Place::Group,
        ChatKind::Channel => Place::Channel,
        ChatKind::Private => Place::Chat,
    }
}

/// What the regular expression `pattern` captures in `text`: nothing where
/// the pattern is no regular expression or matches nowhere in the text;
/// else, for its first match, what each group holds, the whole match as
/// group 0 and then the groups in the order of their opening brackets, with
/// nothing for a group that took no part.
pub uninterp spec fn regex_captures(pattern: Seq<char>, text: Seq<char>) -> Option<
    Seq<Option<Seq<char>>>,
>;

/// The values of captured groups.
pub open spec fn groups_view(groups: Option<Vec<Option<String>>>) -> Option<
    Seq<Option<Seq<char>>>,
> {
    match groups {
        Some(groups) => Some(
            Seq::new(
                groups@.len(),
                |i: int|
                    match groups@[i] {
                        Some(group) => Some(group@),
                        None => None,
                    },
            ),
        ),
        None => None,
    }
}

/// Matches `text` against `pattern`: `regex::Regex::new` compiles the
/// pattern, `Regex::captures` finds the first match, and `Captures::iter`
/// hands out its groups, each copied by `Match::as_str`. The contract names
/// the outcome and claims only that it depends on the two strings alone.
#[verifier::external_body]
fn captures(pattern: &str, text: &str) -> (groups: Option<Vec<Option<String>>>)
    ensures
        groups_view(groups) == regex_captures(pattern@, text@),
{
    let regex = regex::Regex::new(pattern).ok()?;
    let found = regex.captures(text)?;
    Some(found.iter().map(|group| group.map(|part| part.as_str().to_string())).collect())
}

/// The birthday that the groups of [`BIRTHDAY_PATTERN`] spell: group 1 is
/// the name, group 2 the date and group 4 the handle, which may be missing.
/// There is none without a match of five groups with a name and a date.
pub open spec fn birthday_of_groups(groups: Option<Seq<Option<Seq<char>>>>) -> Option<
    BirthdayView,
> {
    match groups {
        Some(groups) => if groups.len() == 5 && groups[1] is Some && groups[2] is Some {
            Some(
                BirthdayView {
                    name: groups[1]->0,
                    date: groups[2]->0,
                    username: match groups[4] {
                        Some(handle) => handle,
                        None => Seq::empty(),
                    },
                },
            )
        } else {
            None
        },
        None => None,
    }
}

/// The value of a birthday that may be missing.
pub open spec fn birthday_view(birthday: Option<Birthday>) -> Option<BirthdayView> {
    match birthday {
        Some(birthday) => Some(birthday@),
        None => None,
    }
}

/// Makes the birthday that the groups of [`BIRTHDAY_PATTERN`] spell.
pub fn birthday_from_groups(groups: &Option<Vec<Option<String>>>) -> (birthday: Option<Birthday>)
    ensures
        birthday_view(birthday) == birthday_of_groups(groups_view(*groups)),
{
    match groups {
        Some(groups) => {
            if groups.len() != 5 {
                return None;
            }
            match (&groups[1], &groups[2]) {
                (Some(name), Some(date)) => {
                    let username = match &groups[4] {
                        Some(handle) => handle.clone(),
                        None => String::new(),
                    };
                    Some(Birthday { name: name.clone(), date: date.clone(), username })
                },
                _ => None,
            }
        },
        None => None,
    }
}

/// Reads a birthday from a message written as `Name Surname, DD-MM` or
/// `Name Surname, DD-MM, @handle`. There is none where the message is not
/// written so.
pub fn parse_birthday_info(input: &str) -> (birthday: Option<Birthday>)
    ensures
        birthday_view(birthday) == birthday_of_groups(regex_captures(BIRTHDAY_PATTERN@, input@)),
{
    let groups = captures(BIRTHDAY_PATTERN, input);
    birthday_from_groups(&groups)
}

/// The number of a birthday that a message names: the number that the
/// message writes in decimal, if it writes one that a list can have.
pub open spec fn index_of(input: Seq<char>) -> Option<usize> {
    match number_of(input) {
        Some(value) => if value <= usize::MAX {
            Some(value as usize)
        } else {
            None
        },
        None => None,
    }
}

/// Reads the number of a birthday from a message. There is none where the
/// message is anything but a number written in digits.
pub fn parse_birthday_index(input: &str) -> (index: Option<usize>)
    ensures
        index == index_of(input@),
{
    parse_number(input)
}

} // verus!

use birthday_reminder::text::parse_number;
use birthday_reminder::utils::{
    birthday_from_groups, get_place, is_maintainer, may_give_orders, needs_admin_lookup,
    parse_birthday_index, parse_birthday_info, ChatKind, Place, BIRTHDAY_PATTERN,
    MAINTAINER_USER_ID,
};
use birthday_reminder::Birthday;

fn parsed(name: &str, date: &str, username: &str) -> Option<Birthday> {
    Some(Birthday {
        name: name.to_string(),
        date: date.to_string(),
        username: username.to_string(),
    })
}

fn group(text: &str) -> Option<String> {
    Some(text.to_string())
}

#[test]
fn pattern_is_the_documented_one() {
    assert_eq!(
        BIRTHDAY_PATTERN,
        "^(?P<name>\\w+\\s\\w+), (?P<date>\\d{2}-\\d{2})(, @?(?P<username>\\w+))?$"
    );
}

#[test]
fn parses_name_date_and_handle() {
    assert_eq!(parse_birthday_info("Иван Иванов, 01-01, @ivan"), parsed("Иван Иванов", "01-01", "ivan"));
    assert_eq!(parse_birthday_info("Ada Lovelace, 10-12, @ada_l"), parsed("Ada Lovelace", "10-12", "ada_l"));
}

#[test]
fn parses_handle_without_at_sign() {
    assert_eq!(parse_birthday_info("Иван Иванов, 01-01, ivan"), parsed("Иван Иванов", "01-01", "ivan"));
}

#[test]
fn parses_without_handle() {
    assert_eq!(parse_birthday_info("Иван Иванов, 01-01"), parsed("Иван Иванов", "01-01", ""));
}

#[test]
fn date_is_any_two_digits_twice() {
    assert_eq!(parse_birthday_info("Ada Lovelace, 99-99"), parsed("Ada Lovelace", "99-99", ""));
}

#[test]
fn rejects_what_is_not_written_as_asked() {
    for input in [
        "",
        "Иван, 01-01",
        "Иван Иванов Петров, 01-01",
        "Иван Иванов,01-01",
        "Иван Иванов, 1-01",
        "Иван Иванов, 01-1",
        "Иван Иванов, 01.01",
        "Иван Иванов, 01-01,",
        "Иван Иванов, 01-01, @",
        "Иван Иванов, 01-01, @@ivan",
        "Иван Иванов, 01-01, @ivan ",
        " Иван Иванов, 01-01",
        "Иван Иванов, 01-01, @ivan, more",
        "Иван Иванов, 01-01\nИван Иванов, 01-01",
    ] {
        assert_eq!(parse_birthday_info(input), None, "{:?}", input);
    }
}

#[test]
fn groups_spell_a_birthday() {
    let groups = Some(vec![group("A B, 01-02, @ab"), group("A B"), group("01-02"), group(", @ab"), group("ab")]);
    assert_eq!(birthday_from_groups(&groups), parsed("A B", "01-02", "ab"));
    let no_handle = Some(vec![group("A B, 01-02"), group("A B"), group("01-02"), None, None]);
    assert_eq!(birthday_from_groups(&no_handle), parsed("A B", "01-02", ""));
}

#[test]
fn groups_that_spell_none() {
    assert_eq!(birthday_from_groups(&None), None);
    assert_eq!(birthday_from_groups(&Some(vec![])), None);
    let four = Some(vec![group("x"), group("A B"), group("01-02"), None]);
    assert_eq!(birthday_from_groups(&four), None);
    let six = Some(vec![group("x"), group("A B"), group("01-02"), None, None, None]);
    assert_eq!(birthday_from_groups(&six), None);
    let no_name = Some(vec![group("x"), None, group("01-02"), None, None]);
    assert_eq!(birthday_from_groups(&no_name), None);
    let no_date = Some(vec![group("x"), group("A B"), None, None, None]);
    assert_eq!(birthday_from_groups(&no_date), None);
}

#[test]
fn index_is_a_plain_decimal_number() {
    assert_eq!(parse_birthday_index("0"), Some(0));
    assert_eq!(parse_birthday_index("7"), Some(7));
    assert_eq!(parse_birthday_index("12"), Some(12));
    assert_eq!(parse_birthday_index("007"), Some(7));
    assert_eq!(parse_birthday_index("4096"), Some(4096));
    assert_eq!(parse_birthday_index(&usize::MAX.to_string()), Some(usize::MAX));
}

#[test]
fn index_rejects_everything_else() {
    for input in ["", " ", "-1", "+1", "1 ", " 1", "1.0", "one", "1a", "a1", "١٢", "1\n"] {
        assert_eq!(parse_birthday_index(input), None, "{:?}", input);
    }
    let too_large = format!("{}0", usize::MAX);
    assert_eq!(parse_birthday_index(&too_large), None);
    let one_more = format!("{}", usize::MAX as u128 + 1);
    assert_eq!(parse_birthday_index(&one_more), None);
    assert_eq!(parse_birthday_index("99999999999999999999999999999999999x"), None);
}

#[test]
fn numbers_written_by_the_list_parse_back() {
    for n in [0usize, 1, 9, 10, 99, 100, 12_345, usize::MAX] {
        let written = birthday_reminder::text::decimal_string(n as u64);
        assert_eq!(parse_number(&written), Some(n));
    }
}

#[test]
fn place_words() {
    assert_eq!(Place::Group.to_string(), "в группе");
    assert_eq!(Place::Channel.to_string(), "в канале");
    assert_eq!(Place::Chat.to_string(), "в чате");
}

#[test]
fn place_by_kind_of_chat() {
    assert_eq!(get_place(ChatKind::Group), Place::Group);
    assert_eq!(get_place(ChatKind::Supergroup), Place::Group);
    assert_eq!(get_place(ChatKind::Channel), Place::Channel);
    assert_eq!(get_place(ChatKind::Private), Place::Chat);
}

#[test]
fn kinds_of_chat() {
    assert!(!ChatKind::Private.is_public());
    assert!(ChatKind::Group.is_public());
    assert!(ChatKind::Supergroup.is_public());
    assert!(ChatKind::Channel.is_public());
    assert!(ChatKind::Private.is_chat());
    assert!(ChatKind::Group.is_chat());
    assert!(ChatKind::Supergroup.is_chat());
    assert!(!ChatKind::Channel.is_chat());
}

#[test]
fn maintainer_is_the_one_user() {
    assert_eq!(MAINTAINER_USER_ID, 437067064);
    assert!(is_maintainer(437067064));
    assert!(!is_maintainer(437067065));
    assert!(!is_maintainer(0));
}

#[test]
fn orders_in_channels_need_standing() {
    assert!(!may_give_orders(false, ChatKind::Channel, false));
    assert!(may_give_orders(false, ChatKind::Channel, true));
    assert!(may_give_orders(true, ChatKind::Channel, false));
    for kind in [ChatKind::Private, ChatKind::Group, ChatKind::Supergroup] {
        for maintainer in [false, true] {
            for admin in [false, true] {
                assert!(may_give_orders(maintainer, kind, admin));
            }
        }
    }
}

#[test]
fn admin_lookup_only_for_others_in_public_chats() {
    assert!(!needs_admin_lookup(true, ChatKind::Group));
    assert!(!needs_admin_lookup(true, ChatKind::Private));
    assert!(!needs_admin_lookup(false, ChatKind::Private));
    assert!(needs_admin_lookup(false, ChatKind::Group));
    assert!(needs_admin_lookup(false, ChatKind::Supergroup));
    assert!(needs_admin_lookup(false, ChatKind::Channel));
}

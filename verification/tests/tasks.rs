use birthday_reminder::tasks::{
    birthday_reminders, date_at, day_month_text, reminder_text, reminders_due, Delay, Job, Moment,
    Schedule, Step, HEALTH_CHECK_TEXT, MAINTAINER_CHAT, NANOS_PER_SECOND, SECONDS_PER_DAY,
};
use birthday_reminder::{Birthday, Birthdays, BirthdaysMap, ChatId, State};

const MARCH_15_2024_0600: i64 = 1_710_482_400;
const MARCH_15_2023_LAST_SECOND: i64 = 1_678_924_799;
const MARCH_16_2024_MIDNIGHT: i64 = 1_710_547_200;

fn person(name: &str, date: &str, username: &str) -> Birthday {
    Birthday { name: name.to_string(), date: date.to_string(), username: username.to_string() }
}

fn sample_map() -> BirthdaysMap {
    let mut map = BirthdaysMap::default();
    map.insert(
        ChatId(10),
        State::Active,
        Birthdays::new(vec![
            person("Ada Lovelace", "15-03", "ada"),
            person("Alan Turing", "23-06", "alan"),
            person("Grace Hopper", "15-03", ""),
        ]),
    )
    .unwrap();
    map.insert(
        ChatId(20),
        State::Disabled,
        Birthdays::new(vec![person("Edsger Dijkstra", "15-03", "ewd")]),
    )
    .unwrap();
    map.insert(
        ChatId(30),
        State::Active,
        Birthdays::new(vec![person("Barbara Liskov", "15-03", "")]),
    )
    .unwrap();
    map.insert(
        ChatId(40),
        State::WaitingBirthday,
        Birthdays::new(vec![person("Donald Knuth", "15-03", "")]),
    )
    .unwrap();
    map
}

fn sorted(mut reminders: Vec<(ChatId, String)>) -> Vec<(i64, String)> {
    reminders.sort_by_key(|r| r.0 .0);
    reminders.into_iter().map(|(chat, text)| (chat.0, text)).collect()
}

fn delay(now_secs: i64, now_nanos: u32, job: Job) -> (u64, u32) {
    let d = job.delay_until_next_run(Moment::new(now_secs, now_nanos));
    (d.secs, d.nanos)
}

#[test]
fn time_constants() {
    assert_eq!(SECONDS_PER_DAY, 86_400);
    assert_eq!(NANOS_PER_SECOND, 1_000_000_000);
    assert_eq!(HEALTH_CHECK_TEXT, "I'm alive!");
    assert_eq!(MAINTAINER_CHAT, 437067064);
}

#[test]
fn jobs_run_at_their_times() {
    assert_eq!((Job::BirthdayReminder.hour(), Job::BirthdayReminder.minute()), (7, 0));
    assert_eq!((Job::HealthCheck.hour(), Job::HealthCheck.minute()), (7, 10));
    assert_eq!((Job::DailyBackup.hour(), Job::DailyBackup.minute()), (12, 0));
}

#[test]
fn moment_keeps_its_parts_and_clamps_leap_nanos() {
    let m = Moment::new(-5, 17);
    assert_eq!((m.secs(), m.nanos()), (-5, 17));
    let leap = Moment::new(59, 1_500_000_000);
    assert_eq!((leap.secs(), leap.nanos()), (59, 999_999_999));
    let edge = Moment::new(0, 999_999_999);
    assert_eq!(edge.nanos(), 999_999_999);
}

#[test]
fn delay_reaches_tomorrow_even_before_todays_time() {
    // 06:00 on the 15th: the next run is 07:00 on the 16th, 25 hours on.
    assert_eq!(delay(MARCH_15_2024_0600, 0, Job::BirthdayReminder), (25 * 3600, 0));
    assert_eq!(delay(MARCH_15_2024_0600, 0, Job::HealthCheck), (25 * 3600 + 600, 0));
    assert_eq!(delay(MARCH_15_2024_0600, 0, Job::DailyBackup), (30 * 3600, 0));
}

#[test]
fn delay_from_the_run_time_itself_is_a_day() {
    assert_eq!(delay(1_710_486_000, 0, Job::BirthdayReminder), (86_400, 0));
    assert_eq!(delay(1_710_486_600, 0, Job::HealthCheck), (86_400, 0));
    assert_eq!(delay(1_710_504_001, 0, Job::DailyBackup), (86_399, 0));
}

#[test]
fn delay_counts_nanoseconds() {
    assert_eq!(delay(MARCH_15_2024_0600, 1, Job::BirthdayReminder), (25 * 3600 - 1, 999_999_999));
    assert_eq!(
        delay(MARCH_15_2024_0600, 250_000_000, Job::BirthdayReminder),
        (25 * 3600 - 1, 750_000_000)
    );
    assert_eq!(delay(MARCH_15_2024_0600, 999_999_999, Job::BirthdayReminder), (25 * 3600 - 1, 1));
}

#[test]
fn delay_at_the_edges_of_a_day() {
    // Midnight: a whole day and seven hours. One second before: seven hours and a second.
    assert_eq!(delay(MARCH_16_2024_MIDNIGHT, 0, Job::BirthdayReminder), (86_400 + 7 * 3600, 0));
    assert_eq!(delay(MARCH_16_2024_MIDNIGHT - 1, 0, Job::BirthdayReminder), (7 * 3600 + 1, 0));
    assert_eq!(delay(0, 0, Job::DailyBackup), (86_400 + 12 * 3600, 0));
}

#[test]
fn delay_before_1970() {
    // 23:00 on the last day of 1969: 07:00 comes eight hours later.
    assert_eq!(delay(-3600, 0, Job::BirthdayReminder), (8 * 3600, 0));
    assert_eq!(delay(-1, 500_000_000, Job::BirthdayReminder), (7 * 3600, 500_000_000));
    assert_eq!(delay(i64::MIN, 0, Job::BirthdayReminder).1, 0);
    assert!(delay(i64::MAX, 0, Job::BirthdayReminder).0 <= 86_400 + 7 * 3600);
}

#[test]
fn delay_is_equal_to_itself_as_a_value() {
    let a = Job::DailyBackup.delay_until_next_run(Moment::new(0, 0));
    assert_eq!(a, Delay { secs: 129_600, nanos: 0 });
}

#[test]
fn day_month_text_pads_with_zeros() {
    assert_eq!(day_month_text(15, 3), "15-03");
    assert_eq!(day_month_text(1, 1), "01-01");
    assert_eq!(day_month_text(31, 12), "31-12");
    assert_eq!(day_month_text(9, 10), "09-10");
}

#[test]
fn date_at_reads_the_utc_calendar() {
    assert_eq!(date_at(Moment::new(MARCH_15_2024_0600, 0)), Some("15-03".to_string()));
    assert_eq!(date_at(Moment::new(MARCH_15_2023_LAST_SECOND, 5)), Some("15-03".to_string()));
    assert_eq!(date_at(Moment::new(MARCH_16_2024_MIDNIGHT, 0)), Some("16-03".to_string()));
    assert_eq!(date_at(Moment::new(1_709_208_000, 0)), Some("29-02".to_string()));
    assert_eq!(date_at(Moment::new(0, 0)), Some("01-01".to_string()));
    assert_eq!(date_at(Moment::new(-3600, 0)), Some("31-12".to_string()));
    assert_eq!(date_at(Moment::new(1_735_689_599, 0)), Some("31-12".to_string()));
    assert_eq!(date_at(Moment::new(1_735_689_600, 0)), Some("01-01".to_string()));
}

#[test]
fn date_at_beyond_the_calendar_is_none() {
    assert_eq!(date_at(Moment::new(i64::MAX, 0)), None);
    assert_eq!(date_at(Moment::new(i64::MIN, 0)), None);
}

#[test]
fn reminder_text_with_and_without_handle() {
    assert_eq!(
        reminder_text(&person("Ada Lovelace", "15-03", "ada")),
        "Поздравьте сегодня замечательного человека с днем рождения Ada Lovelace (ada)!🎉"
    );
    assert_eq!(
        reminder_text(&person("Grace Hopper", "15-03", "")),
        "Поздравьте сегодня замечательного человека с днем рождения Grace Hopper !🎉"
    );
}

#[test]
fn reminders_pick_active_chats_and_matching_dates() {
    let found = sorted(birthday_reminders(&sample_map(), "15-03"));
    assert_eq!(
        found,
        vec![
            (
                10,
                "Поздравьте сегодня замечательного человека с днем рождения Ada Lovelace (ada)!🎉"
                    .to_string()
            ),
            (
                10,
                "Поздравьте сегодня замечательного человека с днем рождения Grace Hopper !🎉"
                    .to_string()
            ),
            (
                30,
                "Поздравьте сегодня замечательного человека с днем рождения Barbara Liskov !🎉"
                    .to_string()
            ),
        ]
    );
}

#[test]
fn reminders_of_one_chat_keep_list_order() {
    let found = birthday_reminders(&sample_map(), "15-03");
    let of_ten: Vec<&String> = found.iter().filter(|r| r.0 == ChatId(10)).map(|r| &r.1).collect();
    assert_eq!(of_ten.len(), 2);
    assert!(of_ten[0].contains("Ada Lovelace"));
    assert!(of_ten[1].contains("Grace Hopper"));
}

#[test]
fn reminders_on_other_days() {
    let found = sorted(birthday_reminders(&sample_map(), "23-06"));
    assert_eq!(found.len(), 1);
    assert_eq!(found[0].0, 10);
    assert!(found[0].1.contains("Alan Turing (alan)"));
    assert!(birthday_reminders(&sample_map(), "16-03").is_empty());
    assert!(birthday_reminders(&sample_map(), "15-3").is_empty());
    assert!(birthday_reminders(&BirthdaysMap::default(), "15-03").is_empty());
}

#[test]
fn entry_is_due_on_its_day_in_any_year() {
    let mut map = BirthdaysMap::default();
    map.insert(ChatId(1), State::Active, Birthdays::new(vec![person("A B", "15-03", "")])).unwrap();
    assert_eq!(reminders_due(&map, Moment::new(MARCH_15_2024_0600, 0)).len(), 1);
    assert_eq!(reminders_due(&map, Moment::new(MARCH_15_2023_LAST_SECOND, 0)).len(), 1);
    assert_eq!(reminders_due(&map, Moment::new(MARCH_15_2023_LAST_SECOND + 1, 0)).len(), 0);
    assert_eq!(reminders_due(&map, Moment::new(MARCH_16_2024_MIDNIGHT, 0)).len(), 0);
    assert_eq!(reminders_due(&map, Moment::new(MARCH_16_2024_MIDNIGHT - 1, 0)).len(), 1);
    assert_eq!(reminders_due(&map, Moment::new(i64::MAX, 0)).len(), 0);
}

#[test]
fn schedule_starts_with_a_sleep() {
    let schedule = Schedule::new(Job::DailyBackup);
    assert_eq!(schedule.job(), Job::DailyBackup);
    match schedule.rest(Moment::new(MARCH_15_2024_0600, 0)) {
        Step::Sleep(delay) => assert_eq!(delay, Delay { secs: 30 * 3600, nanos: 0 }),
        other => panic!("unexpected step {:?}", other),
    }
}

#[test]
fn health_check_sends_then_sleeps() {
    let mut schedule = Schedule::new(Job::HealthCheck);
    let map = sample_map();
    let now = Moment::new(1_710_486_600, 0);
    match schedule.wake(&map, now) {
        Step::Send { chat, text } => {
            assert_eq!(chat, ChatId(437067064));
            assert_eq!(text, "I'm alive!");
        }
        other => panic!("unexpected step {:?}", other),
    }
    match schedule.done(true, now) {
        Step::Sleep(delay) => assert_eq!(delay, Delay { secs: 86_400, nanos: 0 }),
        other => panic!("unexpected step {:?}", other),
    }
    schedule.wake(&map, now);
    match schedule.done(false, Moment::new(1_710_486_601, 0)) {
        Step::Sleep(delay) => assert_eq!(delay, Delay { secs: 86_399, nanos: 0 }),
        other => panic!("unexpected step {:?}", other),
    }
}

#[test]
fn backup_saves_then_sleeps() {
    let mut schedule = Schedule::new(Job::DailyBackup);
    let now = Moment::new(1_710_504_001, 0);
    assert!(matches!(schedule.wake(&sample_map(), now), Step::Save));
    match schedule.done(false, now) {
        Step::Sleep(delay) => assert_eq!(delay, Delay { secs: 86_399, nanos: 0 }),
        other => panic!("unexpected step {:?}", other),
    }
}

#[test]
fn reminder_job_sends_each_reminder_in_turn() {
    let mut schedule = Schedule::new(Job::BirthdayReminder);
    let now = Moment::new(1_710_486_000, 0);
    let mut sent = Vec::new();
    let mut step = schedule.wake(&sample_map(), now);
    loop {
        match step {
            Step::Send { chat, text } => {
                sent.push((chat, text));
                step = schedule.done(true, now);
            }
            Step::Sleep(delay) => {
                assert_eq!(delay, Delay { secs: 86_400, nanos: 0 });
                break;
            }
            Step::Save => panic!("a reminder job saves nothing"),
        }
    }
    assert_eq!(sorted(sent), sorted(birthday_reminders(&sample_map(), "15-03")));
}

#[test]
fn reminder_job_drops_the_rest_after_a_failure() {
    let mut schedule = Schedule::new(Job::BirthdayReminder);
    let now = Moment::new(1_710_486_000, 0);
    assert!(matches!(schedule.wake(&sample_map(), now), Step::Send { .. }));
    assert!(matches!(schedule.done(false, now), Step::Sleep(_)));
    assert!(matches!(schedule.done(true, now), Step::Sleep(_)));
}

#[test]
fn reminder_job_without_reminders_sleeps_at_once() {
    let mut schedule = Schedule::new(Job::BirthdayReminder);
    let now = Moment::new(MARCH_16_2024_MIDNIGHT, 0);
    match schedule.wake(&sample_map(), now) {
        Step::Sleep(delay) => assert_eq!(delay, Delay { secs: 86_400 + 7 * 3600, nanos: 0 }),
        other => panic!("unexpected step {:?}", other),
    }
}

#[test]
fn waking_again_forgets_what_was_left() {
    let mut schedule = Schedule::new(Job::BirthdayReminder);
    assert!(matches!(
        schedule.wake(&sample_map(), Moment::new(1_710_486_000, 0)),
        Step::Send { .. }
    ));
    assert!(matches!(
        schedule.wake(&sample_map(), Moment::new(MARCH_16_2024_MIDNIGHT, 0)),
        Step::Sleep(_)
    ));
    assert!(matches!(schedule.done(true, Moment::new(MARCH_16_2024_MIDNIGHT, 0)), Step::Sleep(_)));
}

/// The delay as calendar arithmetic gives it: a day on from `now`, the date
/// of that moment at `hour:minute`, less `now`.
fn calendar_delay(secs: i64, nanos: u32, hour: u32, minute: u32) -> std::time::Duration {
    let now = chrono::DateTime::from_timestamp(secs, nanos).unwrap().naive_utc();
    let next_run = (now + chrono::Duration::seconds(86_400))
        .date()
        .and_hms_opt(hour, minute, 0)
        .unwrap_or_default();
    (next_run - now).to_std().unwrap_or_default()
}

#[test]
fn delay_agrees_with_calendar_arithmetic() {
    let mut secs: i64 = -200_000;
    while secs < 4_000_000_000 {
        for nanos in [0u32, 1, 499_999_999, 999_999_999] {
            for job in [Job::BirthdayReminder, Job::HealthCheck, Job::DailyBackup] {
                let ours = job.delay_until_next_run(Moment::new(secs, nanos));
                assert_eq!(
                    std::time::Duration::new(ours.secs, ours.nanos),
                    calendar_delay(secs, nanos, job.hour(), job.minute()),
                    "at {}.{:09} for {:?}",
                    secs,
                    nanos,
                    job
                );
            }
        }
        secs += 7_654_321;
    }
    for secs in [86_399i64, 86_400, 86_401, -86_400, -86_401, -1, 0, 1, 25_200, 25_199, 43_200] {
        let ours = Job::BirthdayReminder.delay_until_next_run(Moment::new(secs, 0));
        assert_eq!(
            std::time::Duration::new(ours.secs, ours.nanos),
            calendar_delay(secs, 0, 7, 0)
        );
    }
}

#[test]
fn date_agrees_with_calendar_formatting() {
    let mut secs: i64 = -100_000_000;
    while secs < 4_000_000_000 {
        let expected =
            chrono::DateTime::from_timestamp(secs, 0).unwrap().format("%d-%m").to_string();
        assert_eq!(date_at(Moment::new(secs, 0)), Some(expected));
        secs += 1_234_567;
    }
}

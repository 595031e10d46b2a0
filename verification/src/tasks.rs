//! The daily jobs: when each runs next, which reminders a day asks for,
//! and the steps of a job between sleeping, sending and saving.

use chrono::Datelike;
use vstd::prelude::*;
use vstd::string::StringExecFns;

use crate::birthday::{Birthday, BirthdayView, Birthdays};
use crate::birthdays_map::{
    chats_of, is_walk_of, lemma_walk_exists, BirthdaysMap, ChatId, RecordView,
};
use crate::state::State;
use crate::text::{lemma_two_digits_differ, two_digit_string, two_digits};
use crate::utils::MAINTAINER_USER_ID;

verus! {

/// How a reminder begins, before the name.
pub const REMINDER_OPENING: &'static str =
    "Поздравьте сегодня замечательного человека с днем рождения ";

/// How a reminder ends.
pub const REMINDER_CLOSING: &'static str = "!🎉";

/// What the health check tells the maintainer.
pub const HEALTH_CHECK_TEXT: &'static str = "I'm alive!";

/// The chat of the maintainer, which the health check writes to.
pub const MAINTAINER_CHAT: i64 = 437_067_064;

/// The health check writes to the maintainer of the service.
pub proof fn lemma_maintainer_chat()
    ensures
        MAINTAINER_CHAT == MAINTAINER_USER_ID,
{
}

/// The seconds of a day.
pub const SECONDS_PER_DAY: i64 = 86_400;

/// The nanoseconds of a second.
pub const NANOS_PER_SECOND: u32 = 1_000_000_000;

/// A point in time: the whole seconds since the start of 1970 in UTC, and
/// the nanoseconds into the second that runs.
#[derive(Clone, Copy, Debug)]
pub struct Moment {
    secs: i64,
    nanos: u32,
}

impl Moment {
    #[verifier::type_invariant]
    spec fn well_formed(self) -> bool {
        self.nanos < NANOS_PER_SECOND
    }

    /// The whole seconds since the start of 1970.
    pub closed spec fn seconds(self) -> i64 {
        self.secs
    }

    /// The nanoseconds into the second that runs, below a thousand million.
    pub closed spec fn subsec_nanos(self) -> u32 {
        self.nanos
    }

    /// The moment `nanos` nanoseconds into the second `secs`. A count of a
    /// thousand million or more, as some clocks give during a leap second,
    /// is read as the last nanosecond of that second.
    pub fn new(secs: i64, nanos: u32) -> (moment: Self)
        ensures
            moment.seconds() == secs,
            moment.subsec_nanos() == if nanos < NANOS_PER_SECOND {
                nanos
            } else {
                (NANOS_PER_SECOND - 1) as u32
            },
    {
        if nanos < NANOS_PER_SECOND {
            Moment { secs, nanos }
        } else {
            Moment { secs, nanos: NANOS_PER_SECOND - 1 }
        }
    }

    /// The whole seconds since the start of 1970.
    pub fn secs(&self) -> (secs: i64)
        ensures
            secs == self.seconds(),
    {
        self.secs
    }

    /// The nanoseconds into the second that runs.
    pub fn nanos(&self) -> (nanos: u32)
        ensures
            nanos == self.subsec_nanos(),
            nanos < NANOS_PER_SECOND,
    {
        proof {
            use_type_invariant(self);
        }
        self.nanos
    }
}

/// A span of time to sleep for: whole seconds and, below a thousand
/// million, nanoseconds.
#[derive(Clone, Copy, PartialEq, Eq, Structural, Debug)]
pub struct Delay {
    pub secs: u64,
    pub nanos: u32,
}

impl Delay {
    /// The span in nanoseconds.
    pub open spec fn total_nanos(self) -> int {
        self.secs * NANOS_PER_SECOND + self.nanos
    }
}

/// The jobs that run once a day.
#[derive(Clone, Copy, PartialEq, Eq, Structural, Debug)]
pub enum Job {
    /// Reminds the active chats of the birthdays of the day, at 07:00 UTC.
    BirthdayReminder,
    /// Tells the maintainer that the service is alive, at 07:10 UTC.
    HealthCheck,
    /// Saves the map of birthdays, at 12:00 UTC.
    DailyBackup,
}

impl Job {
    /// The hour of the day, in UTC, at which the job runs.
    pub open spec fn run_hour(self) -> int {
        match self {
            Job::BirthdayReminder => 7,
            Job::HealthCheck => 7,
            Job::DailyBackup => 12,
        }
    }

    /// The minute of that hour at which the job runs.
    pub open spec fn run_minute(self) -> int {
        match self {
            Job::BirthdayReminder => 0,
            Job::HealthCheck => 10,
            Job::DailyBackup => 0,
        }
    }

    /// The hour of the day, in UTC, at which the job runs.
    pub fn hour(self) -> (hour: u32)
        ensures
            hour == self.run_hour(),
    {
        match self {
            Job::BirthdayReminder => 7,
            Job::HealthCheck => 7,
            Job::DailyBackup => 12,
        }
    }

    /// The minute of that hour at which the job runs.
    pub fn minute(self) -> (minute: u32)
        ensures
            minute == self.run_minute(),
    {
        match self {
            Job::BirthdayReminder => 0,
            Job::HealthCheck => 10,
            Job::DailyBackup => 0,
        }
    }

    /// How long the job sleeps from `now` on: until its time of day on the
    /// day after the one that `now` lies in.
    pub fn delay_until_next_run(self, now: Moment) -> (delay: Delay)
        ensures
            delay.total_nanos() == nanos_until_next_run(
                now.seconds() as int,
                now.subsec_nanos() as int,
                self.run_hour(),
                self.run_minute(),
            ),
            delay.nanos < NANOS_PER_SECOND,
    {
        delay_until(now, self.hour(), self.minute())
    }
}

/// The second at which the day after that of `secs` reaches `hour:minute`,
/// all in UTC and counted from the start of 1970.
pub open spec fn next_run(secs: int, hour: int, minute: int) -> int {
    (secs / 86_400 + 1) * 86_400 + hour * 3_600 + minute * 60
}

/// The nanoseconds from the moment `nanos` nanoseconds into the second
/// `secs` to the start of the second `next_run(secs, hour, minute)`.
pub open spec fn nanos_until_next_run(secs: int, nanos: int, hour: int, minute: int) -> int {
    (next_run(secs, hour, minute) - secs) * 1_000_000_000 - nanos
}

/// The next run is more than `hour:minute` and at most a day and
/// `hour:minute` away.
pub proof fn lemma_next_run_within_two_days(secs: int, nanos: int, hour: int, minute: int)
    requires
        0 <= nanos < 1_000_000_000,
        0 <= hour < 24,
        0 <= minute < 60,
    ensures
        (hour * 3_600 + minute * 60) * 1_000_000_000 < nanos_until_next_run(
            secs,
            nanos,
            hour,
            minute,
        ) <= (86_400 + hour * 3_600 + minute * 60) * 1_000_000_000,
        next_run(secs, hour, minute) / 86_400 == secs / 86_400 + 1,
        next_run(secs, hour, minute) % 86_400 == hour * 3_600 + minute * 60,
{
    let day = secs / 86_400;
    let into = secs % 86_400;
    assert(secs == day * 86_400 + into) by (nonlinear_arith)
        requires
            day == secs / 86_400,
            into == secs % 86_400,
    ;
    assert((day + 1) * 86_400 == day * 86_400 + 86_400) by (nonlinear_arith);
    let offset = hour * 3_600 + minute * 60;
    assert(((day + 1) * 86_400 + offset) / 86_400 == day + 1 && ((day + 1) * 86_400 + offset)
        % 86_400 == offset) by (nonlinear_arith)
        requires
            0 <= offset < 86_400,
    ;
}

/// The delay from `now` to `hour:minute` of the next day.
fn delay_until(now: Moment, hour: u32, minute: u32) -> (delay: Delay)
    requires
        hour < 24,
        minute < 60,
    ensures
        delay.total_nanos() == nanos_until_next_run(
            now.seconds() as int,
            now.subsec_nanos() as int,
            hour as int,
            minute as int,
        ),
        delay.nanos < NANOS_PER_SECOND,
{
    proof {
        use_type_invariant(now);
    }
    let secs = now.secs;
    let into_day: i64 = match secs.checked_rem_euclid(SECONDS_PER_DAY) {
        Some(into_day) => into_day,
        None => 0,
    };
    let ghost day = secs as int / 86_400;
    proof {
        assert(secs as int == day * 86_400 + into_day as int) by (nonlinear_arith)
            requires
                day == secs as int / 86_400,
                into_day as int == secs as int % 86_400,
        ;
        assert((day + 1) * 86_400 == day * 86_400 + 86_400) by (nonlinear_arith);
    }
    let offset: u64 = hour as u64 * 3_600 + minute as u64 * 60;
    let whole: u64 = (SECONDS_PER_DAY - into_day) as u64 + offset;
    if now.nanos == 0 {
        Delay { secs: whole, nanos: 0 }
    } else {
        Delay { secs: whole - 1, nanos: NANOS_PER_SECOND - now.nanos }
    }
}

/// The day of the month and the month of the year, in UTC, at the second
/// `secs` since the start of 1970, where the calendar reaches that far.
pub uninterp spec fn utc_day_month(secs: i64) -> Option<(u32, u32)>;

/// Reads the calendar: `chrono::DateTime::from_timestamp` for the second
/// `secs`, then `Datelike::day` and `Datelike::month` of what it gives.
/// Nothing is claimed of the date but that it depends on `secs` alone;
/// there is none where `from_timestamp` gives none.
#[verifier::external_body]
fn day_and_month(secs: i64) -> (date: Option<(u32, u32)>)
    ensures
        date == utc_day_month(secs),
{
    let at = chrono::DateTime::from_timestamp(secs, 0)?;
    Some((at.day(), at.month()))
}

/// A day of a month as birthdays are dated: `DD-MM`.
pub open spec fn day_month(day: nat, month: nat) -> Seq<char> {
    two_digits(day) + seq!['-'] + two_digits(month)
}

/// Writes a day of a month as birthdays are dated: `DD-MM`.
pub fn day_month_text(day: u32, month: u32) -> (text: String)
    ensures
        text@ == day_month(day as nat, month as nat),
{
    let mut text = two_digit_string(day as u64);
    text.append("-");
    let month_text = two_digit_string(month as u64);
    text.append(month_text.as_str());
    proof {
        reveal_strlit("-");
    }
    text
}

/// Below a hundred, different days of different months are written
/// differently.
pub proof fn lemma_day_month_differ(day: nat, month: nat, other_day: nat, other_month: nat)
    requires
        day < 100 && month < 100,
        other_day < 100 && other_month < 100,
    ensures
        day_month(day, month).len() == 5,
        day_month(day, month) == day_month(other_day, other_month) ==> day == other_day && month
            == other_month,
{
    lemma_two_digits_differ(day, other_day);
    lemma_two_digits_differ(month, other_month);
    lemma_two_digits_differ(other_day, day);
    lemma_two_digits_differ(other_month, month);
    let one = day_month(day, month);
    let other = day_month(other_day, other_month);
    if one == other {
        assert(two_digits(day) =~= one.subrange(0, 2));
        assert(two_digits(other_day) =~= other.subrange(0, 2));
        assert(two_digits(month) =~= one.subrange(3, 5));
        assert(two_digits(other_month) =~= other.subrange(3, 5));
    }
}

/// The date of `now` as birthdays are dated, where the calendar reaches
/// that far.
pub fn date_at(now: Moment) -> (today: Option<String>)
    ensures
        match utc_day_month(now.seconds()) {
            Some((day, month)) => today is Some && today->0@ == day_month(day as nat, month as nat),
            None => today is None,
        },
{
    match day_and_month(now.secs()) {
        Some((day, month)) => Some(day_month_text(day, month)),
        None => None,
    }
}

/// The text that reminds a chat of a birthday: the name, and the handle in
/// brackets where there is one.
pub open spec fn reminder(birthday: BirthdayView) -> Seq<char> {
    REMINDER_OPENING@ + birthday.name + " "@ + (if birthday.username.len() > 0 {
        "("@ + birthday.username + ")"@
    } else {
        Seq::empty()
    }) + REMINDER_CLOSING@
}

/// Writes the text that reminds a chat of `birthday`.
pub fn reminder_text(birthday: &Birthday) -> (text: String)
    ensures
        text@ == reminder(birthday@),
{
    let mut text = String::from_str(REMINDER_OPENING);
    text.append(birthday.name.as_str());
    text.append(" ");
    if !birthday.username.as_str().is_empty() {
        text.append("(");
        text.append(birthday.username.as_str());
        text.append(")");
    }
    text.append(REMINDER_CLOSING);
    text
}

/// Whether a birthday falls on the day that is written `today`.
pub open spec fn falls_on(today: Seq<char>) -> spec_fn(BirthdayView) -> bool {
    |birthday: BirthdayView| birthday.date == today
}

/// The reminder for a chat of a birthday.
pub open spec fn notice_for(chat: i64) -> spec_fn(BirthdayView) -> (i64, Seq<char>) {
    |birthday: BirthdayView| (chat, reminder(birthday))
}

/// The reminders that one chat is sent on the day `today`: one for each of
/// its birthdays that fall on that day, in the order of its list, if its
/// state is active, and else none.
pub open spec fn chat_reminders(chat: i64, record: RecordView, today: Seq<char>) -> Seq<
    (i64, Seq<char>),
> {
    if record.0 == State::Active {
        record.1.filter(falls_on(today)).map_values(notice_for(chat))
    } else {
        Seq::empty()
    }
}

/// A birthday of a list is among those picked for a day exactly when it is
/// dated for that day.
pub proof fn lemma_picked_by_date(list: Seq<BirthdayView>, index: int, today: Seq<char>)
    requires
        0 <= index < list.len(),
    ensures
        list.filter(falls_on(today)).contains(list[index]) <==> list[index].date == today,
{
    let picked = list.filter(falls_on(today));
    if list[index].date == today {
        list.lemma_filter_contains(falls_on(today), index);
    }
    if picked.contains(list[index]) {
        let at = choose|at: int| 0 <= at < picked.len() && picked[at] == list[index];
        list.lemma_filter_pred(falls_on(today), at);
    }
}

/// A birthday dated for the day `day` of the month `month` is picked on the
/// day `today_day` of the month `today_month` exactly when the two days and
/// the two months are the same. The year plays no part.
pub proof fn lemma_picked_on_its_day(
    list: Seq<BirthdayView>,
    index: int,
    day: nat,
    month: nat,
    today_day: nat,
    today_month: nat,
)
    requires
        0 <= index < list.len(),
        list[index].date == day_month(day, month),
        1 <= day <= 31 && 1 <= month <= 12,
        1 <= today_day <= 31 && 1 <= today_month <= 12,
    ensures
        list.filter(falls_on(day_month(today_day, today_month))).contains(list[index]) <==> day
            == today_day && month == today_month,
{
    lemma_day_month_differ(day, month, today_day, today_month);
    lemma_picked_by_date(list, index, day_month(today_day, today_month));
}

/// The reminders of the chats `chats`, chat after chat.
pub open spec fn reminders_along(
    chats: Seq<i64>,
    records: Map<i64, RecordView>,
    today: Seq<char>,
) -> Seq<(i64, Seq<char>)> {
    chats.map_values(|chat: i64| chat_reminders(chat, records[chat], today)).flatten()
}

/// The values of reminders: the number of the chat and the text.
pub open spec fn notices(reminders: Seq<(ChatId, String)>) -> Seq<(i64, Seq<char>)> {
    reminders.map_values(|notice: (ChatId, String)| (notice.0.0, notice.1@))
}

/// Adds to `reminders` those of one chat for the day `today`.
fn add_chat_reminders(
    reminders: &mut Vec<(ChatId, String)>,
    chat: ChatId,
    record: &(State, Birthdays),
    today: &String,
)
    ensures
        notices(final(reminders)@) == notices(old(reminders)@) + chat_reminders(
            chat.0,
            (record.0, record.1@),
            today@,
        ),
{
    let ghost before = notices(reminders@);
    let ghost list = record.1@;
    if record.0 == State::Active {
        let mut i: usize = 0;
        assert(notices(reminders@) =~= before + list.take(0).filter(falls_on(today@)).map_values(
            notice_for(chat.0),
        )) by {
            reveal(Seq::filter);
        }
        while i < record.1.len()
            invariant
                i <= list.len(),
                list == record.1@,
                notices(reminders@) == before + list.take(i as int).filter(
                    falls_on(today@),
                ).map_values(notice_for(chat.0)),
            decreases list.len() - i,
        {
            let birthday = record.1.get(i).unwrap();
            proof {
                assert(list.take(i as int + 1) =~= list.take(i as int).push(list[i as int]));
                list.take(i as int).lemma_filter_push(list[i as int], falls_on(today@));
            }
            if birthday.date == *today {
                let ghost earlier = reminders@;
                reminders.push((chat, reminder_text(birthday)));
                assert(notices(reminders@) =~= notices(earlier).push(
                    (chat.0, reminder(birthday@)),
                ));
            }
            i += 1;
        }
        assert(list.take(list.len() as int) =~= list);
    }
}

/// The reminders to send on the day that is written `today`: for each chat
/// whose state is active, one for each of its birthdays that fall on that
/// day. Those of one chat stand together, in the order of its list; the
/// chats come in no particular order.
pub fn birthday_reminders(map: &BirthdaysMap, today: &str) -> (reminders: Vec<(ChatId, String)>)
    ensures
        exists|chats: Seq<i64>|
            is_walk_of(chats, map@) && notices(reminders@) == #[trigger] reminders_along(
                chats,
                map@,
                today@,
            ),
{
    let today = String::from_str(today);
    let records = map.iter();
    let ghost chats = chats_of(records@);
    let ghost per_chat = |chat: i64| chat_reminders(chat, map@[chat], today@);
    let mut reminders: Vec<(ChatId, String)> = Vec::new();
    let mut i: usize = 0;
    while i < records.len()
        invariant
            i <= records.len(),
            chats == chats_of(records@),
            per_chat == |chat: i64| chat_reminders(chat, map@[chat], today@),
            forall|k: int|
                0 <= k < records@.len() ==> map@[#[trigger] records@[k].0.0] == (
                    records@[k].1.0,
                    records@[k].1.1@,
                ),
            notices(reminders@) == chats.take(i as int).map_values(per_chat).flatten(),
        decreases records.len() - i,
    {
        let (chat, record) = records[i];
        add_chat_reminders(&mut reminders, chat, record, &today);
        proof {
            assert(chats.take(i as int + 1).map_values(per_chat) =~= chats.take(
                i as int,
            ).map_values(per_chat).push(per_chat(chat.0)));
            chats.take(i as int).map_values(per_chat).lemma_flatten_push(per_chat(chat.0));
        }
        i += 1;
    }
    assert(chats.take(chats.len() as int) =~= chats);
    assert(notices(reminders@) == reminders_along(chats, map@, today@));
    reminders
}

/// The reminders to send at the moment `secs`, the chats taken in the order
/// `chats`: those of the day of that moment, and none where the calendar
/// does not reach that far.
pub open spec fn reminders_at(chats: Seq<i64>, records: Map<i64, RecordView>, secs: i64) -> Seq<
    (i64, Seq<char>),
> {
    match utc_day_month(secs) {
        Some((day, month)) => reminders_along(chats, records, day_month(day as nat, month as nat)),
        None => Seq::empty(),
    }
}

/// Two moments on the same day of the same month, in whatever years, ask
/// for the same reminders.
pub proof fn lemma_reminders_in_any_year(
    chats: Seq<i64>,
    records: Map<i64, RecordView>,
    one: i64,
    other: i64,
)
    requires
        utc_day_month(one) == utc_day_month(other),
    ensures
        reminders_at(chats, records, one) == reminders_at(chats, records, other),
{
}

/// The reminders to send at the moment `now`: those of its day, as
/// [`birthday_reminders`] gives them, and none where the calendar does not
/// reach that far.
pub fn reminders_due(map: &BirthdaysMap, now: Moment) -> (reminders: Vec<(ChatId, String)>)
    ensures
        exists|chats: Seq<i64>|
            is_walk_of(chats, map@) && notices(reminders@) == #[trigger] reminders_at(
                chats,
                map@,
                now.seconds(),
            ),
{
    match date_at(now) {
        Some(today) => {
            let reminders = birthday_reminders(map, today.as_str());
            proof {
                let chats = choose|chats: Seq<i64>|
                    is_walk_of(chats, map@) && notices(reminders@) == #[trigger] reminders_along(
                        chats,
                        map@,
                        today@,
                    );
                assert(notices(reminders@) == reminders_at(chats, map@, now.seconds()));
            }
            reminders
        },
        None => {
            let reminders: Vec<(ChatId, String)> = Vec::new();
            proof {
                let chats = map@.dom().to_seq();
                map.lemma_finite();
                lemma_walk_exists(map@);
                assert(notices(reminders@) =~= reminders_at(chats, map@, now.seconds()));
            }
            reminders
        },
    }
}

/// What the runner of a job is to do next.
#[derive(Debug)]
pub enum Step {
    /// Sleep for this long, then come back with [`Schedule::wake`].
    Sleep(Delay),
    /// Send the text to the chat, then come back with [`Schedule::done`].
    Send { chat: ChatId, text: String },
    /// Save the map of birthdays, then come back with [`Schedule::done`].
    Save,
}

/// The value of a [`Step`].
pub ghost enum StepView {
    Sleep(Delay),
    Send { chat: i64, text: Seq<char> },
    Save,
}

impl View for Step {
    type V = StepView;

    open spec fn view(&self) -> StepView {
        match self {
            Step::Sleep(delay) => StepView::Sleep(*delay),
            Step::Send { chat, text } => StepView::Send { chat: chat.0, text: text@ },
            Step::Save => StepView::Save,
        }
    }
}

/// Whether `step` is the sleep of `job` from the moment `now` to its next
/// run.
pub open spec fn is_sleep_from(step: StepView, job: Job, now: Moment) -> bool {
    step matches StepView::Sleep(delay) && delay.nanos < NANOS_PER_SECOND && delay.total_nanos()
        == nanos_until_next_run(
        now.seconds() as int,
        now.subsec_nanos() as int,
        job.run_hour(),
        job.run_minute(),
    )
}

/// The sending of a reminder, as a step.
pub open spec fn sending(notice: (i64, Seq<char>)) -> StepView {
    StepView::Send { chat: notice.0, text: notice.1 }
}

/// One job that runs once a day, and what is left to do of its run: it
/// tells its runner what to do next, and the runner tells it what came of
/// that.
#[derive(Debug)]
pub struct Schedule {
    job: Job,
    found: Vec<(ChatId, String)>,
    sent: usize,
}

impl Schedule {
    #[verifier::type_invariant]
    spec fn well_formed(self) -> bool {
        self.sent <= self.found.len()
    }

    /// The job that this schedule runs.
    pub closed spec fn task(&self) -> Job {
        self.job
    }

    /// What is still to send in this run, the next one first.
    pub closed spec fn pending(&self) -> Seq<(i64, Seq<char>)> {
        notices(self.found@).skip(self.sent as int)
    }

    /// The schedule of a job, with nothing to send.
    pub fn new(job: Job) -> (schedule: Self)
        ensures
            schedule.task() == job,
            schedule.pending().len() == 0,
    {
        Schedule { job, found: Vec::new(), sent: 0 }
    }

    /// The job that this schedule runs.
    pub fn job(&self) -> (job: Job)
        ensures
            job == self.task(),
    {
        self.job
    }

    /// The step with which a job starts: to sleep until its next run.
    pub fn rest(&self, now: Moment) -> (step: Step)
        ensures
            is_sleep_from(step@, self.task(), now),
    {
        Step::Sleep(self.job.delay_until_next_run(now))
    }

    /// The step after the sleep. The health check sends its text to the
    /// maintainer and the backup saves the map. The reminder job reads the
    /// map for the reminders of the day: it sends the first and keeps the
    /// others for later, or sleeps again where there is none.
    pub fn wake(&mut self, map: &BirthdaysMap, now: Moment) -> (step: Step)
        ensures
            final(self).task() == old(self).task(),
            old(self).task() == Job::HealthCheck ==> final(self).pending().len() == 0 && step@ == (
                StepView::Send { chat: MAINTAINER_CHAT, text: HEALTH_CHECK_TEXT@ }),
            old(self).task() == Job::DailyBackup ==> final(self).pending().len() == 0 && step@
                == StepView::Save,
            old(self).task() == Job::BirthdayReminder ==> exists|chats: Seq<i64>|
                {
                    let all = #[trigger] reminders_at(chats, map@, now.seconds());
                    &&& is_walk_of(chats, map@)
                    &&& all.len() == 0 ==> final(self).pending().len() == 0 && is_sleep_from(
                        step@,
                        Job::BirthdayReminder,
                        now,
                    )
                    &&& all.len() > 0 ==> final(self).pending() == all.skip(1) && step@ == sending(
                        all[0],
                    )
                },
    {
        match self.job {
            Job::HealthCheck => {
                self.sent = 0;
                self.found = Vec::new();
                Step::Send {
                    chat: ChatId(MAINTAINER_CHAT),
                    text: String::from_str(HEALTH_CHECK_TEXT),
                }
            },
            Job::DailyBackup => {
                self.sent = 0;
                self.found = Vec::new();
                Step::Save
            },
            Job::BirthdayReminder => {
                let found = reminders_due(map, now);
                let ghost chats = choose|chats: Seq<i64>|
                    is_walk_of(chats, map@) && notices(found@) == #[trigger] reminders_at(
                        chats,
                        map@,
                        now.seconds(),
                    );
                self.sent = 0;
                self.found = found;
                self.next(now)
            },
        }
    }

    /// The step after a sending or a saving, of which `ok` says whether it
    /// went well. After one that went well the next reminder is sent, if one
    /// is left. Else the run is over, what was left of it is dropped, and
    /// the job sleeps until its next run.
    pub fn done(&mut self, ok: bool, now: Moment) -> (step: Step)
        ensures
            final(self).task() == old(self).task(),
            ok && old(self).pending().len() > 0 ==> step@ == sending(old(self).pending()[0])
                && final(self).pending() == old(self).pending().skip(1),
            !ok || old(self).pending().len() == 0 ==> is_sleep_from(step@, old(self).task(), now)
                && final(self).pending().len() == 0,
    {
        if !ok {
            proof {
                use_type_invariant(&*self);
            }
            self.sent = self.found.len();
        }
        self.next(now)
    }

    /// Sends what is next, or sleeps where nothing is left.
    fn next(&mut self, now: Moment) -> (step: Step)
        ensures
            final(self).task() == old(self).task(),
            old(self).pending().len() > 0 ==> final(self).pending() == old(self).pending().skip(1)
                && step@ == sending(old(self).pending()[0]),
            old(self).pending().len() == 0 ==> final(self).pending().len() == 0 && is_sleep_from(
                step@,
                old(self).task(),
                now,
            ),
    {
        proof {
            use_type_invariant(&*self);
        }
        if self.sent < self.found.len() {
            let chat = self.found[self.sent].0;
            let text = self.found[self.sent].1.clone();
            self.sent = self.sent + 1;
            Step::Send { chat, text }
        } else {
            Step::Sleep(self.job.delay_until_next_run(now))
        }
    }
}

} // verus!

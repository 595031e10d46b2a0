//! The commands of the maintainer: the report on the service and the
//! backup on demand.

use vstd::prelude::*;
use vstd::string::StringExecFns;

use crate::birthdays_map::{chats_of, is_walk_of, size_estimate, BirthdaysMap, RecordView};
use crate::handles::{answer_views, say, Answer, AnswerView, MaintainerCommands};
use crate::messages::{
    NOT_SAVED_MSG, SAVED_MSG, STATUS_BACKUP_ACTIVE, STATUS_BACKUP_INACTIVE, STATUS_CHATS_HEADER,
    STATUS_CHAT_ACTIVE, STATUS_CHAT_ACTIVE_ENDING, STATUS_CHAT_DISABLED,
    STATUS_CHAT_DISABLED_ENDING, STATUS_CHAT_HOLDS, STATUS_CHAT_WAITING_BIRTHDAY,
    STATUS_CHAT_WAITING_ENDING, STATUS_CHAT_WAITING_JSON, STATUS_CHAT_WAITING_REMOVING,
    STATUS_HEALTH_ACTIVE, STATUS_HEALTH_INACTIVE, STATUS_OVER_LIMIT, STATUS_REMINDER_ACTIVE,
    STATUS_REMINDER_INACTIVE, STATUS_SIZE_ENDING, STATUS_SIZE_MIDDLE, STATUS_SIZE_OPENING,
    STATUS_TASKS_HEADER, STATUS_WITHIN_LIMIT,
};
use crate::state::State;
use crate::text::{decimal, decimal_string, signed_decimal, signed_decimal_string};

verus! {

/// Which of the daily jobs still run.
#[derive(Clone, Copy, PartialEq, Eq, Structural, Debug)]
pub struct TaskStatus {
    pub birthday_reminder: bool,
    pub daily_backup: bool,
    pub health_check: bool,
}

/// The estimated size as the map reports it: the estimate, or the largest
/// number where the estimate is beyond it.
pub open spec fn reported_size(records: Map<i64, RecordView>) -> nat {
    if size_estimate(records) <= usize::MAX {
        size_estimate(records)
    } else {
        usize::MAX as nat
    }
}

/// The part of the report on the map as a whole and on the jobs.
pub open spec fn status_head(records: Map<i64, RecordView>, ceiling: nat, tasks: TaskStatus) -> Seq<
    char,
> {
    (if reported_size(records) < ceiling {
        STATUS_WITHIN_LIMIT@
    } else {
        STATUS_OVER_LIMIT@
    }) + STATUS_TASKS_HEADER@ + (if tasks.birthday_reminder {
        STATUS_REMINDER_ACTIVE@
    } else {
        STATUS_REMINDER_INACTIVE@
    }) + (if tasks.daily_backup {
        STATUS_BACKUP_ACTIVE@
    } else {
        STATUS_BACKUP_INACTIVE@
    }) + (if tasks.health_check {
        STATUS_HEALTH_ACTIVE@
    } else {
        STATUS_HEALTH_INACTIVE@
    }) + STATUS_SIZE_OPENING@ + decimal(reported_size(records)) + STATUS_SIZE_MIDDLE@ + decimal(
        ceiling,
    ) + STATUS_SIZE_ENDING@ + STATUS_CHATS_HEADER@
}

/// The line of the report on one chat, which is the `number`th of the
/// report.
pub open spec fn status_line(number: nat, chat: i64, record: RecordView) -> Seq<char> {
    decimal(number) + match record.0 {
        State::Active => STATUS_CHAT_ACTIVE@ + signed_decimal(chat as int) + STATUS_CHAT_HOLDS@
            + decimal(record.1.len()) + STATUS_CHAT_ACTIVE_ENDING@,
        State::WaitingJson => STATUS_CHAT_WAITING_JSON@ + signed_decimal(chat as int)
            + STATUS_CHAT_WAITING_ENDING@,
        State::WaitingBirthday => STATUS_CHAT_WAITING_BIRTHDAY@ + signed_decimal(chat as int)
            + STATUS_CHAT_WAITING_ENDING@,
        State::WaitingRemoving => STATUS_CHAT_WAITING_REMOVING@ + signed_decimal(chat as int)
            + STATUS_CHAT_WAITING_ENDING@,
        State::Disabled => STATUS_CHAT_DISABLED@ + signed_decimal(chat as int)
            + STATUS_CHAT_DISABLED_ENDING@,
    }
}

/// The lines of the report on the first `count` of the chats `chats`.
pub open spec fn status_lines(chats: Seq<i64>, records: Map<i64, RecordView>, count: nat) -> Seq<
    char,
>
    decreases count,
{
    if count == 0 {
        Seq::empty()
    } else {
        status_lines(chats, records, (count - 1) as nat) + status_line(
            (count - 1) as nat,
            chats[count - 1],
            records[chats[count - 1]],
        )
    }
}

/// The report on the service, the chats taken in the order `chats`.
pub open spec fn status_text(
    chats: Seq<i64>,
    records: Map<i64, RecordView>,
    ceiling: nat,
    tasks: TaskStatus,
) -> Seq<char> {
    status_head(records, ceiling, tasks) + status_lines(chats, records, chats.len())
}

/// Writes the report on the service: whether the estimated size is under
/// the ceiling, which jobs run, the size and the ceiling in numbers, and a
/// numbered line for each chat, the chats in no particular order.
pub fn handle_status_command(map: &BirthdaysMap, tasks: TaskStatus) -> (text: String)
    ensures
        exists|chats: Seq<i64>|
            is_walk_of(chats, map@) && text@ == #[trigger] status_text(
                chats,
                map@,
                map.ceiling(),
                tasks,
            ),
{
    let size = map.estimate_size();
    let limit = map.limit();
    let mut text = String::from_str(
        if size < limit {
            STATUS_WITHIN_LIMIT
        } else {
            STATUS_OVER_LIMIT
        },
    );
    text.append(STATUS_TASKS_HEADER);
    text.append(
        if tasks.birthday_reminder {
            STATUS_REMINDER_ACTIVE
        } else {
            STATUS_REMINDER_INACTIVE
        },
    );
    text.append(
        if tasks.daily_backup {
            STATUS_BACKUP_ACTIVE
        } else {
            STATUS_BACKUP_INACTIVE
        },
    );
    text.append(
        if tasks.health_check {
            STATUS_HEALTH_ACTIVE
        } else {
            STATUS_HEALTH_INACTIVE
        },
    );
    text.append(STATUS_SIZE_OPENING);
    text.append(decimal_string(size as u64).as_str());
    text.append(STATUS_SIZE_MIDDLE);
    text.append(decimal_string(limit as u64).as_str());
    text.append(STATUS_SIZE_ENDING);
    text.append(STATUS_CHATS_HEADER);
    let records = map.iter();
    let ghost chats = chats_of(records@);
    let ghost head = text@;
    let mut i: usize = 0;
    while i < records.len()
        invariant
            i <= records.len(),
            chats == chats_of(records@),
            forall|k: int|
                0 <= k < records@.len() ==> map@[#[trigger] records@[k].0.0] == (
                    records@[k].1.0,
                    records@[k].1.1@,
                ),
            text@ == head + status_lines(chats, map@, i as nat),
        decreases records.len() - i,
    {
        let (chat, record) = records[i];
        text.append(decimal_string(i as u64).as_str());
        let number = signed_decimal_string(chat.0);
        match record.0 {
            State::Active => {
                text.append(STATUS_CHAT_ACTIVE);
                text.append(number.as_str());
                text.append(STATUS_CHAT_HOLDS);
                text.append(decimal_string(record.1.len() as u64).as_str());
                text.append(STATUS_CHAT_ACTIVE_ENDING);
            },
            State::WaitingJson => {
                text.append(STATUS_CHAT_WAITING_JSON);
                text.append(number.as_str());
                text.append(STATUS_CHAT_WAITING_ENDING);
            },
            State::WaitingBirthday => {
                text.append(STATUS_CHAT_WAITING_BIRTHDAY);
                text.append(number.as_str());
                text.append(STATUS_CHAT_WAITING_ENDING);
            },
            State::WaitingRemoving => {
                text.append(STATUS_CHAT_WAITING_REMOVING);
                text.append(number.as_str());
                text.append(STATUS_CHAT_WAITING_ENDING);
            },
            State::Disabled => {
                text.append(STATUS_CHAT_DISABLED);
                text.append(number.as_str());
                text.append(STATUS_CHAT_DISABLED_ENDING);
            },
        }
        assert(text@ =~= head + status_lines(chats, map@, (i + 1) as nat));
        i += 1;
    }
    assert(text@ == status_text(chats, map@, map.ceiling(), tasks));
    text
}

/// What the runner of a command of the maintainer is to do.
#[derive(Debug)]
pub enum MaintainerStep {
    /// Send this report.
    Report(String),
    /// Save the map of birthdays, then answer with what
    /// [`handle_backup_command`] says of the outcome.
    Save,
}

/// Carries out a command of the maintainer: writes the report, or asks for
/// the map to be saved.
pub fn maintainer_commands_handler(cmd: MaintainerCommands, map: &BirthdaysMap, tasks: TaskStatus) -> (step:
    MaintainerStep)
    ensures
        cmd == MaintainerCommands::Backup ==> step is Save,
        cmd == MaintainerCommands::Status ==> step is Report && exists|chats: Seq<i64>|
            is_walk_of(chats, map@) && step->Report_0@ == #[trigger] status_text(
                chats,
                map@,
                map.ceiling(),
                tasks,
            ),
{
    match cmd {
        MaintainerCommands::Status => MaintainerStep::Report(handle_status_command(map, tasks)),
        MaintainerCommands::Backup => MaintainerStep::Save,
    }
}

/// The answer after the map was to be saved on the maintainer's command, of
/// which `saved` says whether it was.
pub fn handle_backup_command(saved: bool) -> (answers: Vec<Answer>)
    ensures
        answer_views(answers@) == seq![
            AnswerView::Text(
                if saved {
                    SAVED_MSG@
                } else {
                    NOT_SAVED_MSG@
                },
            ),
        ],
{
    if saved {
        say(SAVED_MSG)
    } else {
        say(NOT_SAVED_MSG)
    }
}

} // verus!

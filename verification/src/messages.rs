//! The texts that the service answers with.

use vstd::prelude::*;

verus! {

/// Greets a new user.
pub const GREETINGS_MSG: &'static str =
    "Привет! Этот бот создан для тех, кто постоянно забывает про дни рождения😁\n
С помощью него вы никогда не забудете поздравить своих друзей, коллег по работе или родственников.\n
Для более подробной информации по настройке используйте команду /help.";

/// Tells the maintainer who they are.
pub const CREATOR_MESSAGE: &'static str =
    "Вы мой создатель!🙏";

/// Begins the answer to one who may give orders; the place follows.
pub const ADMIN_INTERACTION_PREFIX: &'static str =
    "Вы можете взаимодействовать со мной ";

/// Begins the answer to one who may not give orders; the place follows.
pub const NO_INTERACTION_PREFIX: &'static str =
    "К сожалению, вы не можете взаимодействовать со мной ";

/// Says that the map is full and the order was not taken.
pub const BUSY_MSG: &'static str =
    "К сожалению, в данный момент я не могу принимать новые запросы из-за высокой нагрузки 😞 \
Попробуйте повторить запрос позже";

/// The file that shows how a document with birthdays looks.
pub const SAMPLE_JSON_FILE_PATH: &'static str =
    "sample.json";

/// Asks for the document with the birthdays.
pub const JSON_MSG: &'static str =
    "Отправьте мне заполненный JSON файл с указанием дней рождений. Я отправил вам пример того, \
как должен выглядеть файл";

/// Asks for one birthday and says how to write it.
pub const ADD_MSG: &'static str =
    "Отправьте мне день рождения в формате 'Имя Фамилия, ДД-ММ, @username' или 'Имя Фамилия, ДД-MM'. \
    Например, 'Иван Иванов, 01-01, @ivan' или 'Иван Иванов, 01-01'.\n \
    Для выхода из режима обновления дней рождений введите команду /cancel";

/// Asks for the number of the birthday to remove.
pub const REMOVE_MSG: &'static str =
    "Отправьте мне номер дня рождения, который хотите удалить. \n \
    Для выхода из режима обновления дней рождений введите команду /cancel";

/// Says that the chat has left its input mode.
pub const CANCEL_MSG: &'static str =
    "Режим обнолвения дней рождений отключен. Для активации уведомлений выполните команду /active";

/// Answers a cancel in a chat that was not known before.
pub const CANCEL_EMPTY_LIST_MSG: &'static str =
    "Режим обновления дней рождений отключен. \
    Ни одного дня рождения не добавлено.";

/// Answers a cancel in a chat that is in no input mode.
pub const CANCEL_ALREADY_DISABLED_MSG: &'static str =
    "Режим обновления дней рождений уже отключен.";

/// Says that reminders are now switched on.
pub const ACTIVE_MSG: &'static str =
    "Уведомления от меня активны!🎉";

/// Says that reminders were switched on already.
pub const ACTIVE_ALREADY_ACTIVE_MSG: &'static str =
    "Уведомления от меня уже активны!";

/// Refuses to switch reminders on while a document is awaited.
pub const ACTIVE_WAITING_JSON_MSG: &'static str =
    "Прежде чем активировать уведомления, отправьте мне заполненный JSON файл с днями рождения или выполните \
    команду /cancel для выхода из режима обновления дней рождений";

/// Refuses to switch reminders on for a chat without birthdays.
pub const ACTIVE_EMPTY_LIST: &'static str =
    "Ни одного дня рождения не добавлено 😞, поэтому уведомления от меня не активны. \
    Для добавления дней рождений выполните команду /add или /addmany";

/// Refuses to switch reminders on while a birthday or a number is awaited.
pub const ACTIVE_WAITING_BIR_MSG: &'static str =
    "Прежде чем активировать уведомления, выполните команду /cancel, чтобы выйти из режима обновления дней рождений";

/// Says that reminders are now switched off.
pub const DISABLE_MSG: &'static str =
    "Уведомления от меня отключены!";

/// Says that reminders were switched off already.
pub const DISABLE_ALREADY_DISABLED_MSG: &'static str =
    "Уведомления от меня уже отключены!";

/// Refuses to switch reminders off while the chat is in an input mode.
pub const DISABLE_WAITING_MSG: &'static str =
    "Прежде чем отключить уведомления, выполните команду /cancel для выхода из режима обновления дней рождений";

/// Answers a switching off in a chat that was not known before.
pub const DISABLE_EMPTY_LIST: &'static str =
    "Ни одного дня рождения не добавлено 😞, поэтому уведомления от меня не активны. \
    Для добавления дней рождений выполните команду /add или /addmany";

/// Ends the answer to one who may give orders.
pub const ADMIN_INTERACTION_ENDING: &'static str =
    "!😄";

/// Ends the answer to one who may not give orders.
pub const NO_INTERACTION_ENDING: &'static str =
    "😞";

/// Says that the birthday was added.
pub const ADDED_MSG: &'static str =
    "День рождения успешно добавлен! 🎉";

/// Says that a message was not written as asked.
pub const INVALID_INPUT_MSG: &'static str =
    "Неверный формат ввода 😔 Попробуйте ещё раз";

/// Says that the birthdays of a document were taken.
pub const LOADED_MSG: &'static str =
    "Дни рождения успешно загружены! 🎉";

/// Says that a document could not be read as birthdays.
pub const INVALID_FILE_MSG: &'static str =
    "К сожалению, отправленный файл не корректный или содержит ошибки😔 \
    Проверьте его и отправьте ещё раз";

/// Begins the answer to a removal; the name follows.
pub const REMOVED_OPENING: &'static str =
    "День рождение, Имя: ";

/// Stands between the name and the date in the answer to a removal.
pub const REMOVED_MIDDLE: &'static str =
    ", Дата: ";

/// Ends the answer to a removal.
pub const REMOVED_ENDING: &'static str =
    " успешно удалён!";

/// Says that no birthday has the number given.
pub const NOT_FOUND_MSG: &'static str =
    "День рождение не найден по указанному индексу 😔 Попробуйте ещё раз";

/// Says that the birthdays were saved.
pub const SAVED_MSG: &'static str =
    "Дни рождения успешно сохранены";

/// Says that the birthdays could not be saved.
pub const NOT_SAVED_MSG: &'static str =
    "Возникла ошибка при сохранении дней рождений";

/// Opens the report while the estimated size is under the ceiling.
pub const STATUS_WITHIN_LIMIT: &'static str =
    "Бот активен и работает в штатном режиме. 🟢\n\n";

/// Opens the report once the estimated size has reached the ceiling.
pub const STATUS_OVER_LIMIT: &'static str =
    "Бот активен, но предел по памяти превышен! 🟡\n\n";

/// Stands above the lines on the jobs.
pub const STATUS_TASKS_HEADER: &'static str =
    "Статус внутренних задач:\n";

/// Reports that the reminder job runs.
pub const STATUS_REMINDER_ACTIVE: &'static str =
    "Birthday Reminder Task (Активна) 🟢\n";

/// Reports that the reminder job has ended.
pub const STATUS_REMINDER_INACTIVE: &'static str =
    "Birthday Reminder Task (Неактивна) 🔴\n";

/// Reports that the backup job runs.
pub const STATUS_BACKUP_ACTIVE: &'static str =
    "Daily Backup Task (Активна) 🟢\n";

/// Reports that the backup job has ended.
pub const STATUS_BACKUP_INACTIVE: &'static str =
    "Daily Backup Task (Неактивна) 🔴\n";

/// Reports that the health check runs.
pub const STATUS_HEALTH_ACTIVE: &'static str =
    "Health Check Task (Активна) 🟢\n";

/// Reports that the health check has ended.
pub const STATUS_HEALTH_INACTIVE: &'static str =
    "Health Check Task (Неактивна) 🔴\n";

/// Begins the line on the estimated size; the size follows.
pub const STATUS_SIZE_OPENING: &'static str =
    "\nУтилизация Birthday Map в байтах: ";

/// Stands between the estimated size and the ceiling.
pub const STATUS_SIZE_MIDDLE: &'static str =
    " (лимит ";

/// Ends the line on the estimated size.
pub const STATUS_SIZE_ENDING: &'static str =
    ")\n\n";

/// Stands above the lines on the chats.
pub const STATUS_CHATS_HEADER: &'static str =
    "Подробная информация по Birthday Map:\n";

/// Follows the number of a line for a chat with reminders on; the chat follows.
pub const STATUS_CHAT_ACTIVE: &'static str =
    ". Бот активен в чате ";

/// Stands between such a chat and the number of its birthdays.
pub const STATUS_CHAT_HOLDS: &'static str =
    " и содержит ";

/// Ends the line for a chat with reminders on.
pub const STATUS_CHAT_ACTIVE_ENDING: &'static str =
    " дней рождений 🟢\n";

/// Follows the number of a line for a chat that awaits a document; the chat follows.
pub const STATUS_CHAT_WAITING_JSON: &'static str =
    ". Бот ожидает загрузки JSON файла в чате ";

/// Follows the number of a line for a chat that awaits a birthday; the chat follows.
pub const STATUS_CHAT_WAITING_BIRTHDAY: &'static str =
    ". Бот ожидает добавления дня рождения в чате ";

/// Follows the number of a line for a chat that awaits a number; the chat follows.
pub const STATUS_CHAT_WAITING_REMOVING: &'static str =
    ". Бот ожидает удаления дня рождения в чате ";

/// Ends the line for a chat that awaits something.
pub const STATUS_CHAT_WAITING_ENDING: &'static str =
    " 🟡\n";

/// Follows the number of a line for a chat with reminders off; the chat follows.
pub const STATUS_CHAT_DISABLED: &'static str =
    ". Бот отключен в чате ";

/// Ends the line for a chat with reminders off.
pub const STATUS_CHAT_DISABLED_ENDING: &'static str =
    " 🔴\n";

} // verus!

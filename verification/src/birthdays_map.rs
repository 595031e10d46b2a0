//! The map from chats to their state and birthdays, under a ceiling on its
//! estimated size: what each change does, when it is refused, and that no
//! sequence of changes takes the estimate over the ceiling.

use std::collections::hash_map::Entry;
use std::collections::HashMap;

use vstd::prelude::*;
use vstd::std_specs::iter::IteratorSpec;

use crate::birthday::{merged, Birthday, BirthdayView, Birthdays};
use crate::state::State;

verus! {

broadcast use vstd::std_specs::hash::group_hash_axioms;

/// The ceiling on the estimated size of a map when none other is given:
/// 256 MiB.
pub const BIRTHDAY_MAP_LIMIT: usize = 268_435_456;

/// What the estimate charges for the identifier of a chat.
pub const CHAT_ID_SIZE: usize = 8;

/// What the estimate charges for the state of a chat.
pub const STATE_SIZE: usize = 1;

/// What the estimate charges for a list of birthdays, whatever it holds.
pub const BIRTHDAYS_SIZE: usize = 24;

/// What the estimate charges for one birthday that arrives on its own.
pub const BIRTHDAY_SIZE: usize = 72;

/// What the estimate charges for one chat: for its identifier, its state
/// and its list together.
pub const RECORD_SIZE: usize = 33;

/// What a new chat must find room for when its first change sets a state.
pub const STATE_ADMISSION: usize = CHAT_ID_SIZE + STATE_SIZE + BIRTHDAYS_SIZE;

/// What a new chat must find room for when its first change adds a birthday.
pub const BIRTHDAY_ADMISSION: usize = CHAT_ID_SIZE + BIRTHDAY_SIZE + BIRTHDAYS_SIZE;

/// What a new chat must find room for when its first change brings a list.
pub const LIST_ADMISSION: usize = CHAT_ID_SIZE + BIRTHDAYS_SIZE + BIRTHDAYS_SIZE;

/// What a whole record must find room for, whether or not it replaces one.
pub const RECORD_ADMISSION: usize = CHAT_ID_SIZE + STATE_SIZE + BIRTHDAYS_SIZE;

/// The identifier of a chat.
#[derive(Clone, Copy, PartialEq, Eq, Structural, Debug, Hash)]
pub struct ChatId(pub i64);

/// Why a map refused a change.
#[derive(Clone, Copy, PartialEq, Eq, Structural, Debug)]
pub enum ErrorKind {
    /// The change would have taken the estimated size over the ceiling.
    BirthdayMapFull,
}

/// The refusal of a change to a map.
#[derive(Clone, Copy, PartialEq, Eq, Structural, Debug)]
pub struct Error {
    kind: ErrorKind,
}

impl Error {
    /// The reason that this error carries.
    pub closed spec fn reason(self) -> ErrorKind {
        self.kind
    }

    /// An error with the given reason.
    pub fn new(kind: ErrorKind) -> (error: Self)
        ensures
            error.reason() == kind,
    {
        Self { kind }
    }

    /// The reason of the refusal.
    pub fn kind(&self) -> (kind: ErrorKind)
        ensures
            kind == self.reason(),
    {
        self.kind
    }
}

/// The value of a record: the state of a chat and the values of its
/// birthdays.
pub type RecordView = (State, Seq<BirthdayView>);

/// The estimated size of a map with the given records: the same fixed
/// charge for each.
pub open spec fn size_estimate(records: Map<i64, RecordView>) -> nat {
    records.len() * (RECORD_SIZE as nat)
}

/// A change that a map can be asked for.
pub ghost enum Change {
    /// [`BirthdaysMap::update_state`].
    SetState { chat: i64, state: State },
    /// [`BirthdaysMap::update_birthdays`].
    AddBirthday { chat: i64, birthday: BirthdayView },
    /// [`BirthdaysMap::extend_birthdays`].
    AddList { chat: i64, list: Seq<BirthdayView> },
    /// [`BirthdaysMap::insert`].
    PutRecord { chat: i64, state: State, list: Seq<BirthdayView> },
    /// [`BirthdaysMap::remove_birthday`].
    RemoveBirthday { chat: i64, index: nat },
}

impl Change {
    /// The chat that the change is about.
    pub open spec fn chat(self) -> i64 {
        match self {
            Change::SetState { chat, .. } => chat,
            Change::AddBirthday { chat, .. } => chat,
            Change::AddList { chat, .. } => chat,
            Change::PutRecord { chat, .. } => chat,
            Change::RemoveBirthday { chat, .. } => chat,
        }
    }

    /// The room that the change must find under the ceiling, on top of the
    /// estimated size before it. A change to a chat that has a record asks
    /// for none, but for the writing of a whole record.
    pub open spec fn room_needed(self, records: Map<i64, RecordView>) -> nat {
        match self {
            Change::PutRecord { .. } => RECORD_ADMISSION as nat,
            Change::RemoveBirthday { .. } => 0,
            _ if records.contains_key(self.chat()) => 0,
            Change::SetState { .. } => STATE_ADMISSION as nat,
            Change::AddBirthday { .. } => BIRTHDAY_ADMISSION as nat,
            Change::AddList { .. } => LIST_ADMISSION as nat,
        }
    }

    /// Whether a map with the given records and ceiling accepts the change.
    pub open spec fn admitted(self, records: Map<i64, RecordView>, ceiling: nat) -> bool {
        self.room_needed(records) == 0 || size_estimate(records) + self.room_needed(records)
            <= ceiling
    }

    /// The records after the change was made.
    pub open spec fn applied(self, records: Map<i64, RecordView>) -> Map<i64, RecordView> {
        let known = records.contains_key(self.chat());
        match self {
            Change::SetState { chat, state } => records.insert(
                chat,
                (
                    state,
                    if known {
                        records[chat].1
                    } else {
                        Seq::empty()
                    },
                ),
            ),
            Change::AddBirthday { chat, birthday } => records.insert(
                chat,
                if known {
                    (records[chat].0, records[chat].1.push(birthday))
                } else {
                    (State::WaitingBirthday, seq![birthday])
                },
            ),
            Change::AddList { chat, list } => records.insert(
                chat,
                if known {
                    (records[chat].0, merged(records[chat].1, list))
                } else {
                    (State::WaitingJson, list)
                },
            ),
            Change::PutRecord { chat, state, list } => records.insert(chat, (state, list)),
            Change::RemoveBirthday { chat, index } => if known && index < records[chat].1.len() {
                records.insert(chat, (records[chat].0, records[chat].1.remove(index as int)))
            } else {
                records
            },
        }
    }

    /// The records after the map was asked for the change: changed if it
    /// accepted, else as before.
    pub open spec fn outcome(self, records: Map<i64, RecordView>, ceiling: nat) -> Map<
        i64,
        RecordView,
    > {
        if self.admitted(records, ceiling) {
            self.applied(records)
        } else {
            records
        }
    }
}

/// The records after the map was asked for each of `changes` in turn.
pub open spec fn outcome_of_all(
    records: Map<i64, RecordView>,
    ceiling: nat,
    changes: Seq<Change>,
) -> Map<i64, RecordView>
    decreases changes.len(),
{
    if changes.len() == 0 {
        records
    } else {
        changes.last().outcome(outcome_of_all(records, ceiling, changes.drop_last()), ceiling)
    }
}

/// The charge for one chat is the sum of the charges for its parts.
pub proof fn lemma_record_size()
    ensures
        RECORD_SIZE == CHAT_ID_SIZE + STATE_SIZE + BIRTHDAYS_SIZE,
{
}

/// One change keeps the chats finitely many and, where the estimated size
/// was within the ceiling, keeps it there.
pub proof fn lemma_change_keeps_limit(records: Map<i64, RecordView>, ceiling: nat, change: Change)
    requires
        records.dom().finite(),
    ensures
        change.outcome(records, ceiling).dom().finite(),
        size_estimate(records) <= ceiling ==> size_estimate(change.outcome(records, ceiling))
            <= ceiling,
        !records.contains_key(change.chat()) && change.admitted(records, ceiling) && !(change is RemoveBirthday)
            ==> size_estimate(change.outcome(records, ceiling)) <= ceiling,
        !change.admitted(records, ceiling) ==> change.outcome(records, ceiling) == records,
{
}

/// Whatever changes a map is asked for, one after the other: if its
/// estimated size was within the ceiling before them, it is so after each
/// of them, and a change that the map refused left the records as they
/// were.
pub proof fn lemma_changes_keep_limit(
    records: Map<i64, RecordView>,
    ceiling: nat,
    changes: Seq<Change>,
)
    requires
        records.dom().finite(),
        size_estimate(records) <= ceiling,
    ensures
        forall|done: int|
            0 <= done <= changes.len() ==> size_estimate(
                #[trigger] outcome_of_all(records, ceiling, changes.take(done)),
            ) <= ceiling,
        forall|done: int|
            0 <= done < changes.len() && !changes[done].admitted(
                outcome_of_all(records, ceiling, changes.take(done)),
                ceiling,
            ) ==> #[trigger] outcome_of_all(records, ceiling, changes.take(done + 1))
                == outcome_of_all(records, ceiling, changes.take(done)),
{
    assert forall|done: int| 0 <= done <= changes.len() implies size_estimate(
        #[trigger] outcome_of_all(records, ceiling, changes.take(done)),
    ) <= ceiling by {
        lemma_all_changes_keep_limit(records, ceiling, changes.take(done));
    }
    assert forall|done: int|
        0 <= done < changes.len() && !changes[done].admitted(
            outcome_of_all(records, ceiling, changes.take(done)),
            ceiling,
        ) implies #[trigger] outcome_of_all(records, ceiling, changes.take(done + 1))
        == outcome_of_all(records, ceiling, changes.take(done)) by {
        assert(changes.take(done + 1).drop_last() =~= changes.take(done));
    }
}

/// After all of `changes` the chats are finitely many and the estimated
/// size is within the ceiling, if it was before them.
proof fn lemma_all_changes_keep_limit(
    records: Map<i64, RecordView>,
    ceiling: nat,
    changes: Seq<Change>,
)
    requires
        records.dom().finite(),
        size_estimate(records) <= ceiling,
    ensures
        outcome_of_all(records, ceiling, changes).dom().finite(),
        size_estimate(outcome_of_all(records, ceiling, changes)) <= ceiling,
    decreases changes.len(),
{
    if changes.len() > 0 {
        lemma_all_changes_keep_limit(records, ceiling, changes.drop_last());
        lemma_change_keeps_limit(
            outcome_of_all(records, ceiling, changes.drop_last()),
            ceiling,
            changes.last(),
        );
    }
}

/// For each chat its state and its birthdays, under a ceiling on the
/// estimated size of the whole.
#[derive(Debug)]
pub struct BirthdaysMap {
    map: HashMap<i64, (State, Birthdays)>,
    limit: usize,
}

impl View for BirthdaysMap {
    type V = Map<i64, RecordView>;

    closed spec fn view(&self) -> Map<i64, RecordView> {
        record_views(self.map@)
    }
}

/// The values of the records of a map, chat by chat.
pub open spec fn record_views(records: Map<i64, (State, Birthdays)>) -> Map<i64, RecordView> {
    Map::new(|id: i64| records.contains_key(id), |id: i64| (records[id].0, records[id].1@))
}

/// The chats of a walk through the records of a map, in its order.
pub open spec fn chats_of(records: Seq<(ChatId, &(State, Birthdays))>) -> Seq<i64> {
    Seq::new(records.len(), |i: int| records[i].0.0)
}

/// Whether `chats` names each chat with a record in `records` once, and no
/// other.
pub open spec fn is_walk_of(chats: Seq<i64>, records: Map<i64, RecordView>) -> bool {
    chats.no_duplicates() && chats.to_set() == records.dom()
}

/// The chats of a finite set can be named one by one, each once.
proof fn lemma_listing_of(chats: Set<i64>)
    requires
        chats.finite(),
    ensures
        chats.to_seq().no_duplicates(),
        chats.to_seq().to_set() == chats,
    decreases chats.len(),
{
    chats.lemma_to_seq_to_set_id();
    if chats.len() > 0 {
        let first = chats.choose();
        let rest = chats.remove(first);
        lemma_listing_of(rest);
        rest.lemma_to_seq_to_set_id();
        let listing = chats.to_seq();
        assert forall|i: int, j: int| 0 <= i < j < listing.len() implies listing[i] != listing[j] by {
            assert(listing[j] == rest.to_seq()[j - 1]);
        }
    }
}

/// Every map can be walked: some sequence names each of its chats once.
pub proof fn lemma_walk_exists(records: Map<i64, RecordView>)
    requires
        records.dom().finite(),
    ensures
        is_walk_of(records.dom().to_seq(), records),
{
    lemma_listing_of(records.dom());
}

/// The values of saved records: for each the number of the chat, its state
/// and the values of its birthdays.
pub open spec fn saved_values(saved: Seq<(ChatId, State, Birthdays)>) -> Seq<(i64, RecordView)> {
    saved.map_values(|record: (ChatId, State, Birthdays)| (record.0.0, (record.1, record.2@)))
}

/// The chats of saved records, in their order.
pub open spec fn saved_chats(saved: Seq<(i64, RecordView)>) -> Seq<i64> {
    saved.map_values(|record: (i64, RecordView)| record.0)
}

/// Whether `saved` holds the records of `records`: each chat once, with
/// its record.
pub open spec fn is_snapshot_of(saved: Seq<(i64, RecordView)>, records: Map<i64, RecordView>) -> bool {
    &&& is_walk_of(saved_chats(saved), records)
    &&& forall|i: int| 0 <= i < saved.len() ==> records[(#[trigger] saved[i]).0] == saved[i].1
}

/// The records that saved ones are restored to: each is written in turn, so
/// that of two for one chat the later stays.
pub open spec fn restored(saved: Seq<(i64, RecordView)>) -> Map<i64, RecordView>
    decreases saved.len(),
{
    if saved.len() == 0 {
        Map::empty()
    } else {
        restored(saved.drop_last()).insert(saved.last().0, saved.last().1)
    }
}

/// What is restored holds the chats that were saved, and for a chat that
/// was saved once the record that was saved for it.
pub proof fn lemma_restored(saved: Seq<(i64, RecordView)>)
    ensures
        restored(saved).dom() == saved_chats(saved).to_set(),
        saved_chats(saved).no_duplicates() ==> forall|i: int|
            0 <= i < saved.len() ==> restored(saved)[(#[trigger] saved[i]).0] == saved[i].1,
    decreases saved.len(),
{
    let chats = saved_chats(saved);
    if saved.len() > 0 {
        let shorter = saved.drop_last();
        lemma_restored(shorter);
        assert(saved_chats(shorter) =~= chats.drop_last());
        assert forall|chat: i64| restored(saved).dom().contains(chat) <==> chats.to_set().contains(
            chat,
        ) by {
            if chats.to_set().contains(chat) {
                let i = choose|i: int| 0 <= i < chats.len() && chats[i] == chat;
                if i < chats.len() - 1 {
                    assert(chats.drop_last()[i] == chat);
                }
            }
            if restored(saved).dom().contains(chat) && chat != saved.last().0 {
                let i = choose|i: int| 0 <= i < chats.len() - 1 && chats.drop_last()[i] == chat;
                assert(chats[i] == chat);
            }
            if chat == saved.last().0 {
                assert(chats[chats.len() - 1] == chat);
            }
        }
        if chats.no_duplicates() {
            assert forall|i: int| 0 <= i < saved.len() implies restored(saved)[(
            #[trigger] saved[i]).0] == saved[i].1 by {
                if i < saved.len() - 1 {
                    assert(chats[i] != chats[saved.len() - 1]);
                    assert(shorter[i] == saved[i]);
                }
            }
        }
    }
}

/// Saving and restoring gives the records back: what is restored from a
/// snapshot of some records are those records, chat for chat, state for
/// state and birthday for birthday.
pub proof fn lemma_restore_snapshot(saved: Seq<(i64, RecordView)>, records: Map<i64, RecordView>)
    requires
        is_snapshot_of(saved, records),
    ensures
        restored(saved) == records,
{
    lemma_restored(saved);
    assert forall|chat: i64| records.contains_key(chat) implies restored(saved)[chat]
        == records[chat] by {
        let i = choose|i: int| 0 <= i < saved.len() && saved_chats(saved)[i] == chat;
        assert(saved[i].0 == chat);
    }
}

/// The values of the records after one was written are those from before
/// with the value of that one written.
pub broadcast proof fn lemma_record_views_insert(
    records: Map<i64, (State, Birthdays)>,
    chat: i64,
    record: (State, Birthdays),
)
    ensures
        #[trigger] record_views(records.insert(chat, record)) == record_views(records).insert(
            chat,
            (record.0, record.1@),
        ),
{
}

impl BirthdaysMap {
    /// The ceiling that this map was made with.
    pub closed spec fn ceiling(&self) -> nat {
        self.limit as nat
    }

    /// Whether the estimated size is within the ceiling.
    pub open spec fn within_limit(&self) -> bool {
        size_estimate(self@) <= self.ceiling()
    }

    /// A map has records for finitely many chats.
    pub broadcast proof fn lemma_finite(&self)
        ensures
            #[trigger] self@.dom().finite(),
    {
        self.lemma_view();
    }

    proof fn lemma_view(&self)
        ensures
            self@.dom().finite(),
            self@.dom() == self.map@.dom(),
            self@.len() == self.map@.len(),
    {
        assert(self@.dom() =~= self.map@.dom());
    }

    /// A map of the given records under the default ceiling. The records are
    /// taken as they are, also where their estimated size is over it.
    pub fn new(map: HashMap<i64, (State, Birthdays)>) -> (store: Self)
        ensures
            store@ == record_views(map@),
            store.ceiling() == BIRTHDAY_MAP_LIMIT,
    {
        Self { map, limit: BIRTHDAY_MAP_LIMIT }
    }

    /// A map without records under the ceiling `limit`.
    pub fn with_limit(limit: usize) -> (store: Self)
        ensures
            store@ == Map::<i64, RecordView>::empty(),
            store.ceiling() == limit,
    {
        let store = Self { map: HashMap::new(), limit };
        store
    }

    /// The ceiling on the estimated size.
    pub fn limit(&self) -> (limit: usize)
        ensures
            limit == self.ceiling(),
    {
        self.limit
    }

    /// The number of chats with a record.
    pub fn len(&self) -> (n: usize)
        ensures
            n == self@.len(),
    {
        proof {
            self.lemma_view();
        }
        self.map.len()
    }

    /// The estimated size of the map in bytes: the fixed charge for each
    /// record, or the largest number where the sum is beyond it.
    pub fn estimate_size(&self) -> (size: usize)
        ensures
            size == if size_estimate(self@) <= usize::MAX {
                size_estimate(self@)
            } else {
                usize::MAX as nat
            },
    {
        proof {
            self.lemma_view();
        }
        match self.map.len().checked_mul(RECORD_SIZE) {
            Some(size) => size,
            None => usize::MAX,
        }
    }

    /// Whether `needed` more bytes fit under the ceiling.
    fn has_room(&self, needed: usize) -> (room: bool)
        ensures
            room == (size_estimate(self@) + needed <= self.ceiling()),
    {
        proof {
            self.lemma_view();
        }
        match self.map.len().checked_mul(RECORD_SIZE) {
            Some(size) => match size.checked_add(needed) {
                Some(total) => total <= self.limit,
                None => false,
            },
            None => false,
        }
    }

    /// Sets the state of the chat. A chat without a record gets one with
    /// this state and no birthdays, if there is room for it; the state of a
    /// chat with a record is replaced without a look at the ceiling.
    pub fn update_state(&mut self, chat_id: &ChatId, state: State) -> (result: Result<(), Error>)
        ensures
            final(self).ceiling() == old(self).ceiling(),
            result is Ok <==> (Change::SetState { chat: chat_id.0, state }).admitted(
                old(self)@,
                old(self).ceiling(),
            ),
            final(self)@ == (Change::SetState { chat: chat_id.0, state }).outcome(
                old(self)@,
                old(self).ceiling(),
            ),
            result matches Err(error) ==> error.reason() == ErrorKind::BirthdayMapFull,
            result is Err ==> *final(self) == *old(self),
            result is Ok && !old(self)@.contains_key(chat_id.0) ==> final(self).within_limit(),
            old(self).within_limit() ==> final(self).within_limit(),
    {
        let chat = chat_id.0;
        let ghost change = Change::SetState { chat, state };
        proof {
            self.lemma_view();
            lemma_change_keeps_limit(self@, self.ceiling(), change);
        }
        match self.get_mut(chat_id) {
            Some(record) => {
                record.0 = state;
                return Ok(());
            },
            None => {},
        }
        if self.has_room(STATE_ADMISSION) {
            self.map.insert(chat, (state, Birthdays::default()));
            assert(self@ =~= change.applied(old(self)@));
            Ok(())
        } else {
            Err(Error::new(ErrorKind::BirthdayMapFull))
        }
    }

    /// Adds a birthday to the list of the chat. A chat without a record gets
    /// one that waits for birthdays and holds this one, if there is room for
    /// it; the list of a chat with a record grows without a look at the
    /// ceiling.
    pub fn update_birthdays(&mut self, chat_id: &ChatId, birthday: Birthday) -> (result: Result<
        (),
        Error,
    >)
        ensures
            final(self).ceiling() == old(self).ceiling(),
            result is Ok <==> (Change::AddBirthday { chat: chat_id.0, birthday: birthday@ }).admitted(
                old(self)@,
                old(self).ceiling(),
            ),
            final(self)@ == (Change::AddBirthday { chat: chat_id.0, birthday: birthday@ }).outcome(
                old(self)@,
                old(self).ceiling(),
            ),
            result matches Err(error) ==> error.reason() == ErrorKind::BirthdayMapFull,
            result is Err ==> *final(self) == *old(self),
            result is Ok && !old(self)@.contains_key(chat_id.0) ==> final(self).within_limit(),
            old(self).within_limit() ==> final(self).within_limit(),
    {
        let chat = chat_id.0;
        let ghost change = Change::AddBirthday { chat, birthday: birthday@ };
        proof {
            self.lemma_view();
            lemma_change_keeps_limit(self@, self.ceiling(), change);
        }
        match self.get_mut(chat_id) {
            Some(record) => {
                record.1.append(birthday);
                return Ok(());
            },
            None => {},
        }
        if self.has_room(BIRTHDAY_ADMISSION) {
            let mut list = Birthdays::default();
            list.append(birthday);
            self.map.insert(chat, (State::WaitingBirthday, list));
            assert(self@ =~= change.applied(old(self)@));
            Ok(())
        } else {
            Err(Error::new(ErrorKind::BirthdayMapFull))
        }
    }

    /// Merges a list into that of the chat. A chat without a record gets one
    /// that waits for a document and holds the list as it came, if there is
    /// room for it; for a chat with a record the two lists are merged
    /// without a look at the ceiling.
    pub fn extend_birthdays(&mut self, chat_id: &ChatId, birthdays: Birthdays) -> (result: Result<
        (),
        Error,
    >)
        ensures
            final(self).ceiling() == old(self).ceiling(),
            result is Ok <==> (Change::AddList { chat: chat_id.0, list: birthdays@ }).admitted(
                old(self)@,
                old(self).ceiling(),
            ),
            final(self)@ == (Change::AddList { chat: chat_id.0, list: birthdays@ }).outcome(
                old(self)@,
                old(self).ceiling(),
            ),
            result matches Err(error) ==> error.reason() == ErrorKind::BirthdayMapFull,
            result is Err ==> *final(self) == *old(self),
            result is Ok && !old(self)@.contains_key(chat_id.0) ==> final(self).within_limit(),
            old(self).within_limit() ==> final(self).within_limit(),
    {
        let chat = chat_id.0;
        let ghost change = Change::AddList { chat, list: birthdays@ };
        proof {
            self.lemma_view();
            lemma_change_keeps_limit(self@, self.ceiling(), change);
        }
        match self.get_mut(chat_id) {
            Some(record) => {
                record.1.extend(birthdays);
                return Ok(());
            },
            None => {},
        }
        if self.has_room(LIST_ADMISSION) {
            self.map.insert(chat, (State::WaitingJson, birthdays));
            assert(self@ =~= change.applied(old(self)@));
            Ok(())
        } else {
            Err(Error::new(ErrorKind::BirthdayMapFull))
        }
    }

    /// Writes the record of the chat, in place of the one it may have, if
    /// there is room for a record on top of what the map holds.
    pub fn insert(&mut self, chat_id: ChatId, state: State, birthdays: Birthdays) -> (result:
        Result<(), Error>)
        ensures
            final(self).ceiling() == old(self).ceiling(),
            result is Ok <==> size_estimate(old(self)@) + RECORD_ADMISSION <= old(self).ceiling(),
            result is Ok ==> final(self)@ == old(self)@.insert(chat_id.0, (state, birthdays@)),
            final(self)@ == (Change::PutRecord {
                chat: chat_id.0,
                state,
                list: birthdays@,
            }).outcome(old(self)@, old(self).ceiling()),
            result matches Err(error) ==> error.reason() == ErrorKind::BirthdayMapFull,
            result is Err ==> *final(self) == *old(self),
            result is Ok ==> final(self).within_limit(),
            old(self).within_limit() ==> final(self).within_limit(),
    {
        let chat = chat_id.0;
        let ghost change = Change::PutRecord { chat, state, list: birthdays@ };
        proof {
            self.lemma_view();
            lemma_change_keeps_limit(self@, self.ceiling(), change);
        }
        if self.has_room(RECORD_ADMISSION) {
            self.map.insert(chat, (state, birthdays));
            proof {
                self.lemma_view();
                old(self).lemma_view();
            }
            Ok(())
        } else {
            Err(Error::new(ErrorKind::BirthdayMapFull))
        }
    }

    /// Takes the birthday numbered `index` out of the list of the chat and
    /// returns it. Without such a chat or such a birthday nothing changes.
    pub fn remove_birthday(&mut self, chat_id: &ChatId, index: usize) -> (removed: Option<Birthday>)
        ensures
            final(self).ceiling() == old(self).ceiling(),
            removed is Some <==> old(self)@.contains_key(chat_id.0) && index < old(self)@[chat_id.0].1.len(),
            removed matches Some(birthday) ==> birthday@ == old(self)@[chat_id.0].1[index as int],
            final(self)@ == (Change::RemoveBirthday { chat: chat_id.0, index: index as nat }).applied(
                old(self)@,
            ),
            removed is None ==> *final(self) == *old(self),
            size_estimate(final(self)@) == size_estimate(old(self)@),
    {
        let found = match self.map.get(&chat_id.0) {
            Some(record) => index < record.1.len(),
            None => false,
        };
        if !found {
            return None;
        }
        let removed = match self.get_mut(chat_id) {
            Some(record) => record.1.remove_at(index),
            None => None,
        };
        proof {
            self.lemma_view();
            old(self).lemma_view();
        }
        removed
    }

    /// The record of the chat, if it has one, to be changed in place. What
    /// is written through it becomes the record of the chat; no other
    /// record changes, so the estimated size stays what it was.
    pub fn get_mut(&mut self, chat_id: &ChatId) -> (record: Option<&mut (State, Birthdays)>)
        ensures
            final(self).ceiling() == old(self).ceiling(),
            record is Some <==> old(self)@.contains_key(chat_id.0),
            record matches Some(found) ==> old(self)@[chat_id.0] == (found.0, found.1@),
            record matches Some(found) ==> final(self)@ == old(self)@.insert(
                chat_id.0,
                (final(found).0, final(found).1@),
            ),
            record is None ==> *final(self) == *old(self),
    {
        broadcast use lemma_record_views_insert;

        if !self.map.contains_key(&chat_id.0) {
            return None;
        }
        match self.map.entry(chat_id.0) {
            Entry::Occupied(occupied) => Some(occupied.into_mut()),
            Entry::Vacant(_) => None,
        }
    }

    /// Every chat with its record, each chat once, in no particular order.
    pub fn iter(&self) -> (records: Vec<(ChatId, &(State, Birthdays))>)
        ensures
            is_walk_of(chats_of(records@), self@),
            forall|i: int|
                0 <= i < records@.len() ==> self@[#[trigger] records@[i].0.0] == (
                    records@[i].1.0,
                    records@[i].1.1@,
                ),
    {
        let mut records: Vec<(ChatId, &(State, Birthdays))> = Vec::new();
        let pairs = self.map.iter();
        let ghost walk = pairs.remaining();
        for pair in it: pairs
            invariant
                it.seq() == walk,
                records@.len() == it.index(),
                forall|i: int|
                    0 <= i < it.index() ==> (#[trigger] records@[i]).0.0 == *walk[i].0
                        && records@[i].1 == walk[i].1,
        {
            let (chat, record) = pair;
            records.push((ChatId(*chat), record));
        }
        proof {
            self.lemma_view();
            let chats = chats_of(records@);
            assert forall|i: int, j: int| 0 <= i < j < chats.len() implies chats[i] != chats[j] by {
                if chats[i] == chats[j] {
                    assert(self.map@.contains_key(*walk[i].0));
                    assert(self.map@.contains_key(*walk[j].0));
                    assert(walk[i] == walk[j]);
                }
            }
            assert forall|id: i64| self@.dom().contains(id) implies chats.to_set().contains(id) by {
                let pair = (&id, &self.map@[id]);
                let i = choose|i: int| 0 <= i < walk.len() && walk[i] == pair;
                assert(chats[i] == id);
            }
            assert forall|id: i64| chats.to_set().contains(id) implies self@.dom().contains(id) by {
                let i = choose|i: int| 0 <= i < chats.len() && chats[i] == id;
                assert(self.map@.contains_key(*walk[i].0));
            }
            assert(chats.to_set() =~= self@.dom());
        }
        records
    }

    /// A copy of every record: each chat once, with its state and its
    /// birthdays, in no particular order.
    pub fn snapshot(&self) -> (saved: Vec<(ChatId, State, Birthdays)>)
        ensures
            is_snapshot_of(saved_values(saved@), self@),
    {
        let records = self.iter();
        let mut saved: Vec<(ChatId, State, Birthdays)> = Vec::new();
        let mut i: usize = 0;
        while i < records.len()
            invariant
                i <= records.len(),
                saved@.len() == i,
                forall|k: int|
                    0 <= k < i ==> (#[trigger] saved@[k]).0 == records@[k].0 && saved@[k].1
                        == records@[k].1.0 && saved@[k].2@ == records@[k].1.1@,
            decreases records.len() - i,
        {
            let (chat, record) = records[i];
            saved.push((chat, record.0, record.1.clone()));
            i += 1;
        }
        proof {
            let values = saved_values(saved@);
            assert(saved_chats(values) =~= chats_of(records@));
        }
        saved
    }

    /// The map of the saved records under the ceiling `limit`. Each record
    /// is written in turn, so that of two for one chat the later stays. The
    /// records are taken as they are, also where their estimated size is
    /// over the ceiling.
    pub fn restore(saved: Vec<(ChatId, State, Birthdays)>, limit: usize) -> (store: Self)
        ensures
            store@ == restored(saved_values(saved@)),
            store.ceiling() == limit,
    {
        broadcast use lemma_record_views_insert;

        let ghost values = saved_values(saved@);
        let mut map: HashMap<i64, (State, Birthdays)> = HashMap::new();
        for record in it: saved
            invariant
                it.seq() == saved@,
                values == saved_values(saved@),
                record_views(map@) == restored(values.take(it.index())),
        {
            proof {
                assert(values.take(it.index() + 1).drop_last() =~= values.take(it.index()));
            }
            let (chat, state, birthdays) = record;
            map.insert(chat.0, (state, birthdays));
        }
        assert(values.take(values.len() as int) =~= values);
        Self { map, limit }
    }

    /// The record of the chat, if it has one.
    pub fn get(&self, chat_id: &ChatId) -> (record: Option<&(State, Birthdays)>)
        ensures
            match record {
                Some(found) => self@.contains_key(chat_id.0) && self@[chat_id.0] == (
                    found.0,
                    found.1@,
                ),
                None => !self@.contains_key(chat_id.0),
            },
    {
        self.map.get(&chat_id.0)
    }
}

impl Clone for BirthdaysMap {
    /// A copy with the same records and the same ceiling: the records are
    /// saved and restored.
    fn clone(&self) -> (copy: Self)
        ensures
            copy@ == self@,
            copy.ceiling() == self.ceiling(),
    {
        let saved = self.snapshot();
        proof {
            lemma_restore_snapshot(saved_values(saved@), self@);
        }
        BirthdaysMap::restore(saved, self.limit)
    }
}

impl Default for BirthdaysMap {
    fn default() -> (store: Self)
        ensures
            store@ == Map::<i64, RecordView>::empty(),
            store.ceiling() == BIRTHDAY_MAP_LIMIT,
    {
        BirthdaysMap::with_limit(BIRTHDAY_MAP_LIMIT)
    }
}

} // verus!

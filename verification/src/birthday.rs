//! Birthdays and the list of them that a chat keeps: adding, merging
//! without repetition, removing by number, and the list as text.

use vstd::prelude::*;
use vstd::std_specs::cmp::PartialEqSpecImpl;
use vstd::std_specs::iter::IteratorSpec;
use vstd::string::StringExecFns;

use crate::text::{decimal, decimal_string};

verus! {

/// What [`Birthdays::list`] answers for a list without birthdays.
pub const EMPTY_LIST_TEXT: &'static str = "Список дней рождений пуст";

/// The first line of what [`Birthdays::list`] answers for any other list.
pub const LIST_HEADER: &'static str = "Список дней рождений:\n";

/// The mathematical value of a [`Birthday`]: its three fields as character
/// sequences.
pub ghost struct BirthdayView {
    pub name: Seq<char>,
    pub date: Seq<char>,
    pub username: Seq<char>,
}

/// One birthday: whose it is, on which day of which month, and the handle
/// under which the person is known in the chat (empty if none was given).
#[derive(Debug, Eq, Hash)]
pub struct Birthday {
    /// The name of the person.
    pub name: String,
    /// The day and month, written `DD-MM`.
    pub date: String,
    /// The handle of the person, without the leading `@`.
    pub username: String,
}

impl View for Birthday {
    type V = BirthdayView;

    open spec fn view(&self) -> BirthdayView {
        BirthdayView { name: self.name@, date: self.date@, username: self.username@ }
    }
}

impl Clone for Birthday {
    fn clone(&self) -> (copy: Self)
        ensures
            copy@ == self@,
    {
        Birthday {
            name: self.name.clone(),
            date: self.date.clone(),
            username: self.username.clone(),
        }
    }
}

impl PartialEq for Birthday {
    /// Two birthdays are equal when all three fields are.
    fn eq(&self, other: &Self) -> (equal: bool) {
        self.name == other.name && self.date == other.date && self.username == other.username
    }
}

impl PartialEqSpecImpl for Birthday {
    open spec fn obeys_eq_spec() -> bool {
        true
    }

    open spec fn eq_spec(&self, other: &Self) -> bool {
        self@ == other@
    }
}

impl Default for Birthday {
    fn default() -> (empty: Self)
        ensures
            empty@ == (BirthdayView { name: Seq::empty(), date: Seq::empty(), username: Seq::empty() }),
    {
        Birthday { name: String::new(), date: String::new(), username: String::new() }
    }
}

/// The values of a sequence of birthdays, in the same order.
pub open spec fn views(entries: Seq<Birthday>) -> Seq<BirthdayView> {
    entries.map_values(|b: Birthday| b@)
}

/// The birthdays of one chat, in the order in which they are numbered.
#[derive(Debug)]
pub struct Birthdays {
    birthdays: Vec<Birthday>,
}

impl View for Birthdays {
    type V = Seq<BirthdayView>;

    closed spec fn view(&self) -> Seq<BirthdayView> {
        views(self.birthdays@)
    }
}

impl Birthdays {
    /// The birthdays themselves, of which `self@` is the sequence of values.
    pub closed spec fn entries(&self) -> Seq<Birthday> {
        self.birthdays@
    }

    /// `self@` holds the value of each entry, in order.
    pub broadcast proof fn lemma_view_of_entries(&self)
        ensures
            #[trigger] self@ == views(self.entries()),
    {
    }

    /// Makes a list of the given birthdays, in their order.
    pub fn new(birthdays: Vec<Birthday>) -> (list: Self)
        ensures
            list.entries() == birthdays@,
            list@ == views(birthdays@),
    {
        Self { birthdays }
    }

    /// The number of birthdays in the list.
    pub fn len(&self) -> (n: usize)
        ensures
            n == self@.len(),
    {
        self.birthdays.len()
    }

    /// Whether the list holds no birthday.
    pub fn is_empty(&self) -> (empty: bool)
        ensures
            empty == (self@.len() == 0),
    {
        self.birthdays.len() == 0
    }

    /// The birthday numbered `index`, if there is one.
    pub fn get(&self, index: usize) -> (entry: Option<&Birthday>)
        ensures
            index < self@.len() ==> entry is Some && *entry->0 == self.entries()[index as int]
                && entry->0@ == self@[index as int],
            index >= self@.len() ==> entry is None,
    {
        if index < self.birthdays.len() {
            Some(&self.birthdays[index])
        } else {
            None
        }
    }

    /// Whether the list holds a birthday equal to `birthday`.
    pub fn contains(&self, birthday: &Birthday) -> (found: bool)
        ensures
            found == self@.contains(birthday@),
    {
        holds(&self.birthdays, birthday)
    }

    /// Adds `birthday` at the end of the list, whether or not the list
    /// already holds an equal one.
    pub fn append(&mut self, birthday: Birthday)
        ensures
            final(self)@ == old(self)@.push(birthday@),
    {
        self.birthdays.push(birthday);
    }

    /// Merges `other` into the list: the list then holds each birthday of
    /// either list once. Of equal birthdays the first stays, those of the
    /// list before those of `other`.
    pub fn extend(&mut self, other: Birthdays)
        ensures
            final(self)@ == merged(old(self)@, other@),
            final(self)@.no_duplicates(),
            final(self)@.to_set() == old(self)@.to_set().union(other@.to_set()),
    {
        let mut all: Vec<Birthday> = Vec::new();
        core::mem::swap(&mut self.birthdays, &mut all);
        let mut added = other.birthdays;
        all.append(&mut added);
        let ghost joined = all@;
        assert(views(joined) =~= old(self)@ + other@);
        let mut kept: Vec<Birthday> = Vec::new();
        for birthday in it: all
            invariant
                it.seq() == joined,
                views(kept@) == unique(views(joined.take(it.index()))),
        {
            assert(views(joined.take(it.index() + 1)).drop_last() =~= views(
                joined.take(it.index()),
            ));
            if !holds(&kept, &birthday) {
                kept.push(birthday);
            }
        }
        assert(joined.take(joined.len() as int) =~= joined);
        self.birthdays = kept;
        proof {
            lemma_merged_content(old(self)@, other@);
        }
    }

    /// Takes the birthday numbered `index` out of the list and returns it;
    /// those behind it move up by one. Without such a birthday the list
    /// stays as it is.
    pub fn remove_at(&mut self, index: usize) -> (removed: Option<Birthday>)
        ensures
            index < old(self)@.len() ==> removed is Some && removed->0@ == old(self)@[index as int]
                && final(self)@ == old(self)@.remove(index as int),
            index >= old(self)@.len() ==> removed is None && *final(self) == *old(self),
    {
        if index < self.birthdays.len() {
            let birthday = self.birthdays.remove(index);
            Some(birthday)
        } else {
            None
        }
    }

    /// The list as text for the chat: one numbered line for each birthday
    /// under a header, or a sentence that says that there is none.
    pub fn list(&self) -> (text: String)
        ensures
            text@ == listing(self@),
    {
        if self.birthdays.len() == 0 {
            String::from_str(EMPTY_LIST_TEXT)
        } else {
            let mut text = String::from_str(LIST_HEADER);
            let mut i: usize = 0;
            while i < self.birthdays.len()
                invariant
                    i <= self.birthdays.len(),
                    text@ == LIST_HEADER@ + listing_lines(views(self.birthdays@), i as nat),
                decreases self.birthdays.len() - i,
            {
                let birthday = &self.birthdays[i];
                let number = decimal_string(i as u64);
                text.append(number.as_str());
                text.append(". ");
                text.append(birthday.name.as_str());
                text.append(" - ");
                text.append(birthday.date.as_str());
                text.append(" ");
                text.append(birthday.username.as_str());
                text.append("\n");
                i += 1;
            }
            text
        }
    }

    /// Walks the birthdays in order.
    pub fn iter(&self) -> (iter: core::slice::Iter<'_, Birthday>)
        ensures
            iter.remaining() == self.entries().as_ref(),
            IteratorSpec::decrease(&iter) is Some,
            IteratorSpec::initial_value_relation(&iter, &iter),
    {
        self.birthdays.iter()
    }
}

impl Default for Birthdays {
    fn default() -> (list: Self)
        ensures
            list@ == Seq::<BirthdayView>::empty(),
    {
        Self { birthdays: Vec::new() }
    }
}

impl Clone for Birthdays {
    fn clone(&self) -> (copy: Self)
        ensures
            copy@ == self@,
    {
        let mut copies: Vec<Birthday> = Vec::new();
        let mut i: usize = 0;
        while i < self.birthdays.len()
            invariant
                i <= self.birthdays.len(),
                copies.len() == i,
                forall|j: int| 0 <= j < i ==> copies@[j]@ == self.birthdays@[j]@,
            decreases self.birthdays.len() - i,
        {
            copies.push(self.birthdays[i].clone());
            i += 1;
        }
        Self { birthdays: copies }
    }
}

/// Whether `entries` holds a birthday equal to `birthday`.
fn holds(entries: &Vec<Birthday>, birthday: &Birthday) -> (found: bool)
    ensures
        found == views(entries@).contains(birthday@),
{
    let mut i: usize = 0;
    while i < entries.len()
        invariant
            i <= entries.len(),
            forall|j: int| 0 <= j < i ==> views(entries@)[j] != birthday@,
        decreases entries.len() - i,
    {
        if entries[i] == *birthday {
            assert(views(entries@)[i as int] == birthday@);
            return true;
        }
        i += 1;
    }
    false
}

/// The line of [`Birthdays::list`] for the birthday numbered `index`.
pub open spec fn listing_line(index: nat, birthday: BirthdayView) -> Seq<char> {
    decimal(index) + ". "@ + birthday.name + " - "@ + birthday.date + " "@ + birthday.username
        + "\n"@
}

/// The lines of [`Birthdays::list`] for the first `count` birthdays.
pub open spec fn listing_lines(entries: Seq<BirthdayView>, count: nat) -> Seq<char>
    decreases count,
{
    if count == 0 {
        Seq::empty()
    } else {
        listing_lines(entries, (count - 1) as nat) + listing_line(
            (count - 1) as nat,
            entries[count - 1],
        )
    }
}

/// What [`Birthdays::list`] answers for a list with the given values.
pub open spec fn listing(entries: Seq<BirthdayView>) -> Seq<char> {
    if entries.len() == 0 {
        EMPTY_LIST_TEXT@
    } else {
        LIST_HEADER@ + listing_lines(entries, entries.len())
    }
}

/// `entries` without its repetitions: of equal birthdays only the first
/// stays, and what stays keeps its order.
pub open spec fn unique(entries: Seq<BirthdayView>) -> Seq<BirthdayView>
    decreases entries.len(),
{
    if entries.len() == 0 {
        Seq::empty()
    } else {
        let before = unique(entries.drop_last());
        if before.contains(entries.last()) {
            before
        } else {
            before.push(entries.last())
        }
    }
}

/// What a list holds after `other` was merged into it.
pub open spec fn merged(entries: Seq<BirthdayView>, other: Seq<BirthdayView>) -> Seq<BirthdayView> {
    unique(entries + other)
}

/// `unique` keeps every birthday, and each only once.
pub proof fn lemma_unique(entries: Seq<BirthdayView>)
    ensures
        unique(entries).no_duplicates(),
        forall|b: BirthdayView| unique(entries).contains(b) <==> entries.contains(b),
        unique(entries).to_set() == entries.to_set(),
        unique(entries).len() <= entries.len(),
    decreases entries.len(),
{
    let kept = unique(entries);
    if entries.len() > 0 {
        let shorter = entries.drop_last();
        let before = unique(shorter);
        let last = entries.last();
        lemma_unique(shorter);
        assert forall|b: BirthdayView| kept.contains(b) <==> entries.contains(b) by {
            if entries.contains(b) {
                let i = choose|i: int| 0 <= i < entries.len() && entries[i] == b;
                if i < entries.len() - 1 {
                    assert(shorter[i] == b);
                    assert(shorter.contains(b));
                    let j = choose|j: int| 0 <= j < before.len() && before[j] == b;
                    assert(kept[j] == b);
                } else if !before.contains(last) {
                    assert(kept[before.len() as int] == b);
                }
            }
            if kept.contains(b) {
                let j = choose|j: int| 0 <= j < kept.len() && kept[j] == b;
                if j < before.len() {
                    assert(shorter.contains(b));
                }
            }
        }
    }
}

/// A list without repetitions is left as it is.
pub proof fn lemma_unique_of_distinct(entries: Seq<BirthdayView>)
    requires
        entries.no_duplicates(),
    ensures
        unique(entries) == entries,
    decreases entries.len(),
{
    if entries.len() > 0 {
        lemma_unique_of_distinct(entries.drop_last());
    }
}

/// Birthdays that the list already holds add nothing to it.
pub proof fn lemma_unique_absorbs(entries: Seq<BirthdayView>, known: Seq<BirthdayView>)
    requires
        forall|i: int| 0 <= i < known.len() ==> entries.contains(#[trigger] known[i]),
    ensures
        unique(entries + known) == unique(entries),
    decreases known.len(),
{
    if known.len() > 0 {
        assert((entries + known).drop_last() =~= entries + known.drop_last());
        lemma_unique_absorbs(entries, known.drop_last());
        lemma_unique(entries);
    }
}

/// Merging is idempotent: a list merged with itself holds each of its
/// birthdays once, in the order of their first occurrence, and merging a
/// second time changes nothing more.
pub proof fn lemma_merge_idempotent(entries: Seq<BirthdayView>)
    ensures
        merged(entries, entries) == unique(entries),
        merged(entries, entries).to_set() == entries.to_set(),
        merged(entries, entries).no_duplicates(),
        entries.no_duplicates() ==> merged(entries, entries) == entries,
        merged(merged(entries, entries), merged(entries, entries)) == merged(entries, entries),
{
    lemma_unique_absorbs(entries, entries);
    lemma_unique(entries);
    if entries.no_duplicates() {
        lemma_unique_of_distinct(entries);
    }
    let once = unique(entries);
    lemma_unique_absorbs(once, once);
    lemma_unique_of_distinct(once);
}

/// A merge holds exactly the birthdays of both lists, each once.
pub proof fn lemma_merged_content(entries: Seq<BirthdayView>, other: Seq<BirthdayView>)
    ensures
        merged(entries, other).no_duplicates(),
        merged(entries, other).to_set() == entries.to_set().union(other.to_set()),
{
    lemma_unique(entries + other);
    vstd::seq_lib::seq_to_set_distributes_over_add(entries, other);
}

} // verus!

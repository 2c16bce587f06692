//! The form for publishing a message: a payload and a table of attributes.
//!
//! The rows of the table are edited freely, so two rows may come to hold the
//! same key. A message cannot hold an attribute twice; the form is valid,
//! and can be published, only while the keys of its rows differ from one
//! another.

use crate::actions::{publish_message, Submission};
use crate::message::FrontendMessage;
use crate::model::{PubsubMessageToPublish, TopicName};
use crate::string_map::{map_of_pairs, StringMap};
use vstd::prelude::*;

verus! {

/// The number of rows whose key is `key`.
pub open spec fn count_of(rows: Seq<(String, String)>, key: Seq<char>) -> nat
    decreases rows.len(),
{
    if rows.len() == 0 {
        0
    } else {
        let last: nat = if rows.last().0@ == key {
            1
        } else {
            0
        };
        count_of(rows.drop_last(), key) + last
    }
}

/// The places of the rows whose key is `key`, in rising order.
pub open spec fn indices_of(rows: Seq<(String, String)>, key: Seq<char>) -> Seq<usize>
    decreases rows.len(),
{
    if rows.len() == 0 {
        Seq::empty()
    } else if rows.last().0@ == key {
        indices_of(rows.drop_last(), key).push((rows.len() - 1) as usize)
    } else {
        indices_of(rows.drop_last(), key)
    }
}

/// For each key that some row holds, the number of rows that hold it.
pub open spec fn counts_of(rows: Seq<(String, String)>) -> Map<Seq<char>, usize> {
    Map::new(|key: Seq<char>| count_of(rows, key) > 0, |key: Seq<char>| count_of(rows, key) as usize)
}

/// Whether no key is counted twice.
pub open spec fn all_single(counts: Map<Seq<char>, usize>) -> bool {
    forall|key: Seq<char>| #[trigger] counts.contains_key(key) ==> counts[key] < 2
}

/// Whether the keys of the rows differ from one another.
pub open spec fn keys_distinct(rows: Seq<(String, String)>) -> bool {
    forall|i: int, j: int| 0 <= i < j < rows.len() ==> rows[i].0@ != rows[j].0@
}

/// The rows of attributes of the form, in the order in which they are shown.
#[derive(Debug, Hash)]
pub struct AttributesForm(Vec<(String, String)>);

/// The form under its shorter name.
pub type Attributes = AttributesForm;

/// How often each key occurs in a form, as it was when the validator was
/// made.
#[derive(Debug, Clone)]
pub struct AttributesFormValidator(StringMap<usize>);

/// The validator under its shorter name.
pub type AttributesValidator = AttributesFormValidator;

impl Default for AttributesForm {
    fn default() -> (form: Self)
        ensures
            form.rows() == Seq::<(String, String)>::empty(),
    {
        AttributesForm(Vec::new())
    }
}

impl AttributesForm {
    /// The rows, each a key and a value.
    pub closed spec fn rows(&self) -> Seq<(String, String)> {
        self.0@
    }

    /// Counts how often each key occurs.
    pub fn validator(&self) -> (validator: AttributesFormValidator)
        ensures
            validator.counts() == counts_of(self.rows()),
    {
        let mut counts: StringMap<usize> = StringMap::new();
        let mut i: usize = 0;
        while i < self.0.len()
            invariant
                i <= self.0@.len(),
                forall|key: Seq<char>| #[trigger]
                    counts@.contains_key(key) <==> count_of(self.0@.take(i as int), key) > 0,
                forall|key: Seq<char>| #[trigger]
                    counts@.contains_key(key) ==> counts@[key] == count_of(
                        self.0@.take(i as int),
                        key,
                    ),
            decreases self.0@.len() - i,
        {
            let key = &self.0[i].0;
            proof {
                lemma_count_bound(self.0@.take(i as int), key@);
                assert(self.0@.take(i + 1).drop_last() =~= self.0@.take(i as int));
                assert(self.0@.take(i + 1).last() == self.0@[i as int]);
            }
            let seen: usize = match counts.get(key.as_str()) {
                Some(count) => *count,
                None => 0,
            };
            counts.insert(key.clone(), seen + 1);
            i += 1;
        }
        proof {
            assert(self.0@.take(self.0@.len() as int) =~= self.0@);
            assert(counts@ =~= counts_of(self.0@));
        }
        AttributesFormValidator(counts)
    }

    /// For each key that some row holds, the places of the rows that hold
    /// it, in rising order.
    pub fn key_indices_map(&self) -> (places: StringMap<Vec<usize>>)
        ensures
            forall|key: Seq<char>| #[trigger]
                places@.contains_key(key) <==> indices_of(self.rows(), key).len() > 0,
            forall|key: Seq<char>| #[trigger]
                places@.contains_key(key) ==> places@[key]@ == indices_of(self.rows(), key),
    {
        let mut places: StringMap<Vec<usize>> = StringMap::new();
        let mut i: usize = 0;
        while i < self.0.len()
            invariant
                i <= self.0@.len(),
                forall|key: Seq<char>| #[trigger]
                    places@.contains_key(key) <==> indices_of(self.0@.take(i as int), key).len()
                        > 0,
                forall|key: Seq<char>| #[trigger]
                    places@.contains_key(key) ==> places@[key]@ == indices_of(
                        self.0@.take(i as int),
                        key,
                    ),
            decreases self.0@.len() - i,
        {
            let key = &self.0[i].0;
            proof {
                assert(self.0@.take(i + 1).drop_last() =~= self.0@.take(i as int));
                assert(self.0@.take(i + 1).last() == self.0@[i as int]);
            }
            let mut held: Vec<usize> = match places.remove(key.as_str()) {
                Some(held) => held,
                None => Vec::new(),
            };
            held.push(i);
            places.insert(key.clone(), held);
            i += 1;
        }
        proof {
            assert(self.0@.take(self.0@.len() as int) =~= self.0@);
        }
        places
    }

    /// Whether the form has no row.
    pub fn is_empty(&self) -> (empty: bool)
        ensures
            empty == (self.rows().len() == 0),
    {
        self.0.len() == 0
    }

    /// The number of rows.
    pub fn len(&self) -> (count: usize)
        ensures
            count == self.rows().len(),
    {
        self.0.len()
    }

    /// Adds a row at the end.
    pub fn push(&mut self, attr: (String, String))
        ensures
            final(self).rows() == old(self).rows().push(attr),
    {
        self.0.push(attr);
    }

    /// The row at place `index`, if the form has that many rows.
    pub fn row(&self, index: usize) -> (row: Option<(&String, &String)>)
        ensures
            row == if index < self.rows().len() {
                Some((&self.rows()[index as int].0, &self.rows()[index as int].1))
            } else {
                None
            },
    {
        if index < self.0.len() {
            Some((&self.0[index].0, &self.0[index].1))
        } else {
            None
        }
    }

    /// Puts `attr` in place of the row at `index`, if the form has that many
    /// rows. Says whether it did.
    pub fn set_row(&mut self, index: usize, attr: (String, String)) -> (done: bool)
        ensures
            done == (index < old(self).rows().len()),
            final(self).rows() == if done {
                old(self).rows().update(index as int, attr)
            } else {
                old(self).rows()
            },
    {
        if index < self.0.len() {
            self.0.set(index, attr);
            true
        } else {
            false
        }
    }

    /// Takes the row at `index` out, if the form has that many rows, and
    /// hands it back. The rows behind it move up.
    pub fn remove(&mut self, index: usize) -> (row: Option<(String, String)>)
        ensures
            row == if index < old(self).rows().len() {
                Some(old(self).rows()[index as int])
            } else {
                None
            },
            final(self).rows() == if index < old(self).rows().len() {
                old(self).rows().remove(index as int)
            } else {
                old(self).rows()
            },
    {
        if index < self.0.len() {
            Some(self.0.remove(index))
        } else {
            None
        }
    }

    /// The attributes that the rows stand for. Where two rows hold the same
    /// key, the later one counts.
    pub fn to_attributes(&self) -> (attributes: StringMap<String>)
        ensures
            attributes@ == map_of_pairs(self.rows()),
    {
        let mut pairs: Vec<(String, String)> = Vec::new();
        let mut i: usize = 0;
        while i < self.0.len()
            invariant
                i <= self.0@.len(),
                pairs@ == self.0@.take(i as int),
            decreases self.0@.len() - i,
        {
            pairs.push((self.0[i].0.clone(), self.0[i].1.clone()));
            assert(pairs@ =~= self.0@.take(i + 1));
            i += 1;
        }
        assert(self.0@.take(self.0@.len() as int) =~= self.0@);
        StringMap::from_pairs(pairs)
    }
}

impl Default for AttributesFormValidator {
    /// The validator of a form without rows.
    fn default() -> (validator: Self)
        ensures
            validator.counts() == Map::<Seq<char>, usize>::empty(),
    {
        AttributesFormValidator(StringMap::new())
    }
}

impl AttributesFormValidator {
    /// For each key that some row held, the number of rows that held it.
    pub closed spec fn counts(&self) -> Map<Seq<char>, usize> {
        self.0@
    }

    /// Whether no key occurred twice.
    pub fn is_valid(&self) -> (valid: bool)
        ensures
            valid == all_single(self.counts()),
    {
        let count = self.0.len();
        let mut i: usize = 0;
        while i < count
            invariant
                i <= count,
                count == self.0.keys().len(),
                forall|k: Seq<char>| self.0.keys().contains(k) <==> #[trigger] self.0@.contains_key(k),
                forall|j: int| 0 <= j < i ==> self.0@[#[trigger] self.0.keys()[j]] < 2,
            decreases count - i,
        {
            match self.0.entry(i) {
                Some((_, occurrences)) => {
                    if *occurrences >= 2 {
                        return false;
                    }
                },
                None => {},
            }
            i += 1;
        }
        proof {
            assert forall|key: Seq<char>| #[trigger] self.0@.contains_key(key) implies self.0@[key]
                < 2 by {
                let j = self.0.keys().index_of(key);
                assert(self.0.keys()[j] == key);
            }
        }
        true
    }

    /// Whether `key` occurred, and only once.
    pub fn is_key_valid(&self, key: &str) -> (valid: bool)
        ensures
            valid == (self.counts().contains_key(key@) && self.counts()[key@] < 2),
    {
        match self.0.get(key) {
            Some(count) => *count < 2,
            None => false,
        }
    }
}

/// The form for one topic: the payload as typed and the rows of attributes.
#[derive(Debug)]
pub struct PublishView {
    pub data: String,
    pub attributes: AttributesForm,
}

impl Default for PublishView {
    fn default() -> (view: Self)
        ensures
            view.data@ == Seq::<char>::empty(),
            view.attributes.rows() == Seq::<(String, String)>::empty(),
    {
        PublishView { data: String::new(), attributes: AttributesForm::default() }
    }
}

impl PublishView {
    /// Adds an empty row to the attributes.
    pub fn add_attribute(&mut self)
        ensures
            final(self).data == old(self).data,
            final(self).attributes.rows().len() == old(self).attributes.rows().len() + 1,
            final(self).attributes.rows().drop_last() == old(self).attributes.rows(),
            final(self).attributes.rows().last().0@ == Seq::<char>::empty(),
            final(self).attributes.rows().last().1@ == Seq::<char>::empty(),
    {
        let ghost before = self.attributes.rows();
        self.attributes.push((String::new(), String::new()));
        assert(self.attributes.rows().drop_last() =~= before);
    }

    /// Whether the form can be published: the keys of its rows differ from
    /// one another.
    pub fn can_publish(&self) -> (valid: bool)
        ensures
            valid == keys_distinct(self.attributes.rows()),
    {
        proof {
            assert(self.attributes.rows().len() == self.attributes.0.len());
            lemma_valid_iff_distinct(self.attributes.rows());
        }
        self.attributes.validator().is_valid()
    }

    /// The message that the form stands for.
    pub fn message(&self) -> (message: PubsubMessageToPublish)
        ensures
            message.data() == self.data@,
            message.attributes() == map_of_pairs(self.attributes.rows()),
    {
        PubsubMessageToPublish::new(self.data.clone(), self.attributes.to_attributes())
    }

    /// Publishes the form to the topic, if it can be published.
    pub fn publish(&self, topic: &TopicName) -> (submission: Option<Submission>)
        ensures
            keys_distinct(self.attributes.rows()) ==> {
                &&& submission matches Some(sent)
                &&& sent.delay_millis is None
                &&& sent.must_arrive
                &&& sent.message matches FrontendMessage::PublishMessage(to, message)
                &&& to == *topic
                &&& message.data() == self.data@
                &&& message.attributes() == map_of_pairs(self.attributes.rows())
            },
            !keys_distinct(self.attributes.rows()) ==> submission is None,
    {
        if self.can_publish() {
            Some(publish_message(topic, self.message()))
        } else {
            None
        }
    }
}

/// A key occurs at most as often as there are rows.
pub proof fn lemma_count_bound(rows: Seq<(String, String)>, key: Seq<char>)
    ensures
        count_of(rows, key) <= rows.len(),
    decreases rows.len(),
{
    if rows.len() > 0 {
        lemma_count_bound(rows.drop_last(), key);
    }
}

/// A key is counted exactly where some row holds it.
pub proof fn lemma_count_positive(rows: Seq<(String, String)>, key: Seq<char>)
    ensures
        count_of(rows, key) > 0 <==> exists|i: int| 0 <= i < rows.len() && rows[i].0@ == key,
    decreases rows.len(),
{
    if rows.len() > 0 {
        let before = rows.drop_last();
        lemma_count_positive(before, key);
        if count_of(rows, key) > 0 {
            if rows.last().0@ == key {
                assert(rows[rows.len() - 1].0@ == key);
            } else {
                let i = choose|i: int| 0 <= i < before.len() && before[i].0@ == key;
                assert(rows[i].0@ == key);
            }
        }
        if exists|i: int| 0 <= i < rows.len() && rows[i].0@ == key {
            let i = choose|i: int| 0 <= i < rows.len() && rows[i].0@ == key;
            if i < rows.len() - 1 {
                assert(before[i].0@ == key);
            }
        }
    }
}

/// A key is counted twice or more exactly where two rows hold it.
pub proof fn lemma_count_twice(rows: Seq<(String, String)>, key: Seq<char>)
    ensures
        count_of(rows, key) >= 2 <==> exists|i: int, j: int|
            0 <= i < j < rows.len() && rows[i].0@ == key && rows[j].0@ == key,
    decreases rows.len(),
{
    if rows.len() > 0 {
        let before = rows.drop_last();
        lemma_count_twice(before, key);
        lemma_count_positive(before, key);
        if count_of(rows, key) >= 2 {
            if count_of(before, key) >= 2 {
                let (i, j) = choose|i: int, j: int|
                    0 <= i < j < before.len() && before[i].0@ == key && before[j].0@ == key;
                assert(rows[i].0@ == key && rows[j].0@ == key);
            } else {
                let i = choose|i: int| 0 <= i < before.len() && before[i].0@ == key;
                let j = rows.len() - 1;
                assert(rows[i].0@ == key && rows[j].0@ == key);
            }
        }
        if exists|i: int, j: int|
            0 <= i < j < rows.len() && rows[i].0@ == key && rows[j].0@ == key {
            let (i, j) = choose|i: int, j: int|
                0 <= i < j < rows.len() && rows[i].0@ == key && rows[j].0@ == key;
            if j < rows.len() - 1 {
                assert(before[i].0@ == key && before[j].0@ == key);
            } else {
                assert(before[i].0@ == key);
            }
        }
    }
}

/// A form is valid exactly where the keys of its rows differ from one
/// another. The form has no more rows than a machine can count.
pub proof fn lemma_valid_iff_distinct(rows: Seq<(String, String)>)
    requires
        rows.len() <= usize::MAX,
    ensures
        all_single(counts_of(rows)) <==> keys_distinct(rows),
{
    if all_single(counts_of(rows)) {
        assert forall|i: int, j: int| 0 <= i < j < rows.len() implies rows[i].0@
            != rows[j].0@ by {
            if rows[i].0@ == rows[j].0@ {
                let key = rows[i].0@;
                assert(0 <= i < j < rows.len() && rows[i].0@ == key && rows[j].0@ == key);
                lemma_count_twice(rows, key);
                lemma_count_bound(rows, key);
                assert(count_of(rows, key) >= 2);
                assert(counts_of(rows).contains_key(key));
                assert(counts_of(rows)[key] >= 2);
            }
        }
    }
    if keys_distinct(rows) {
        assert forall|key: Seq<char>| #[trigger]
            counts_of(rows).contains_key(key) implies counts_of(rows)[key] < 2 by {
            lemma_count_twice(rows, key);
            lemma_count_bound(rows, key);
        }
    }
}

/// In a valid form every row is an attribute of the message: no row is
/// lost, and each key maps to the value of its row.
pub proof fn lemma_valid_form_keeps_rows(rows: Seq<(String, String)>, i: int)
    requires
        keys_distinct(rows),
        0 <= i < rows.len(),
    ensures
        map_of_pairs(rows).contains_key(rows[i].0@),
        map_of_pairs(rows)[rows[i].0@] == rows[i].1,
    decreases rows.len(),
{
    if i < rows.len() - 1 {
        let before = rows.drop_last();
        assert(keys_distinct(before)) by {
            assert forall|a: int, b: int| 0 <= a < b < before.len() implies before[a].0@
                != before[b].0@ by {
                assert(rows[a].0@ != rows[b].0@);
            }
        }
        lemma_valid_form_keeps_rows(before, i);
        assert(rows[i].0@ != rows[rows.len() - 1].0@);
        assert(before[i] == rows[i]);
    }
}

} // verus!

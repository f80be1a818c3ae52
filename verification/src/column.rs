//! Columns: a name and a sequence of values, some of them absent.

use crate::calendar::TimeUnit;
use vstd::prelude::*;

verus! {

/// A column of text. An absent value is a null.
#[derive(Clone, Debug, PartialEq, Eq)]
pub struct StringColumn {
    pub name: String,
    pub values: Vec<Option<String>>,
}

/// A column of days, counted from 1970-01-01.
#[derive(Clone, Debug, PartialEq, Eq)]
pub struct DateColumn {
    pub name: String,
    pub values: Vec<Option<i32>>,
}

/// A column of times of day, in nanoseconds from midnight.
#[derive(Clone, Debug, PartialEq, Eq)]
pub struct TimeColumn {
    pub name: String,
    pub values: Vec<Option<i64>>,
}

/// A column of date-times, in ticks of `time_unit` from the epoch, with the
/// zone that the values are tagged with, if any.
#[derive(Clone, Debug, PartialEq, Eq)]
pub struct DatetimeColumn {
    pub name: String,
    pub values: Vec<Option<i64>>,
    pub time_unit: TimeUnit,
    pub time_zone: Option<String>,
}

/// The text of a value that may be absent.
pub open spec fn text_of(value: Option<String>) -> Option<Seq<char>> {
    match value {
        Some(s) => Some(s@),
        None => None,
    }
}

/// The index of the first value that is present, if there is one.
pub open spec fn first_present(texts: Seq<Option<Seq<char>>>) -> Option<int>
    decreases texts.len(),
{
    if texts.len() == 0 {
        None
    } else if texts[0] is Some {
        Some(0)
    } else {
        match first_present(texts.drop_first()) {
            Some(k) => Some(k + 1),
            None => None,
        }
    }
}

/// Below the first present value nothing is present; without one, nothing is.
pub proof fn lemma_first_present(texts: Seq<Option<Seq<char>>>)
    ensures
        match first_present(texts) {
            Some(k) => 0 <= k < texts.len() && texts[k] is Some && forall|j: int|
                0 <= j < k ==> texts[j] is None,
            None => forall|j: int| 0 <= j < texts.len() ==> texts[j] is None,
        },
    decreases texts.len(),
{
    if texts.len() > 0 && texts[0] is None {
        let rest = texts.drop_first();
        lemma_first_present(rest);
        match first_present(rest) {
            Some(k) => {
                assert forall|j: int| 0 <= j < k + 1 implies texts[j] is None by {
                    if j > 0 {
                        assert(texts[j] == rest[j - 1]);
                    }
                }
            },
            None => {
                assert forall|j: int| 0 <= j < texts.len() implies texts[j] is None by {
                    if j > 0 {
                        assert(texts[j] == rest[j - 1]);
                    }
                }
            },
        }
    }
}

impl StringColumn {
    /// The texts of the column, position by position.
    pub open spec fn texts(&self) -> Seq<Option<Seq<char>>> {
        Seq::new(self.values@.len(), |i: int| text_of(self.values@[i]))
    }

    /// A column with the given name and values.
    pub fn new(name: &str, values: Vec<Option<String>>) -> (column: StringColumn)
        ensures
            column.name@ == name@,
            column.values == values,
    {
        StringColumn { name: name.to_owned(), values }
    }

    /// The number of values, nulls included.
    pub fn len(&self) -> (n: usize)
        ensures
            n == self.texts().len(),
    {
        self.values.len()
    }

    /// The name of the column.
    pub fn name(&self) -> (name: &str)
        ensures
            name@ == self.name@,
    {
        self.name.as_str()
    }

    /// The value at a position, or nothing where it is null.
    pub fn get(&self, index: usize) -> (value: Option<&str>)
        requires
            index < self.texts().len(),
        ensures
            match value {
                Some(s) => self.texts()[index as int] == Some(s@),
                None => self.texts()[index as int] is None,
            },
    {
        match &self.values[index] {
            Some(s) => Some(s.as_str()),
            None => None,
        }
    }

    /// The position of the first value that is not null.
    pub fn first_non_null(&self) -> (index: Option<usize>)
        ensures
            match index {
                Some(k) => first_present(self.texts()) == Some(k as int),
                None => first_present(self.texts()) is None,
            },
    {
        let mut i: usize = 0;
        while i < self.values.len()
            invariant
                i <= self.values@.len(),
                forall|j: int| 0 <= j < i ==> self.texts()[j] is None,
            decreases self.values@.len() - i,
        {
            if self.values[i].is_some() {
                proof {
                    lemma_first_present(self.texts());
                    assert(self.texts()[i as int] is Some);
                    match first_present(self.texts()) {
                        Some(k) => {
                            if k < i {
                                assert(self.texts()[k] is None);
                            }
                        },
                        None => {},
                    }
                }
                return Some(i);
            }
            assert(self.texts()[i as int] is None);
            i += 1;
        }
        proof {
            lemma_first_present(self.texts());
            match first_present(self.texts()) {
                Some(k) => {
                    assert(self.texts()[k] is None);
                },
                None => {},
            }
        }
        None
    }
}

impl DatetimeColumn {
    /// The zone the values are tagged with, as text.
    pub open spec fn zone_text(&self) -> Option<Seq<char>> {
        text_of(self.time_zone)
    }
}

} // verus!

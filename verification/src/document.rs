//! Structured documents: the tree of values that a response body or a
//! settings file parses to, and the optional steps that read it.

use vstd::prelude::*;
use crate::text::same_text;

verus! {

/// A number of a document. Whole numbers are kept as integers; any other
/// number is kept as the text it was written with.
#[derive(Debug, PartialEq, Eq)]
pub enum Number {
    Unsigned(u64),
    Negative(i64),
    Real(String),
}

/// A structured document.
#[derive(Debug, PartialEq, Eq)]
pub enum Json {
    Null,
    Bool(bool),
    Number(Number),
    Text(String),
    Array(Vec<Json>),
    /// The members in the order they were written. Where a key occurs more
    /// than once, the first occurrence is the one that is read.
    Object(Vec<(String, Json)>),
}

/// The value of the first member named `key`, if there is one.
pub open spec fn lookup(members: Seq<(String, Json)>, key: Seq<char>) -> Option<Json>
    decreases members.len(),
{
    if members.len() == 0 {
        None
    } else if members[0].0@ == key {
        Some(members[0].1)
    } else {
        lookup(members.drop_first(), key)
    }
}

impl Json {
    /// The member named `key` of an object; nothing for a missing member
    /// and for a value that is not an object.
    pub open spec fn spec_get(self, key: Seq<char>) -> Option<Json> {
        match self {
            Json::Object(members) => lookup(members@, key),
            _ => None,
        }
    }

    /// The element at `index` of an array; nothing past its end and for a
    /// value that is not an array.
    pub open spec fn spec_at(self, index: int) -> Option<Json> {
        match self {
            Json::Array(items) => if 0 <= index < items@.len() {
                Some(items@[index])
            } else {
                None
            },
            _ => None,
        }
    }

    /// The characters of a text value; nothing for any other value.
    pub open spec fn spec_str(self) -> Option<Seq<char>> {
        match self {
            Json::Text(s) => Some(s@),
            _ => None,
        }
    }

    /// The elements of an array; nothing for any other value.
    pub open spec fn spec_array(self) -> Option<Seq<Json>> {
        match self {
            Json::Array(items) => Some(items@),
            _ => None,
        }
    }

    /// A number that is a whole number from 0 to `u64::MAX`; nothing for
    /// any other value.
    pub open spec fn spec_u64(self) -> Option<u64> {
        match self {
            Json::Number(Number::Unsigned(n)) => Some(n),
            _ => None,
        }
    }

    /// The text found by going to member `outer` and from there to member
    /// `inner`; nothing where a step is missing or the value found is not
    /// text.
    pub open spec fn spec_nested_str(self, outer: Seq<char>, inner: Seq<char>) -> Option<
        Seq<char>,
    > {
        match self.spec_get(outer) {
            Some(node) => match node.spec_get(inner) {
                Some(leaf) => leaf.spec_str(),
                None => None,
            },
            None => None,
        }
    }

    /// Reads the member named `key`.
    pub fn get(&self, key: &str) -> (r: Option<&Json>)
        ensures
            match r {
                Some(v) => self.spec_get(key@) == Some(*v),
                None => self.spec_get(key@) is None,
            },
    {
        match self {
            Json::Object(members) => {
                let mut i: usize = 0;
                assert(members@.skip(0) =~= members@);
                while i < members.len()
                    invariant
                        i <= members.len(),
                        self.spec_get(key@) == lookup(members@, key@),
                        lookup(members@, key@) == lookup(members@.skip(i as int), key@),
                    decreases members.len() - i,
                {
                    let ghost rest = members@.skip(i as int);
                    assert(rest[0] == members@[i as int]);
                    assert(rest.drop_first() =~= members@.skip(i + 1));
                    if same_text(members[i].0.as_str(), key) {
                        return Some(&members[i].1);
                    }
                    i += 1;
                }
                None
            },
            _ => None,
        }
    }

    /// Reads the element at `index`.
    pub fn at(&self, index: usize) -> (r: Option<&Json>)
        ensures
            match r {
                Some(v) => self.spec_at(index as int) == Some(*v),
                None => self.spec_at(index as int) is None,
            },
    {
        match self {
            Json::Array(items) => if index < items.len() {
                Some(&items[index])
            } else {
                None
            },
            _ => None,
        }
    }

    /// Reads a text value.
    pub fn as_str(&self) -> (r: Option<&str>)
        ensures
            match r {
                Some(s) => self.spec_str() == Some(s@),
                None => self.spec_str() is None,
            },
    {
        match self {
            Json::Text(s) => Some(s.as_str()),
            _ => None,
        }
    }

    /// Reads an array.
    pub fn as_array(&self) -> (r: Option<&Vec<Json>>)
        ensures
            match r {
                Some(items) => self.spec_array() == Some(items@),
                None => self.spec_array() is None,
            },
    {
        match self {
            Json::Array(items) => Some(items),
            _ => None,
        }
    }

    /// Reads a whole number that is not negative.
    pub fn as_u64(&self) -> (r: Option<u64>)
        ensures
            r == self.spec_u64(),
    {
        match self {
            Json::Number(Number::Unsigned(n)) => Some(*n),
            _ => None,
        }
    }

    /// Reads the text at member `inner` of member `outer`.
    pub fn nested_str(&self, outer: &str, inner: &str) -> (r: Option<&str>)
        ensures
            match r {
                Some(s) => self.spec_nested_str(outer@, inner@) == Some(s@),
                None => self.spec_nested_str(outer@, inner@) is None,
            },
    {
        match self.get(outer) {
            Some(node) => match node.get(inner) {
                Some(leaf) => leaf.as_str(),
                None => None,
            },
            None => None,
        }
    }
}

} // verus!

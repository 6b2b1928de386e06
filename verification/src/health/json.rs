//! JSON documents.

use vstd::prelude::*;

verus! {

/// A JSON value. A number is kept as its text.
#[derive(Debug)]
pub enum Json {
    Null,
    Bool(bool),
    Number(String),
    Str(String),
    Array(Vec<Json>),
    Object(Vec<(String, Json)>),
}

/// The value of the first entry with this key.
pub open spec fn entry(entries: Seq<(String, Json)>, key: Seq<char>) -> Option<Json>
    decreases entries.len(),
{
    if entries.len() == 0 {
        None
    } else if entries[0].0@ == key {
        Some(entries[0].1)
    } else {
        entry(entries.drop_first(), key)
    }
}

impl Json {
    /// The value under a key of an object.
    pub open spec fn field(self, key: Seq<char>) -> Option<Json> {
        match self {
            Json::Object(entries) => entry(entries@, key),
            _ => None,
        }
    }

    /// The value under a path of two keys.
    pub open spec fn field2(self, key1: Seq<char>, key2: Seq<char>) -> Option<Json> {
        match self.field(key1) {
            Some(value) => value.field(key2),
            None => None,
        }
    }

    /// The value under a path of three keys.
    pub open spec fn field3(self, key1: Seq<char>, key2: Seq<char>, key3: Seq<char>) -> Option<
        Json,
    > {
        match self.field2(key1, key2) {
            Some(value) => value.field(key3),
            None => None,
        }
    }

    /// The value under a key of an object; nothing else has keys.
    pub fn get(&self, key: &str) -> (r: Option<&Json>)
        ensures
            r.is_some() == self.field(key@).is_some(),
            r matches Some(value) ==> self.field(key@) == Some(*value),
    {
        match self {
            Json::Object(entries) => {
                let wanted: String = key.to_owned();
                let mut i: usize = 0;
                assert(entries@.skip(0) =~= entries@);
                while i < entries.len()
                    invariant
                        i <= entries@.len(),
                        wanted@ == key@,
                        self.field(key@) == entry(entries@, key@),
                        entry(entries@, key@) == entry(entries@.skip(i as int), key@),
                    decreases entries@.len() - i,
                {
                    assert(entries@.skip(i as int)[0] == entries@[i as int]);
                    if entries[i].0 == wanted {
                        return Some(&entries[i].1);
                    }
                    assert(entries@.skip(i as int).drop_first() =~= entries@.skip(i + 1));
                    i += 1;
                }
                None
            },
            _ => None,
        }
    }

    /// The value under a path of two keys.
    pub fn get2(&self, key1: &str, key2: &str) -> (r: Option<&Json>)
        ensures
            r.is_some() == self.field2(key1@, key2@).is_some(),
            r matches Some(value) ==> self.field2(key1@, key2@) == Some(*value),
    {
        match self.get(key1) {
            Some(value) => value.get(key2),
            None => None,
        }
    }

    /// The value under a path of three keys.
    pub fn get3(&self, key1: &str, key2: &str, key3: &str) -> (r: Option<&Json>)
        ensures
            r.is_some() == self.field3(key1@, key2@, key3@).is_some(),
            r matches Some(value) ==> self.field3(key1@, key2@, key3@) == Some(*value),
    {
        match self.get2(key1, key2) {
            Some(value) => value.get(key3),
            None => None,
        }
    }
}

/// The first value that is there.
pub open spec fn first_of(first: Option<Json>, second: Option<Json>) -> Option<Json> {
    match first {
        Some(_) => first,
        None => second,
    }
}

/// The string that a value is, if it is there and is one.
pub open spec fn string_of(value: Option<Json>) -> Option<String> {
    match value {
        Some(Json::Str(text)) => Some(text),
        _ => None,
    }
}

/// A copy of the string that a value is, if it is there and is one.
pub fn as_string(value: Option<&Json>) -> (r: Option<String>)
    ensures
        r == string_of(
            match value {
                Some(value) => Some(*value),
                None => None,
            },
        ),
{
    match value {
        Some(Json::Str(text)) => Some(text.clone()),
        _ => None,
    }
}

} // verus!

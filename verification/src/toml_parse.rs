//! Reading raw persisted metadata text.
//!
//! Metadata sidecars are TOML documents. The parser is the `toml` crate's;
//! the library sees a parsed document only as its entries: each key with the
//! text of its value when that value is a TOML string, or with no text when
//! it is of any other TOML kind. That is all the schemas here inspect.

use vstd::prelude::*;

verus! {

/// The entries of the TOML document `s`, in the order the parser hands them
/// out: `None` when `s` is not a well-formed TOML document; otherwise each
/// key paired with `Some` of its text when the value is a TOML string and
/// with `None` otherwise. A function of the text alone.
pub uninterp spec fn toml_entries_of(s: Seq<char>) -> Option<
    Seq<(Seq<char>, Option<Seq<char>>)>,
>;

/// Relies on `str::parse::<toml::Table>` (the toml crate's document parser),
/// whose result depends on the input text alone, and on
/// `toml::map::Map::into_iter`, which hands out each entry of the parsed
/// table once; the match keeps a `toml::Value::String`'s text and drops the
/// payload of every other value kind.
#[verifier::external_body]
pub fn parse_toml_entries(input: &str) -> (r: Option<Vec<(String, Option<String>)>>)
    ensures
        match r {
            Some(v) => toml_entries_of(input@) == Some(v.deep_view()),
            None => toml_entries_of(input@) is None,
        },
{
    match input.parse::<toml::Table>() {
        Ok(table) => Some(
            table
                .into_iter()
                .map(|(key, value)| match value {
                    toml::Value::String(text) => (key, Some(text)),
                    _ => (key, None),
                })
                .collect(),
        ),
        Err(_) => None,
    }
}

/// `Some` of the text of the single entry when `entries` is exactly one
/// string-valued entry under `key`, `None` otherwise.
pub open spec fn one_string_entry(
    entries: Seq<(Seq<char>, Option<Seq<char>>)>,
    key: Seq<char>,
) -> Option<Seq<char>> {
    if entries.len() == 1 && entries[0].0 == key && entries[0].1 is Some {
        entries[0].1
    } else {
        None
    }
}

/// Picks the single string-valued entry under `key`, if the document's
/// entries are exactly that.
pub fn read_one_string_entry(entries: &Vec<(String, Option<String>)>, key: &String) -> (r: Option<
    String,
>)
    ensures
        match r {
            Some(s) => one_string_entry(entries.deep_view(), key@) == Some(s@),
            None => one_string_entry(entries.deep_view(), key@) is None,
        },
{
    if entries.len() != 1 {
        return None;
    }
    let entry = &entries[0];
    if !entry.0.eq(key) {
        proof {
            assert(entries.deep_view()[0].0 == entry.0@);
        }
        return None;
    }
    match &entry.1 {
        Some(text) => {
            let r = text.clone();
            proof {
                assert(entries.deep_view()[0].1 == Some(text@));
            }
            Some(r)
        },
        None => {
            proof {
                assert(entries.deep_view()[0].1 is None);
            }
            None
        },
    }
}

/// `Some` of the two texts when `entries` is exactly two string-valued
/// entries under `key_a` then `key_b`, in that order, `None` otherwise.
pub open spec fn two_string_entries(
    entries: Seq<(Seq<char>, Option<Seq<char>>)>,
    key_a: Seq<char>,
    key_b: Seq<char>,
) -> Option<(Seq<char>, Seq<char>)> {
    if entries.len() == 2 && entries[0].0 == key_a && entries[0].1 is Some && entries[1].0 == key_b
        && entries[1].1 is Some {
        Some((entries[0].1->0, entries[1].1->0))
    } else {
        None
    }
}

/// Picks the two string-valued entries under `key_a` then `key_b`, if the
/// document's entries are exactly those, in that order.
pub fn read_two_string_entries(
    entries: &Vec<(String, Option<String>)>,
    key_a: &String,
    key_b: &String,
) -> (r: Option<(String, String)>)
    ensures
        match r {
            Some(pair) => two_string_entries(entries.deep_view(), key_a@, key_b@) == Some(
                (pair.0@, pair.1@),
            ),
            None => two_string_entries(entries.deep_view(), key_a@, key_b@) is None,
        },
{
    if entries.len() != 2 {
        return None;
    }
    let first = &entries[0];
    let second = &entries[1];
    proof {
        assert(entries.deep_view()[0].0 == first.0@);
        assert(entries.deep_view()[1].0 == second.0@);
    }
    if !first.0.eq(key_a) || !second.0.eq(key_b) {
        return None;
    }
    match (&first.1, &second.1) {
        (Some(text_a), Some(text_b)) => {
            proof {
                assert(entries.deep_view()[0].1 == Some(text_a@));
                assert(entries.deep_view()[1].1 == Some(text_b@));
            }
            Some((text_a.clone(), text_b.clone()))
        },
        _ => {
            proof {
                assert(entries.deep_view()[0].1 is Some ==> first.1 is Some);
                assert(entries.deep_view()[1].1 is Some ==> second.1 is Some);
            }
            None
        },
    }
}

} // verus!

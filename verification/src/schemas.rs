//! Example metadata schemas.
//!
//! `TestMetadata` is a one-field schema whose single field is cache relevant;
//! `PersonV1` and `PersonV2` form a two-shape migration chain whose
//! conversion step enforces a business rule. They exercise the diff engine,
//! the migration resolver and the decision engine end to end.

use vstd::prelude::*;
use vstd::string::StringExecFns;
use crate::diff::CacheDiff;
use crate::migrate::{ChainOutcome, ChainOutcomeSpec, MigrationError, MigrationOutcome, TryMigrate};
use crate::migrate::{resolve, resolve_spec, MigrationOutcomeSpec};
use crate::toml_parse::{
    one_string_entry,
    parse_toml_entries,
    read_one_string_entry,
    read_two_string_entries,
    toml_entries_of,
    two_string_entries,
};

verus! {

/// A schema of one string field, `value`, compared by equality.
#[derive(Debug)]
pub struct TestMetadata {
    pub value: String,
}

impl View for TestMetadata {
    type V = Seq<char>;

    open spec fn view(&self) -> Seq<char> {
        self.value@
    }
}

/// One diff line: the field's name, then the old and new text.
pub open spec fn field_change_line_spec(field: Seq<char>, old: Seq<char>, new: Seq<char>) -> Seq<
    char,
> {
    field + " ("@ + old + " to "@ + new + ")"@
}

/// Builds one diff line for a changed field.
pub fn field_change_line(field: &str, old: &str, new: &str) -> (r: String)
    ensures
        r@ == field_change_line_spec(field@, old@, new@),
{
    let mut r = String::new();
    r.append(field);
    r.append(" (");
    r.append(old);
    r.append(" to ");
    r.append(new);
    r.append(")");
    proof {
        assert(Seq::<char>::empty() + field@ == field@);
    }
    r
}

impl CacheDiff for TestMetadata {
    open spec fn diff_spec(new: Seq<char>, old: Seq<char>) -> Seq<Seq<char>> {
        if new == old {
            Seq::<Seq<char>>::empty()
        } else {
            seq![field_change_line_spec("value"@, old, new)]
        }
    }

    fn diff(&self, old: &Self) -> (r: Vec<String>)
        ensures
            r.deep_view() == Self::diff_spec(self@, old@),
    {
        if self.value.eq(&old.value) {
            let r: Vec<String> = Vec::new();
            proof {
                assert(r.deep_view() =~~= Seq::<Seq<char>>::empty());
            }
            r
        } else {
            let line = field_change_line("value", old.value.as_str(), self.value.as_str());
            let mut r: Vec<String> = Vec::new();
            r.push(line);
            proof {
                assert(r.deep_view() =~~= seq![field_change_line_spec("value"@, old@, self@)]);
            }
            r
        }
    }

    proof fn diff_self_empty(v: Seq<char>) {
    }
}

impl TryMigrate for TestMetadata {
    open spec fn parse_spec(input: Seq<char>) -> Option<Seq<char>> {
        match toml_entries_of(input) {
            Some(entries) => one_string_entry(entries, "value"@),
            None => None,
        }
    }

    open spec fn chain_spec(input: Seq<char>) -> ChainOutcomeSpec<Seq<char>> {
        ChainOutcomeSpec::NoMatch
    }

    fn try_parse(input: &str) -> (r: Option<Self>) {
        match parse_toml_entries(input) {
            Some(entries) => {
                let key = String::from_str("value");
                match read_one_string_entry(&entries, &key) {
                    Some(text) => Some(TestMetadata { value: text }),
                    None => None,
                }
            },
            None => None,
        }
    }

    fn resolve_chain(input: &str) -> (r: ChainOutcome<Self>) {
        ChainOutcome::NoMatch
    }

    fn clone_value(&self) -> (r: Self) {
        let r = TestMetadata { value: self.value.clone() };
        proof {
            assert(r == *self);
        }
        r
    }
}

/// The oldest shape of the person schema: a name alone.
#[derive(Debug)]
pub struct PersonV1 {
    pub name: String,
}

impl View for PersonV1 {
    type V = Seq<char>;

    open spec fn view(&self) -> Seq<char> {
        self.name@
    }
}

impl TryMigrate for PersonV1 {
    open spec fn parse_spec(input: Seq<char>) -> Option<Seq<char>> {
        match toml_entries_of(input) {
            Some(entries) => one_string_entry(entries, "name"@),
            None => None,
        }
    }

    open spec fn chain_spec(input: Seq<char>) -> ChainOutcomeSpec<Seq<char>> {
        ChainOutcomeSpec::NoMatch
    }

    fn try_parse(input: &str) -> (r: Option<Self>) {
        match parse_toml_entries(input) {
            Some(entries) => {
                let key = String::from_str("name");
                match read_one_string_entry(&entries, &key) {
                    Some(text) => Some(PersonV1 { name: text }),
                    None => None,
                }
            },
            None => None,
        }
    }

    fn resolve_chain(input: &str) -> (r: ChainOutcome<Self>) {
        ChainOutcome::NoMatch
    }

    fn clone_value(&self) -> (r: Self) {
        let r = PersonV1 { name: self.name.clone() };
        proof {
            assert(r == *self);
        }
        r
    }
}

/// The current shape of the person schema: a name and when it was updated.
#[derive(Debug)]
pub struct PersonV2 {
    pub name: String,
    pub updated_at: String,
}

impl View for PersonV2 {
    type V = (Seq<char>, Seq<char>);

    open spec fn view(&self) -> (Seq<char>, Seq<char>) {
        (self.name@, self.updated_at@)
    }
}

/// The conversion rule of the person chain: only the one known name is
/// accepted, and the update time of a migrated record is unknown.
pub open spec fn person_v1_to_v2_spec(name: Seq<char>) -> ChainOutcomeSpec<(Seq<char>, Seq<char>)> {
    if name == "Schneems"@ {
        ChainOutcomeSpec::Migrated((name, "unknown"@))
    } else {
        ChainOutcomeSpec::Rejected("Not Richard"@)
    }
}

/// Converts a `PersonV1` forward, accepting only the one known name.
pub fn person_v1_to_v2(person: PersonV1) -> (r: Result<PersonV2, MigrationError>)
    ensures
        match r {
            Ok(v2) => person_v1_to_v2_spec(person@) == ChainOutcomeSpec::Migrated(v2@),
            Err(e) => person_v1_to_v2_spec(person@) == ChainOutcomeSpec::<(
                Seq<char>,
                Seq<char>,
            )>::Rejected(e.message@),
        },
{
    let expected = String::from_str("Schneems");
    if person.name.eq(&expected) {
        Ok(PersonV2 { name: person.name, updated_at: String::from_str("unknown") })
    } else {
        Err(MigrationError::new(String::from_str("Not Richard")))
    }
}

impl CacheDiff for PersonV2 {
    open spec fn diff_spec(new: (Seq<char>, Seq<char>), old: (Seq<char>, Seq<char>)) -> Seq<
        Seq<char>,
    > {
        (if new.0 != old.0 {
            seq![field_change_line_spec("name"@, old.0, new.0)]
        } else {
            Seq::<Seq<char>>::empty()
        }) + (if new.1 != old.1 {
            seq![field_change_line_spec("updated_at"@, old.1, new.1)]
        } else {
            Seq::<Seq<char>>::empty()
        })
    }

    fn diff(&self, old: &Self) -> (r: Vec<String>)
        ensures
            r.deep_view() == Self::diff_spec(self@, old@),
    {
        let mut r: Vec<String> = Vec::new();
        if !self.name.eq(&old.name) {
            let line = field_change_line("name", old.name.as_str(), self.name.as_str());
            r.push(line);
        }
        if !self.updated_at.eq(&old.updated_at) {
            let line = field_change_line(
                "updated_at",
                old.updated_at.as_str(),
                self.updated_at.as_str(),
            );
            r.push(line);
        }
        proof {
            assert(r.deep_view() =~~= Self::diff_spec(self@, old@));
        }
        r
    }

    proof fn diff_self_empty(v: (Seq<char>, Seq<char>)) {
        assert(Self::diff_spec(v, v) =~~= Seq::<Seq<char>>::empty());
    }
}

impl TryMigrate for PersonV2 {
    open spec fn parse_spec(input: Seq<char>) -> Option<(Seq<char>, Seq<char>)> {
        match toml_entries_of(input) {
            Some(entries) => two_string_entries(entries, "name"@, "updated_at"@),
            None => None,
        }
    }

    open spec fn chain_spec(input: Seq<char>) -> ChainOutcomeSpec<(Seq<char>, Seq<char>)> {
        match resolve_spec::<PersonV1>(input) {
            MigrationOutcomeSpec::DirectSuccess(name) => person_v1_to_v2_spec(name),
            MigrationOutcomeSpec::MigratedSuccess(name) => person_v1_to_v2_spec(name),
            MigrationOutcomeSpec::MigrationFailure(e) => ChainOutcomeSpec::Rejected(e),
            MigrationOutcomeSpec::Unparseable => ChainOutcomeSpec::NoMatch,
        }
    }

    fn try_parse(input: &str) -> (r: Option<Self>) {
        match parse_toml_entries(input) {
            Some(entries) => {
                let key_a = String::from_str("name");
                let key_b = String::from_str("updated_at");
                match read_two_string_entries(&entries, &key_a, &key_b) {
                    Some(pair) => Some(PersonV2 { name: pair.0, updated_at: pair.1 }),
                    None => None,
                }
            },
            None => None,
        }
    }

    fn resolve_chain(input: &str) -> (r: ChainOutcome<Self>) {
        match resolve::<PersonV1>(input) {
            MigrationOutcome::DirectSuccess(person) => match person_v1_to_v2(person) {
                Ok(v2) => ChainOutcome::Migrated(v2),
                Err(e) => ChainOutcome::Rejected(e),
            },
            MigrationOutcome::MigratedSuccess(person) => match person_v1_to_v2(person) {
                Ok(v2) => ChainOutcome::Migrated(v2),
                Err(e) => ChainOutcome::Rejected(e),
            },
            MigrationOutcome::MigrationFailure(e) => ChainOutcome::Rejected(e),
            MigrationOutcome::Unparseable => ChainOutcome::NoMatch,
        }
    }

    fn clone_value(&self) -> (r: Self) {
        let r = PersonV2 { name: self.name.clone(), updated_at: self.updated_at.clone() };
        proof {
            assert(r == *self);
        }
        r
    }
}

} // verus!

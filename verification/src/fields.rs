//! Reading and writing the entries of an object, one field at a time.
//!
//! The spec functions here say what reading a field out of a list of entries
//! gives; the executable functions beside them compute it.

use crate::error::ParseError;
use crate::keys::FieldKey;
use crate::wire::{same_text, Doc, Number, ValueKind, WireValue};
use vstd::prelude::*;

verus! {

broadcast use vstd::std_specs::vec::group_vec_axioms;

/// The entries of an object, as mathematics sees them.
pub type Entries = Seq<(Seq<char>, Doc)>;

/// What looking a key up among entries finds.
pub enum Lookup<T> {
    /// No entry has the key.
    Absent,
    /// Exactly one entry has the key, and holds this.
    One(T),
    /// Two entries or more have the key.
    Many,
}

/// The entries that a vector of keyed values stands for.
pub open spec fn entries_view(entries: &Vec<(String, WireValue)>) -> Entries {
    Seq::new(
        entries.len() as nat,
        |i: int|
            if 0 <= i < entries.len() {
                (entries[i].0@, entries[i].1@)
            } else {
                (Seq::empty(), Doc::Null)
            },
    )
}

/// The text document for `s`, where there is an `s`.
pub open spec fn text_doc(s: Option<Seq<char>>) -> Option<Doc> {
    match s {
        Some(chars) => Some(Doc::Text(chars)),
        None => None,
    }
}

/// The number document for `n`, where there is an `n`.
pub open spec fn number_doc(n: Option<Number>) -> Option<Doc> {
    match n {
        Some(number) => Some(Doc::Number(number)),
        None => None,
    }
}

/// The characters of `s`, where there is an `s`.
pub open spec fn text_view(s: Option<String>) -> Option<Seq<char>> {
    match s {
        Some(text) => Some(text@),
        None => None,
    }
}

/// The outcome of reading, with the value that was read taken by its view.
pub open spec fn result_view<T: View>(out: Result<T, ParseError>) -> Result<T::V, ParseError> {
    match out {
        Ok(value) => Ok(value@),
        Err(e) => Err(e),
    }
}

/// The outcome of reading the object under `key`: the value where there is
/// one, and a failure inside the object marked as lying under `key`.
pub open spec fn nested<T>(inner: Result<T, ParseError>, key: FieldKey) -> Result<
    Option<T>,
    ParseError,
> {
    match inner {
        Ok(value) => Ok(Some(value)),
        Err(e) => Err(ParseError::Nested { field: key, cause: Box::new(e) }),
    }
}

/// The view of an object is the object of its entries' views.
pub proof fn lemma_object_view(value: &WireValue)
    requires
        value is Object,
    ensures
        value@ == Doc::Object(entries_view(&value->Object_0)),
{
    assert(value@->Object_0 =~= entries_view(&value->Object_0));
}

/// Looks `key` up among `entries`.
pub open spec fn lookup(entries: Entries, key: Seq<char>) -> Lookup<Doc>
    decreases entries.len(),
{
    if entries.len() == 0 {
        Lookup::Absent
    } else if entries.last().0 == key {
        match lookup(entries.drop_last(), key) {
            Lookup::Absent => Lookup::One(entries.last().1),
            _ => Lookup::Many,
        }
    } else {
        lookup(entries.drop_last(), key)
    }
}

/// The entries with one more at the end, for `key`.
pub open spec fn put(entries: Entries, key: FieldKey, doc: Doc) -> Entries {
    entries.push((key.spec_wire_name(), doc))
}

/// The entries with one more for `key` where there is something to hold, and
/// unchanged where there is not.
pub open spec fn put_opt(entries: Entries, key: FieldKey, doc: Option<Doc>) -> Entries {
    match doc {
        Some(d) => put(entries, key, d),
        None => entries,
    }
}

/// What a field that may be left out holds: nothing where its key is absent
/// or holds null, the document under its key otherwise.
pub open spec fn optional(entries: Entries, key: FieldKey) -> Result<Option<Doc>, ParseError> {
    match lookup(entries, key.spec_wire_name()) {
        Lookup::Absent => Ok(None),
        Lookup::One(Doc::Null) => Ok(None),
        Lookup::One(doc) => Ok(Some(doc)),
        Lookup::Many => Err(ParseError::DuplicateField { field: key }),
    }
}

/// What a field that must be there holds.
pub open spec fn required(entries: Entries, key: FieldKey) -> Result<Doc, ParseError> {
    match lookup(entries, key.spec_wire_name()) {
        Lookup::Absent => Err(ParseError::MissingField { field: key }),
        Lookup::One(doc) => Ok(doc),
        Lookup::Many => Err(ParseError::DuplicateField { field: key }),
    }
}

/// The text that `doc` holds, or how it fails to be one.
pub open spec fn as_text(doc: Doc, key: FieldKey) -> Result<Seq<char>, ParseError> {
    match doc {
        Doc::Text(s) => Ok(s),
        _ => Err(
            ParseError::TypeMismatch { field: key, expected: ValueKind::Text, found: doc.kind() },
        ),
    }
}

/// The number that `doc` holds, whole or real, or how it fails to be one.
pub open spec fn as_number(doc: Doc, key: FieldKey) -> Result<Number, ParseError> {
    match doc {
        Doc::Number(n) => Ok(n),
        _ => Err(
            ParseError::TypeMismatch { field: key, expected: ValueKind::Real, found: doc.kind() },
        ),
    }
}

/// The 32-bit whole number that `doc` holds, or how it fails to be one.
pub open spec fn as_position(doc: Doc, key: FieldKey) -> Result<i32, ParseError> {
    match doc {
        Doc::Number(Number::Integer(n)) => if i32::MIN <= n <= i32::MAX {
            Ok(n as i32)
        } else {
            Err(ParseError::OutOfRange { field: key })
        },
        _ => Err(
            ParseError::TypeMismatch {
                field: key,
                expected: ValueKind::Integer,
                found: doc.kind(),
            },
        ),
    }
}

/// A required text field.
pub open spec fn required_text(entries: Entries, key: FieldKey) -> Result<Seq<char>, ParseError> {
    match required(entries, key) {
        Ok(doc) => as_text(doc, key),
        Err(e) => Err(e),
    }
}

/// A text field that may be left out.
pub open spec fn optional_text(entries: Entries, key: FieldKey) -> Result<
    Option<Seq<char>>,
    ParseError,
> {
    match optional(entries, key) {
        Ok(Some(doc)) => match as_text(doc, key) {
            Ok(s) => Ok(Some(s)),
            Err(e) => Err(e),
        },
        Ok(None) => Ok(None),
        Err(e) => Err(e),
    }
}

/// A number field that may be left out.
pub open spec fn optional_number(entries: Entries, key: FieldKey) -> Result<
    Option<Number>,
    ParseError,
> {
    match optional(entries, key) {
        Ok(Some(doc)) => match as_number(doc, key) {
            Ok(n) => Ok(Some(n)),
            Err(e) => Err(e),
        },
        Ok(None) => Ok(None),
        Err(e) => Err(e),
    }
}

/// A required field that holds a 32-bit whole number.
pub open spec fn required_position(entries: Entries, key: FieldKey) -> Result<i32, ParseError> {
    match required(entries, key) {
        Ok(doc) => as_position(doc, key),
        Err(e) => Err(e),
    }
}

/// Looking up in entries that end with `entry` looks at `entry` and then at
/// what stands before it.
pub proof fn lemma_lookup_push(entries: Entries, entry: (Seq<char>, Doc), key: Seq<char>)
    ensures
        lookup(entries.push(entry), key) == if entry.0 == key {
            match lookup(entries, key) {
                Lookup::Absent => Lookup::One(entry.1),
                _ => Lookup::Many,
            }
        } else {
            lookup(entries, key)
        },
{
    assert(entries.push(entry).drop_last() =~= entries);
}

/// What the three outcomes of a lookup mean: no entry has the key; one
/// entry has it, and holds what was found; or two entries have it.
pub proof fn lemma_lookup_meaning(entries: Entries, key: Seq<char>)
    ensures
        match lookup(entries, key) {
            Lookup::Absent => forall|i: int| 0 <= i < entries.len() ==> entries[i].0 != key,
            Lookup::One(doc) => exists|i: int|
                {
                    &&& 0 <= i < entries.len()
                    &&& #[trigger] entries[i] == (key, doc)
                    &&& forall|j: int| 0 <= j < entries.len() && j != i ==> entries[j].0 != key
                },
            Lookup::Many => exists|i: int, j: int|
                0 <= i < j < entries.len() && (#[trigger] entries[i]).0 == key && (
                #[trigger] entries[j]).0 == key,
        },
    decreases entries.len(),
{
    if entries.len() > 0 {
        let head = entries.drop_last();
        let last = entries.len() - 1;
        lemma_lookup_meaning(head, key);
        assert forall|i: int| 0 <= i < head.len() implies head[i] == entries[i] by {}
        match lookup(head, key) {
            Lookup::Absent => {
                if entries.last().0 == key {
                    assert(entries[last] == (key, entries.last().1));
                }
            },
            Lookup::One(doc) => {
                let i = choose|i: int|
                    {
                        &&& 0 <= i < head.len()
                        &&& #[trigger] head[i] == (key, doc)
                        &&& forall|j: int| 0 <= j < head.len() && j != i ==> head[j].0 != key
                    };
                assert(entries[i] == (key, doc));
                if entries.last().0 == key {
                    assert(entries[i].0 == key && entries[last].0 == key);
                }
            },
            Lookup::Many => {
                let (i, j) = choose|i: int, j: int|
                    0 <= i < j < head.len() && (#[trigger] head[i]).0 == key && (
                    #[trigger] head[j]).0 == key;
                assert(entries[i].0 == key && entries[j].0 == key);
            },
        }
    }
}

/// Whether some entry stands under the key of `key`.
pub open spec fn holds_key(entries: Entries, key: FieldKey) -> bool {
    exists|i: int| 0 <= i < entries.len() && (#[trigger] entries[i]).0 == key.spec_wire_name()
}

/// A key is held exactly when looking it up does not come back empty.
pub proof fn lemma_holds_key(entries: Entries, key: FieldKey)
    ensures
        holds_key(entries, key) <==> !(lookup(entries, key.spec_wire_name()) is Absent),
{
    lemma_lookup_meaning(entries, key.spec_wire_name());
}

/// What a lookup finds where the key holds `doc`, if it holds anything, and
/// holds it once.
pub open spec fn found(doc: Option<Doc>) -> Lookup<Doc> {
    match doc {
        Some(d) => Lookup::One(d),
        None => Lookup::Absent,
    }
}

/// Nothing is found among no entries.
pub proof fn lemma_lookup_empty(key: Seq<char>)
    ensures
        lookup(Seq::empty(), key) == Lookup::<Doc>::Absent,
{
}

/// Looking a field up after an entry was put for `key`: the entry counts
/// where the field is `key`, and only there.
pub proof fn lemma_lookup_put(entries: Entries, key: FieldKey, doc: Doc, field: FieldKey)
    ensures
        lookup(put(entries, key, doc), field.spec_wire_name()) == if field == key {
            match lookup(entries, field.spec_wire_name()) {
                Lookup::Absent => Lookup::One(doc),
                _ => Lookup::Many,
            }
        } else {
            lookup(entries, field.spec_wire_name())
        },
{
    FieldKey::wire_names_distinct(key, field);
    lemma_lookup_push(entries, (key.spec_wire_name(), doc), field.spec_wire_name());
}

/// Looking a field up after an entry was put for `key` or left out: as
/// `lemma_lookup_put` says where it was put, and as before where it was not.
pub proof fn lemma_lookup_put_opt(
    entries: Entries,
    key: FieldKey,
    doc: Option<Doc>,
    field: FieldKey,
)
    ensures
        lookup(put_opt(entries, key, doc), field.spec_wire_name()) == match doc {
            Some(d) => lookup(put(entries, key, d), field.spec_wire_name()),
            None => lookup(entries, field.spec_wire_name()),
        },
        lookup(put_opt(entries, key, doc), field.spec_wire_name()) == if field == key && doc
            is Some {
            match lookup(entries, field.spec_wire_name()) {
                Lookup::Absent => Lookup::One(doc->Some_0),
                _ => Lookup::Many,
            }
        } else {
            lookup(entries, field.spec_wire_name())
        },
{
    if let Some(d) = doc {
        lemma_lookup_put(entries, key, d, field);
    }
}

/// Finds `key` among the entries of an object.
pub fn find<'a>(entries: &'a Vec<(String, WireValue)>, key: &str) -> (hit: Lookup<&'a WireValue>)
    ensures
        match hit {
            Lookup::Absent => lookup(entries_view(entries), key@) == Lookup::<Doc>::Absent,
            Lookup::One(value) => lookup(entries_view(entries), key@) == Lookup::One(value@),
            Lookup::Many => lookup(entries_view(entries), key@) == Lookup::<Doc>::Many,
        },
{
    let mut hit: Lookup<&'a WireValue> = Lookup::Absent;
    let mut i: usize = 0;
    assert(entries_view(entries).take(0) =~= Seq::empty());
    while i < entries.len()
        invariant
            i <= entries.len(),
            match hit {
                Lookup::Absent => lookup(entries_view(entries).take(i as int), key@)
                    == Lookup::<Doc>::Absent,
                Lookup::One(value) => lookup(entries_view(entries).take(i as int), key@)
                    == Lookup::One(value@),
                Lookup::Many => lookup(entries_view(entries).take(i as int), key@)
                    == Lookup::<Doc>::Many,
            },
        decreases entries.len() - i,
    {
        let entry = &entries[i];
        proof {
            let all = entries_view(entries);
            assert(all.take(i + 1) =~= all.take(i as int).push(all[i as int]));
            lemma_lookup_push(all.take(i as int), all[i as int], key@);
        }
        if same_text(entry.0.as_str(), key) {
            hit = match hit {
                Lookup::Absent => Lookup::One(&entry.1),
                _ => Lookup::Many,
            };
        }
        i += 1;
    }
    assert(entries_view(entries).take(i as int) =~= entries_view(entries));
    hit
}

/// Whether two texts, each of which may be absent, are the same.
pub fn same_optional_text(a: &Option<String>, b: &Option<String>) -> (same: bool)
    ensures
        same == (text_view(*a) == text_view(*b)),
{
    match (a, b) {
        (None, None) => true,
        (Some(x), Some(y)) => *x == *y,
        _ => false,
    }
}

/// Adds an entry for `key` at the end of `entries`.
pub fn push_entry(entries: &mut Vec<(String, WireValue)>, key: FieldKey, value: WireValue)
    ensures
        entries_view(final(entries)) == put(entries_view(old(entries)), key, value@),
{
    let ghost before = entries_view(entries);
    let ghost doc = value@;
    entries.push((key.wire_name(), value));
    assert(entries_view(entries) =~= put(before, key, doc));
}

/// Reads a field that may be left out: `None` where its key is absent or
/// holds null.
pub fn read_optional<'a>(entries: &'a Vec<(String, WireValue)>, key: FieldKey) -> (out: Result<
    Option<&'a WireValue>,
    ParseError,
>)
    ensures
        match out {
            Ok(Some(value)) => optional(entries_view(entries), key) == Ok::<
                Option<Doc>,
                ParseError,
            >(Some(value@)),
            Ok(None) => optional(entries_view(entries), key) == Ok::<Option<Doc>, ParseError>(None),
            Err(e) => optional(entries_view(entries), key) == Err::<Option<Doc>, ParseError>(e),
        },
{
    match find(entries, key.wire_name().as_str()) {
        Lookup::Absent => Ok(None),
        Lookup::One(value) => match value {
            WireValue::Null => Ok(None),
            _ => Ok(Some(value)),
        },
        Lookup::Many => Err(ParseError::DuplicateField { field: key }),
    }
}

/// Reads a field that must be there.
pub fn read_required<'a>(entries: &'a Vec<(String, WireValue)>, key: FieldKey) -> (out: Result<
    &'a WireValue,
    ParseError,
>)
    ensures
        match out {
            Ok(value) => required(entries_view(entries), key) == Ok::<Doc, ParseError>(value@),
            Err(e) => required(entries_view(entries), key) == Err::<Doc, ParseError>(e),
        },
{
    match find(entries, key.wire_name().as_str()) {
        Lookup::Absent => Err(ParseError::MissingField { field: key }),
        Lookup::One(value) => Ok(value),
        Lookup::Many => Err(ParseError::DuplicateField { field: key }),
    }
}

/// Takes the text out of `value`.
pub fn text_of(value: &WireValue, key: FieldKey) -> (out: Result<String, ParseError>)
    ensures
        match out {
            Ok(s) => as_text(value@, key) == Ok::<Seq<char>, ParseError>(s@),
            Err(e) => as_text(value@, key) == Err::<Seq<char>, ParseError>(e),
        },
{
    match value {
        WireValue::Text(s) => Ok(s.clone()),
        _ => Err(
            ParseError::TypeMismatch { field: key, expected: ValueKind::Text, found: value.kind() },
        ),
    }
}

/// Takes the number out of `value`.
pub fn number_of(value: &WireValue, key: FieldKey) -> (out: Result<Number, ParseError>)
    ensures
        out == as_number(value@, key),
{
    match value {
        WireValue::Number(n) => Ok(*n),
        _ => Err(
            ParseError::TypeMismatch { field: key, expected: ValueKind::Real, found: value.kind() },
        ),
    }
}

/// Takes the 32-bit whole number out of `value`.
pub fn position_of(value: &WireValue, key: FieldKey) -> (out: Result<i32, ParseError>)
    ensures
        out == as_position(value@, key),
{
    match value {
        WireValue::Number(Number::Integer(n)) => {
            if -2147483648 <= *n && *n <= 2147483647 {
                Ok(*n as i32)
            } else {
                Err(ParseError::OutOfRange { field: key })
            }
        },
        _ => Err(
            ParseError::TypeMismatch {
                field: key,
                expected: ValueKind::Integer,
                found: value.kind(),
            },
        ),
    }
}

/// Reads a required text field.
pub fn read_required_text(entries: &Vec<(String, WireValue)>, key: FieldKey) -> (out: Result<
    String,
    ParseError,
>)
    ensures
        match out {
            Ok(s) => required_text(entries_view(entries), key) == Ok::<Seq<char>, ParseError>(s@),
            Err(e) => required_text(entries_view(entries), key) == Err::<Seq<char>, ParseError>(e),
        },
{
    match read_required(entries, key) {
        Ok(value) => text_of(value, key),
        Err(e) => Err(e),
    }
}

/// Reads a text field that may be left out.
pub fn read_optional_text(entries: &Vec<(String, WireValue)>, key: FieldKey) -> (out: Result<
    Option<String>,
    ParseError,
>)
    ensures
        match out {
            Ok(Some(s)) => optional_text(entries_view(entries), key) == Ok::<
                Option<Seq<char>>,
                ParseError,
            >(Some(s@)),
            Ok(None) => optional_text(entries_view(entries), key) == Ok::<
                Option<Seq<char>>,
                ParseError,
            >(None),
            Err(e) => optional_text(entries_view(entries), key) == Err::<
                Option<Seq<char>>,
                ParseError,
            >(e),
        },
{
    match read_optional(entries, key) {
        Ok(Some(value)) => match text_of(value, key) {
            Ok(s) => Ok(Some(s)),
            Err(e) => Err(e),
        },
        Ok(None) => Ok(None),
        Err(e) => Err(e),
    }
}

/// Reads a number field that may be left out.
pub fn read_optional_number(entries: &Vec<(String, WireValue)>, key: FieldKey) -> (out: Result<
    Option<Number>,
    ParseError,
>)
    ensures
        out == optional_number(entries_view(entries), key),
{
    match read_optional(entries, key) {
        Ok(Some(value)) => match number_of(value, key) {
            Ok(n) => Ok(Some(n)),
            Err(e) => Err(e),
        },
        Ok(None) => Ok(None),
        Err(e) => Err(e),
    }
}

/// Reads a required field that holds a 32-bit whole number.
pub fn read_required_position(entries: &Vec<(String, WireValue)>, key: FieldKey) -> (out: Result<
    i32,
    ParseError,
>)
    ensures
        out == required_position(entries_view(entries), key),
{
    match read_required(entries, key) {
        Ok(value) => position_of(value, key),
        Err(e) => Err(e),
    }
}

} // verus!

//! The language that a piece of code is written in.

use crate::error::ParseError;
use crate::fields::{
    Entries, entries_view, found, holds_key, lemma_holds_key, lemma_lookup_empty, lemma_lookup_put,
    lemma_object_view, lookup, push_entry, put, read_required_text, required_text, result_view,
};
use crate::keys::FieldKey;
use crate::wire::{Doc, WireValue};
use vstd::prelude::*;

verus! {

/// A programming language, known by its name alone; any name is taken.
#[derive(Debug, Clone, Eq)]
pub struct ProgrammingLanguage {
    /// The language's name.
    pub language_name: String,
}

/// What a `ProgrammingLanguage` holds, as mathematics sees it.
pub struct ProgrammingLanguageView {
    pub language_name: Seq<char>,
}

impl ProgrammingLanguageView {
    /// The document that stands for the field `key` of the language; none where the
    /// language has no such field.
    pub open spec fn field(self, key: FieldKey) -> Option<Doc> {
        match key {
            FieldKey::LanguageName => Some(Doc::Text(self.language_name)),
            _ => None,
        }
    }

    /// The entries of the language's object: `languageName` alone.
    pub open spec fn entries(self) -> Entries {
        put(Seq::empty(), FieldKey::LanguageName, Doc::Text(self.language_name))
    }

    /// The document that the language is written as.
    pub open spec fn encode(self) -> Doc {
        Doc::Object(self.entries())
    }

    /// The language that the entries of an object stand for, or what keeps
    /// them from standing for one.
    pub open spec fn decode_entries(entries: Entries) -> Result<Self, ParseError> {
        match required_text(entries, FieldKey::LanguageName) {
            Err(e) => Err(e),
            Ok(language_name) => Ok(ProgrammingLanguageView { language_name }),
        }
    }

    /// The language that a document stands for, or why it stands for none.
    pub open spec fn decode(doc: Doc) -> Result<Self, ParseError> {
        match doc {
            Doc::Object(entries) => Self::decode_entries(entries),
            _ => Err(ParseError::NotAnObject { found: doc.kind() }),
        }
    }
}

impl View for ProgrammingLanguage {
    type V = ProgrammingLanguageView;

    open spec fn view(&self) -> ProgrammingLanguageView {
        ProgrammingLanguageView { language_name: self.language_name@ }
    }
}

impl PartialEq for ProgrammingLanguage {
    /// Whether the two hold the same name.
    fn eq(&self, other: &Self) -> (same: bool) {
        self.language_name == other.language_name
    }
}

impl vstd::std_specs::cmp::PartialEqSpecImpl for ProgrammingLanguage {
    open spec fn obeys_eq_spec() -> bool {
        true
    }

    open spec fn eq_spec(&self, other: &Self) -> bool {
        self@ == other@
    }
}

impl ProgrammingLanguage {
    /// The language called `name`.
    pub fn new(name: &str) -> (language: Self)
        ensures
            language@ == (ProgrammingLanguageView { language_name: name@ }),
    {
        Self { language_name: name.to_owned() }
    }

    /// Writes the language as a document.
    pub fn to_wire(&self) -> (value: WireValue)
        ensures
            value@ == self@.encode(),
            ProgrammingLanguageView::decode(value@) == Ok::<
                ProgrammingLanguageView,
                ParseError,
            >(self@),
    {
        let mut entries: Vec<(String, WireValue)> = Vec::new();
        assert(entries_view(&entries) =~= Seq::empty());
        push_entry(
            &mut entries,
            FieldKey::LanguageName,
            WireValue::Text(self.language_name.clone()),
        );
        let value = WireValue::Object(entries);
        proof {
            lemma_object_view(&value);
            lemma_language_round_trip(self@);
        }
        value
    }

    /// Reads a language out of a document.
    pub fn from_wire(value: &WireValue) -> (out: Result<Self, ParseError>)
        ensures
            result_view(out) == ProgrammingLanguageView::decode(value@),
    {
        match value {
            WireValue::Object(entries) => {
                proof {
                    lemma_object_view(value);
                }
                let language_name = read_required_text(entries, FieldKey::LanguageName)?;
                Ok(Self { language_name })
            },
            _ => Err(ParseError::NotAnObject { found: value.kind() }),
        }
    }
}

/// What is written for a language holds, under the key of each of its fields, the
/// document of that field and no other entry, and no entry under the key of
/// any other field.
pub proof fn lemma_language_entries(language: ProgrammingLanguageView, key: FieldKey)
    ensures
        lookup(language.entries(), key.spec_wire_name()) == found(language.field(key)),
{
    let e0: Entries = Seq::empty();
    lemma_lookup_empty(key.spec_wire_name());
    lemma_lookup_put(e0, FieldKey::LanguageName, Doc::Text(language.language_name), key);
}

/// What is written for a language has an entry under `languageName`, and under
/// the key of no other field.
pub proof fn lemma_language_omission(language: ProgrammingLanguageView, key: FieldKey)
    ensures
        holds_key(language.entries(), key) <==> language.field(key) is Some,
{
    lemma_language_entries(language, key);
    lemma_holds_key(language.entries(), key);
}

/// Reading what was written gives the language back.
pub proof fn lemma_language_round_trip(language: ProgrammingLanguageView)
    ensures
        ProgrammingLanguageView::decode(language.encode()) == Ok::<
            ProgrammingLanguageView,
            ParseError,
        >(language),
{
    lemma_language_entries(language, FieldKey::LanguageName);
}

} // verus!

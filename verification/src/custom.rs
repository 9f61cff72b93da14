//! A reference to a customised model.

use crate::error::ParseError;
use crate::fields::{
    Entries, entries_view, found, holds_key, lemma_holds_key, lemma_lookup_empty, lemma_lookup_put,
    lemma_lookup_put_opt, lemma_object_view, lookup, optional_text, push_entry, put, put_opt,
    read_optional_text, read_required_text, required_text, result_view, same_optional_text,
    text_doc, text_view,
};
use crate::keys::FieldKey;
use crate::wire::{Doc, WireValue};
use vstd::prelude::*;

verus! {

/// A customised model: the identifier of the resource, and a name where it
/// has one. The identifier is not looked into.
#[derive(Debug, Clone, Eq)]
pub struct Customization {
    /// The identifier of the resource.
    pub arn: String,
    /// The name given to the customisation.
    pub name: Option<String>,
}

/// What a `Customization` holds, as mathematics sees it.
pub struct CustomizationView {
    pub arn: Seq<char>,
    pub name: Option<Seq<char>>,
}

impl CustomizationView {
    /// The document that stands for the field `key` of the customisation: none where the
    /// field is absent, and none where the customisation has no such field.
    pub open spec fn field(self, key: FieldKey) -> Option<Doc> {
        match key {
            FieldKey::Arn => Some(Doc::Text(self.arn)),
            FieldKey::Name => text_doc(self.name),
            _ => None,
        }
    }

    /// The entries of the customisation's object: `arn`, then `name` where
    /// there is one.
    pub open spec fn entries(self) -> Entries {
        put_opt(
            put(Seq::empty(), FieldKey::Arn, Doc::Text(self.arn)),
            FieldKey::Name,
            text_doc(self.name),
        )
    }

    /// The document that the customisation is written as.
    pub open spec fn encode(self) -> Doc {
        Doc::Object(self.entries())
    }

    /// The customisation that the entries of an object stand for, or the
    /// first thing that keeps them from standing for one, `arn` taken before
    /// `name`.
    pub open spec fn decode_entries(entries: Entries) -> Result<Self, ParseError> {
        match required_text(entries, FieldKey::Arn) {
            Err(e) => Err(e),
            Ok(arn) => match optional_text(entries, FieldKey::Name) {
                Err(e) => Err(e),
                Ok(name) => Ok(CustomizationView { arn, name }),
            },
        }
    }

    /// The customisation that a document stands for, or why it stands for
    /// none.
    pub open spec fn decode(doc: Doc) -> Result<Self, ParseError> {
        match doc {
            Doc::Object(entries) => Self::decode_entries(entries),
            _ => Err(ParseError::NotAnObject { found: doc.kind() }),
        }
    }
}

impl View for Customization {
    type V = CustomizationView;

    open spec fn view(&self) -> CustomizationView {
        CustomizationView { arn: self.arn@, name: text_view(self.name) }
    }
}

impl PartialEq for Customization {
    /// Whether the two hold the same in every field.
    fn eq(&self, other: &Self) -> (same: bool) {
        self.arn == other.arn && same_optional_text(&self.name, &other.name)
    }
}

impl vstd::std_specs::cmp::PartialEqSpecImpl for Customization {
    open spec fn obeys_eq_spec() -> bool {
        true
    }

    open spec fn eq_spec(&self, other: &Self) -> bool {
        self@ == other@
    }
}

impl Customization {
    /// Writes the customisation as a document.
    pub fn to_wire(&self) -> (value: WireValue)
        ensures
            value@ == self@.encode(),
            CustomizationView::decode(value@) == Ok::<CustomizationView, ParseError>(self@),
    {
        let mut entries: Vec<(String, WireValue)> = Vec::new();
        assert(entries_view(&entries) =~= Seq::empty());
        push_entry(&mut entries, FieldKey::Arn, WireValue::Text(self.arn.clone()));
        if let Some(name) = &self.name {
            push_entry(&mut entries, FieldKey::Name, WireValue::Text(name.clone()));
        }
        let value = WireValue::Object(entries);
        proof {
            lemma_object_view(&value);
            lemma_customization_round_trip(self@);
        }
        value
    }

    /// Reads a customisation out of a document.
    pub fn from_wire(value: &WireValue) -> (out: Result<Self, ParseError>)
        ensures
            result_view(out) == CustomizationView::decode(value@),
    {
        match value {
            WireValue::Object(entries) => {
                proof {
                    lemma_object_view(value);
                }
                let arn = read_required_text(entries, FieldKey::Arn)?;
                let name = read_optional_text(entries, FieldKey::Name)?;
                Ok(Self { arn, name })
            },
            _ => Err(ParseError::NotAnObject { found: value.kind() }),
        }
    }
}

/// What is written for a customisation holds, under the key of each field, the
/// document of that field and no other entry where the field is there, and
/// no entry where it is not.
pub proof fn lemma_customization_entries(customization: CustomizationView, key: FieldKey)
    ensures
        lookup(customization.entries(), key.spec_wire_name()) == found(customization.field(key)),
{
    let e0: Entries = Seq::empty();
    let e1 = put(e0, FieldKey::Arn, Doc::Text(customization.arn));
    lemma_lookup_empty(key.spec_wire_name());
    lemma_lookup_put(e0, FieldKey::Arn, Doc::Text(customization.arn), key);
    lemma_lookup_put_opt(e1, FieldKey::Name, text_doc(customization.name), key);
}

/// A field of a customisation that is absent leaves no entry under its key in what is
/// written, and a field that is there leaves one.
pub proof fn lemma_customization_omission(customization: CustomizationView, key: FieldKey)
    ensures
        holds_key(customization.entries(), key) <==> customization.field(key) is Some,
{
    lemma_customization_entries(customization, key);
    lemma_holds_key(customization.entries(), key);
}

/// Reading what was written gives the customisation back, with an absent
/// name still absent.
pub proof fn lemma_customization_round_trip(customization: CustomizationView)
    ensures
        CustomizationView::decode(customization.encode()) == Ok::<
            CustomizationView,
            ParseError,
        >(customization),
{
    lemma_customization_entries(customization, FieldKey::Arn);
    lemma_customization_entries(customization, FieldKey::Name);
}

} // verus!

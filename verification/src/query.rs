//! What names a search through code.

use crate::error::ParseError;
use crate::fields::{
    Entries, entries_view, found, holds_key, lemma_holds_key, lemma_lookup_empty, lemma_lookup_put,
    lemma_lookup_put_opt, lemma_object_view, lookup, nested, optional, optional_text, push_entry,
    put, put_opt, read_optional, read_optional_text, read_required_text, required_text,
    result_view, same_optional_text, text_doc, text_view,
};
use crate::keys::FieldKey;
use crate::language::{ProgrammingLanguage, ProgrammingLanguageView};
use crate::wire::{Doc, WireValue};
use vstd::prelude::*;

verus! {

/// A search through code: its identifier, and where known the language of the
/// code and the message that set the search off.
#[derive(Debug, Clone, Eq)]
pub struct CodeQuery {
    /// The identifier of the search.
    pub code_query_id: String,
    /// The language of the code searched.
    pub programming_language: Option<ProgrammingLanguage>,
    /// The identifier of the user's message that the search belongs to.
    pub user_input_message_id: Option<String>,
}

/// What a `CodeQuery` holds, as mathematics sees it.
pub struct CodeQueryView {
    pub code_query_id: Seq<char>,
    pub programming_language: Option<ProgrammingLanguageView>,
    pub user_input_message_id: Option<Seq<char>>,
}

/// The document for `language`, where there is a `language`.
pub open spec fn language_doc(language: Option<ProgrammingLanguageView>) -> Option<Doc> {
    match language {
        Some(l) => Some(l.encode()),
        None => None,
    }
}

/// The view of `language`, where there is a `language`.
pub open spec fn language_view(language: Option<ProgrammingLanguage>) -> Option<
    ProgrammingLanguageView,
> {
    match language {
        Some(l) => Some(l@),
        None => None,
    }
}

/// A language field that may be left out.
pub open spec fn optional_language(entries: Entries, key: FieldKey) -> Result<
    Option<ProgrammingLanguageView>,
    ParseError,
> {
    match optional(entries, key) {
        Err(e) => Err(e),
        Ok(None) => Ok(None),
        Ok(Some(doc)) => nested(ProgrammingLanguageView::decode(doc), key),
    }
}

impl CodeQueryView {
    /// A search with its identifier alone.
    pub open spec fn new(code_query_id: Seq<char>) -> Self {
        CodeQueryView { code_query_id, programming_language: None, user_input_message_id: None }
    }

    /// The same search with this language.
    pub open spec fn with_programming_language(self, lang: ProgrammingLanguageView) -> Self {
        CodeQueryView { programming_language: Some(lang), ..self }
    }

    /// The same search with this message identifier.
    pub open spec fn with_user_input_message_id(self, id: Seq<char>) -> Self {
        CodeQueryView { user_input_message_id: Some(id), ..self }
    }

    /// The document that stands for the field `key` of the search: none where the
    /// field is absent, and none where the search has no such field.
    pub open spec fn field(self, key: FieldKey) -> Option<Doc> {
        match key {
            FieldKey::CodeQueryId => Some(Doc::Text(self.code_query_id)),
            FieldKey::ProgrammingLanguage => language_doc(self.programming_language),
            FieldKey::UserInputMessageId => text_doc(self.user_input_message_id),
            _ => None,
        }
    }

    /// The entries of the search's object: `codeQueryId`, then each of
    /// `programmingLanguage` and `userInputMessageId` that is there.
    pub open spec fn entries(self) -> Entries {
        put_opt(
            put_opt(
                put(Seq::empty(), FieldKey::CodeQueryId, Doc::Text(self.code_query_id)),
                FieldKey::ProgrammingLanguage,
                language_doc(self.programming_language),
            ),
            FieldKey::UserInputMessageId,
            text_doc(self.user_input_message_id),
        )
    }

    /// The document that the search is written as.
    pub open spec fn encode(self) -> Doc {
        Doc::Object(self.entries())
    }

    /// The search that the entries of an object stand for, or the first thing
    /// that keeps them from standing for one, the fields taken in the order
    /// `codeQueryId`, `programmingLanguage`, `userInputMessageId`.
    pub open spec fn decode_entries(entries: Entries) -> Result<Self, ParseError> {
        match required_text(entries, FieldKey::CodeQueryId) {
            Err(e) => Err(e),
            Ok(code_query_id) => match optional_language(entries, FieldKey::ProgrammingLanguage) {
                Err(e) => Err(e),
                Ok(programming_language) => match optional_text(
                    entries,
                    FieldKey::UserInputMessageId,
                ) {
                    Err(e) => Err(e),
                    Ok(user_input_message_id) => Ok(
                        CodeQueryView {
                            code_query_id,
                            programming_language,
                            user_input_message_id,
                        },
                    ),
                },
            },
        }
    }

    /// The search that a document stands for, or why it stands for none.
    pub open spec fn decode(doc: Doc) -> Result<Self, ParseError> {
        match doc {
            Doc::Object(entries) => Self::decode_entries(entries),
            _ => Err(ParseError::NotAnObject { found: doc.kind() }),
        }
    }
}

impl View for CodeQuery {
    type V = CodeQueryView;

    open spec fn view(&self) -> CodeQueryView {
        CodeQueryView {
            code_query_id: self.code_query_id@,
            programming_language: language_view(self.programming_language),
            user_input_message_id: text_view(self.user_input_message_id),
        }
    }
}

impl PartialEq for CodeQuery {
    /// Whether the two hold the same in every field.
    fn eq(&self, other: &Self) -> (same: bool) {
        let same_language = match (&self.programming_language, &other.programming_language) {
            (None, None) => true,
            (Some(x), Some(y)) => x == y,
            _ => false,
        };
        self.code_query_id == other.code_query_id && same_language && same_optional_text(
            &self.user_input_message_id,
            &other.user_input_message_id,
        )
    }
}

impl vstd::std_specs::cmp::PartialEqSpecImpl for CodeQuery {
    open spec fn obeys_eq_spec() -> bool {
        true
    }

    open spec fn eq_spec(&self, other: &Self) -> bool {
        self@ == other@
    }
}

impl CodeQuery {
    /// A search known by `code_query_id`, with no language and no message.
    pub fn new(code_query_id: &str) -> (query: Self)
        ensures
            query@ == CodeQueryView::new(code_query_id@),
    {
        Self {
            code_query_id: code_query_id.to_owned(),
            programming_language: None,
            user_input_message_id: None,
        }
    }

    /// Sets the language and leaves the rest as it is.
    pub fn with_programming_language(self, lang: ProgrammingLanguage) -> (query: Self)
        ensures
            query@ == self@.with_programming_language(lang@),
    {
        let mut query = self;
        query.programming_language = Some(lang);
        query
    }

    /// Sets the message identifier and leaves the rest as it is.
    pub fn with_user_input_message_id(self, id: &str) -> (query: Self)
        ensures
            query@ == self@.with_user_input_message_id(id@),
    {
        let mut query = self;
        query.user_input_message_id = Some(id.to_owned());
        query
    }

    /// Writes the search as a document.
    pub fn to_wire(&self) -> (value: WireValue)
        ensures
            value@ == self@.encode(),
            CodeQueryView::decode(value@) == Ok::<CodeQueryView, ParseError>(self@),
    {
        let mut entries: Vec<(String, WireValue)> = Vec::new();
        assert(entries_view(&entries) =~= Seq::empty());
        push_entry(
            &mut entries,
            FieldKey::CodeQueryId,
            WireValue::Text(self.code_query_id.clone()),
        );
        if let Some(language) = &self.programming_language {
            push_entry(&mut entries, FieldKey::ProgrammingLanguage, language.to_wire());
        }
        if let Some(id) = &self.user_input_message_id {
            push_entry(&mut entries, FieldKey::UserInputMessageId, WireValue::Text(id.clone()));
        }
        let value = WireValue::Object(entries);
        proof {
            lemma_object_view(&value);
            lemma_query_round_trip(self@);
        }
        value
    }

    /// Reads a search out of a document.
    pub fn from_wire(value: &WireValue) -> (out: Result<Self, ParseError>)
        ensures
            result_view(out) == CodeQueryView::decode(value@),
    {
        match value {
            WireValue::Object(entries) => {
                proof {
                    lemma_object_view(value);
                }
                let code_query_id = read_required_text(entries, FieldKey::CodeQueryId)?;
                let programming_language = match read_optional(
                    entries,
                    FieldKey::ProgrammingLanguage,
                )? {
                    None => None,
                    Some(inner) => match ProgrammingLanguage::from_wire(inner) {
                        Ok(language) => Some(language),
                        Err(e) => {
                            return Err(
                                ParseError::Nested {
                                    field: FieldKey::ProgrammingLanguage,
                                    cause: Box::new(e),
                                },
                            );
                        },
                    },
                };
                let user_input_message_id = read_optional_text(
                    entries,
                    FieldKey::UserInputMessageId,
                )?;
                Ok(Self { code_query_id, programming_language, user_input_message_id })
            },
            _ => Err(ParseError::NotAnObject { found: value.kind() }),
        }
    }
}

/// What is written for a search holds, under the key of each field, the
/// document of that field and no other entry where the field is there, and
/// no entry where it is not.
pub proof fn lemma_query_entries(query: CodeQueryView, key: FieldKey)
    ensures
        lookup(query.entries(), key.spec_wire_name()) == found(query.field(key)),
{
    let e0: Entries = Seq::empty();
    let e1 = put(e0, FieldKey::CodeQueryId, Doc::Text(query.code_query_id));
    let e2 = put_opt(e1, FieldKey::ProgrammingLanguage, language_doc(query.programming_language));
    lemma_lookup_empty(key.spec_wire_name());
    lemma_lookup_put(e0, FieldKey::CodeQueryId, Doc::Text(query.code_query_id), key);
    lemma_lookup_put_opt(
        e1,
        FieldKey::ProgrammingLanguage,
        language_doc(query.programming_language),
        key,
    );
    lemma_lookup_put_opt(
        e2,
        FieldKey::UserInputMessageId,
        text_doc(query.user_input_message_id),
        key,
    );
}

/// A field of a search that is absent leaves no entry under its key in what is
/// written, and a field that is there leaves one.
pub proof fn lemma_query_omission(query: CodeQueryView, key: FieldKey)
    ensures
        holds_key(query.entries(), key) <==> query.field(key) is Some,
{
    lemma_query_entries(query, key);
    lemma_holds_key(query.entries(), key);
}

/// Reading what was written gives the search back, with what was absent still
/// absent, the language inside it included.
pub proof fn lemma_query_round_trip(query: CodeQueryView)
    ensures
        CodeQueryView::decode(query.encode()) == Ok::<CodeQueryView, ParseError>(query),
{
    lemma_query_entries(query, FieldKey::CodeQueryId);
    lemma_query_entries(query, FieldKey::ProgrammingLanguage);
    lemma_query_entries(query, FieldKey::UserInputMessageId);
    if let Some(language) = query.programming_language {
        crate::language::lemma_language_round_trip(language);
    }
}

/// Setting the language and the message identifier gives the same search in
/// either order.
pub proof fn lemma_query_builders_commute(
    query: CodeQueryView,
    lang: ProgrammingLanguageView,
    id: Seq<char>,
)
    ensures
        query.with_programming_language(lang).with_user_input_message_id(id)
            == query.with_user_input_message_id(id).with_programming_language(lang),
{
}

} // verus!

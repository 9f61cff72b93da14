//! A web page cited beside an answer.

use crate::error::ParseError;
use crate::fields::{
    Entries, entries_view, found, holds_key, lemma_holds_key, lemma_lookup_empty, lemma_lookup_put,
    lemma_lookup_put_opt, lemma_object_view, lookup, number_doc, optional_number, optional_text,
    push_entry, put, put_opt, read_optional_number, read_optional_text, read_required_text,
    required_text, result_view, same_optional_text, text_doc, text_view,
};
use crate::keys::FieldKey;
use crate::wire::{Doc, Number, WireValue};
use vstd::prelude::*;

verus! {

/// A link to a web page, with what is known about the page.
#[derive(Debug, Clone, Eq)]
pub struct SupplementaryWebLink {
    /// Where the page is.
    pub url: String,
    /// The page's title.
    pub title: Option<String>,
    /// A passage from the page.
    pub snippet: Option<String>,
    /// How relevant the page is; any number is taken.
    pub score: Option<Number>,
}

/// What a `SupplementaryWebLink` holds, as mathematics sees it.
pub struct SupplementaryWebLinkView {
    pub url: Seq<char>,
    pub title: Option<Seq<char>>,
    pub snippet: Option<Seq<char>>,
    pub score: Option<Number>,
}

impl SupplementaryWebLinkView {
    /// A link with nothing but its address.
    pub open spec fn new(url: Seq<char>) -> Self {
        SupplementaryWebLinkView { url, title: None, snippet: None, score: None }
    }

    /// The same link with this title.
    pub open spec fn with_title(self, title: Seq<char>) -> Self {
        SupplementaryWebLinkView { title: Some(title), ..self }
    }

    /// The same link with this snippet.
    pub open spec fn with_snippet(self, snippet: Seq<char>) -> Self {
        SupplementaryWebLinkView { snippet: Some(snippet), ..self }
    }

    /// The same link with this score.
    pub open spec fn with_score(self, score: Number) -> Self {
        SupplementaryWebLinkView { score: Some(score), ..self }
    }

    /// The document that stands for the field `key` of the link: none where the
    /// field is absent, and none where the link has no such field.
    pub open spec fn field(self, key: FieldKey) -> Option<Doc> {
        match key {
            FieldKey::Url => Some(Doc::Text(self.url)),
            FieldKey::Title => text_doc(self.title),
            FieldKey::Snippet => text_doc(self.snippet),
            FieldKey::Score => number_doc(self.score),
            _ => None,
        }
    }

    /// The entries of the link's object: `url`, then each of `title`,
    /// `snippet` and `score` that is there.
    pub open spec fn entries(self) -> Entries {
        put_opt(
            put_opt(
                put_opt(
                    put(Seq::empty(), FieldKey::Url, Doc::Text(self.url)),
                    FieldKey::Title,
                    text_doc(self.title),
                ),
                FieldKey::Snippet,
                text_doc(self.snippet),
            ),
            FieldKey::Score,
            number_doc(self.score),
        )
    }

    /// The document that the link is written as.
    pub open spec fn encode(self) -> Doc {
        Doc::Object(self.entries())
    }

    /// The link that the entries of an object stand for, or the first thing
    /// that keeps them from standing for one, the fields taken in the order
    /// `url`, `title`, `snippet`, `score`.
    pub open spec fn decode_entries(entries: Entries) -> Result<Self, ParseError> {
        match required_text(entries, FieldKey::Url) {
            Err(e) => Err(e),
            Ok(url) => match optional_text(entries, FieldKey::Title) {
                Err(e) => Err(e),
                Ok(title) => match optional_text(entries, FieldKey::Snippet) {
                    Err(e) => Err(e),
                    Ok(snippet) => match optional_number(entries, FieldKey::Score) {
                        Err(e) => Err(e),
                        Ok(score) => Ok(SupplementaryWebLinkView { url, title, snippet, score }),
                    },
                },
            },
        }
    }

    /// The link that a document stands for, or why it stands for none.
    pub open spec fn decode(doc: Doc) -> Result<Self, ParseError> {
        match doc {
            Doc::Object(entries) => Self::decode_entries(entries),
            _ => Err(ParseError::NotAnObject { found: doc.kind() }),
        }
    }
}

impl View for SupplementaryWebLink {
    type V = SupplementaryWebLinkView;

    open spec fn view(&self) -> SupplementaryWebLinkView {
        SupplementaryWebLinkView {
            url: self.url@,
            title: text_view(self.title),
            snippet: text_view(self.snippet),
            score: self.score,
        }
    }
}

impl PartialEq for SupplementaryWebLink {
    /// Whether the two hold the same in every field.
    fn eq(&self, other: &Self) -> (same: bool) {
        let same_score = match (&self.score, &other.score) {
            (None, None) => true,
            (Some(x), Some(y)) => *x == *y,
            _ => false,
        };
        self.url == other.url && same_optional_text(&self.title, &other.title)
            && same_optional_text(&self.snippet, &other.snippet) && same_score
    }
}

impl vstd::std_specs::cmp::PartialEqSpecImpl for SupplementaryWebLink {
    open spec fn obeys_eq_spec() -> bool {
        true
    }

    open spec fn eq_spec(&self, other: &Self) -> bool {
        self@ == other@
    }
}

impl SupplementaryWebLink {
    /// A link to `url` with no title, snippet or score.
    pub fn new(url: &str) -> (link: Self)
        ensures
            link@ == SupplementaryWebLinkView::new(url@),
    {
        Self { url: url.to_owned(), title: None, snippet: None, score: None }
    }

    /// Sets the title and leaves the rest as it is.
    pub fn with_title(self, title: &str) -> (link: Self)
        ensures
            link@ == self@.with_title(title@),
    {
        let mut link = self;
        link.title = Some(title.to_owned());
        link
    }

    /// Sets the snippet and leaves the rest as it is.
    pub fn with_snippet(self, snippet: &str) -> (link: Self)
        ensures
            link@ == self@.with_snippet(snippet@),
    {
        let mut link = self;
        link.snippet = Some(snippet.to_owned());
        link
    }

    /// Sets the score and leaves the rest as it is.
    pub fn with_score(self, score: Number) -> (link: Self)
        ensures
            link@ == self@.with_score(score),
    {
        let mut link = self;
        link.score = Some(score);
        link
    }

    /// Writes the link as a document.
    pub fn to_wire(&self) -> (value: WireValue)
        ensures
            value@ == self@.encode(),
            SupplementaryWebLinkView::decode(value@) == Ok::<
                SupplementaryWebLinkView,
                ParseError,
            >(self@),
    {
        let mut entries: Vec<(String, WireValue)> = Vec::new();
        assert(entries_view(&entries) =~= Seq::empty());
        push_entry(&mut entries, FieldKey::Url, WireValue::Text(self.url.clone()));
        if let Some(title) = &self.title {
            push_entry(&mut entries, FieldKey::Title, WireValue::Text(title.clone()));
        }
        if let Some(snippet) = &self.snippet {
            push_entry(&mut entries, FieldKey::Snippet, WireValue::Text(snippet.clone()));
        }
        if let Some(score) = &self.score {
            push_entry(&mut entries, FieldKey::Score, WireValue::Number(*score));
        }
        let value = WireValue::Object(entries);
        proof {
            lemma_object_view(&value);
            lemma_link_round_trip(self@);
        }
        value
    }

    /// Reads a link out of a document.
    pub fn from_wire(value: &WireValue) -> (out: Result<Self, ParseError>)
        ensures
            result_view(out) == SupplementaryWebLinkView::decode(value@),
    {
        match value {
            WireValue::Object(entries) => {
                proof {
                    lemma_object_view(value);
                }
                let url = read_required_text(entries, FieldKey::Url)?;
                let title = read_optional_text(entries, FieldKey::Title)?;
                let snippet = read_optional_text(entries, FieldKey::Snippet)?;
                let score = read_optional_number(entries, FieldKey::Score)?;
                Ok(Self { url, title, snippet, score })
            },
            _ => Err(ParseError::NotAnObject { found: value.kind() }),
        }
    }
}

/// What is written for a link holds, under the key of each field, the
/// document of that field and no other entry where the field is there, and
/// no entry where it is not.
pub proof fn lemma_link_entries(link: SupplementaryWebLinkView, key: FieldKey)
    ensures
        lookup(link.entries(), key.spec_wire_name()) == found(link.field(key)),
{
    let e0: Entries = Seq::empty();
    let e1 = put(e0, FieldKey::Url, Doc::Text(link.url));
    let e2 = put_opt(e1, FieldKey::Title, text_doc(link.title));
    let e3 = put_opt(e2, FieldKey::Snippet, text_doc(link.snippet));
    lemma_lookup_empty(key.spec_wire_name());
    lemma_lookup_put(e0, FieldKey::Url, Doc::Text(link.url), key);
    lemma_lookup_put_opt(e1, FieldKey::Title, text_doc(link.title), key);
    lemma_lookup_put_opt(e2, FieldKey::Snippet, text_doc(link.snippet), key);
    lemma_lookup_put_opt(e3, FieldKey::Score, number_doc(link.score), key);
}

/// A field of a link that is absent leaves no entry under its key in what is
/// written, and a field that is there leaves one.
pub proof fn lemma_link_omission(link: SupplementaryWebLinkView, key: FieldKey)
    ensures
        holds_key(link.entries(), key) <==> link.field(key) is Some,
{
    lemma_link_entries(link, key);
    lemma_holds_key(link.entries(), key);
}

/// Reading what was written gives the link back, field for field, with what
/// was absent still absent.
pub proof fn lemma_link_round_trip(link: SupplementaryWebLinkView)
    ensures
        SupplementaryWebLinkView::decode(link.encode()) == Ok::<
            SupplementaryWebLinkView,
            ParseError,
        >(link),
{
    lemma_link_entries(link, FieldKey::Url);
    lemma_link_entries(link, FieldKey::Title);
    lemma_link_entries(link, FieldKey::Snippet);
    lemma_link_entries(link, FieldKey::Score);
}

/// Setting title, snippet and score gives the same link in whatever order the
/// three are set.
pub proof fn lemma_link_builders_commute(
    link: SupplementaryWebLinkView,
    title: Seq<char>,
    snippet: Seq<char>,
    score: Number,
)
    ensures
        link.with_title(title).with_snippet(snippet) == link.with_snippet(snippet).with_title(
            title,
        ),
        link.with_title(title).with_score(score) == link.with_score(score).with_title(title),
        link.with_snippet(snippet).with_score(score) == link.with_score(score).with_snippet(
            snippet,
        ),
{
}

} // verus!

//! Where a piece of suggested code comes from.

use crate::error::ParseError;
use crate::fields::{
    Entries, entries_view, found, holds_key, lemma_holds_key, lemma_lookup_empty, lemma_lookup_put,
    lemma_lookup_put_opt, lemma_object_view, lookup, nested, optional, optional_text, push_entry,
    put, put_opt, read_optional, read_optional_text, read_required_text, required_text,
    result_view, same_optional_text, text_doc, text_view,
};
use crate::keys::FieldKey;
use crate::span::ContentSpan;
use crate::wire::{Doc, WireValue};
use vstd::prelude::*;

verus! {

/// Another source that could have been cited in place of the one that was,
/// such as the same code under another licence.
#[derive(Debug, Clone, Eq)]
pub struct MostRelevantMissedAlternative {
    /// Where the alternative is.
    pub url: String,
    /// The licence it is under.
    pub license_name: Option<String>,
    /// The repository it is in.
    pub repository: Option<String>,
}

/// What a `MostRelevantMissedAlternative` holds, as mathematics sees it.
pub struct MostRelevantMissedAlternativeView {
    pub url: Seq<char>,
    pub license_name: Option<Seq<char>>,
    pub repository: Option<Seq<char>>,
}

impl MostRelevantMissedAlternativeView {
    /// The document that stands for the field `key` of the alternative: none where the
    /// field is absent, and none where the alternative has no such field.
    pub open spec fn field(self, key: FieldKey) -> Option<Doc> {
        match key {
            FieldKey::Url => Some(Doc::Text(self.url)),
            FieldKey::LicenseName => text_doc(self.license_name),
            FieldKey::Repository => text_doc(self.repository),
            _ => None,
        }
    }

    /// The entries of the alternative's object: `url`, then each of
    /// `licenseName` and `repository` that is there.
    pub open spec fn entries(self) -> Entries {
        put_opt(
            put_opt(
                put(Seq::empty(), FieldKey::Url, Doc::Text(self.url)),
                FieldKey::LicenseName,
                text_doc(self.license_name),
            ),
            FieldKey::Repository,
            text_doc(self.repository),
        )
    }

    /// The document that the alternative is written as.
    pub open spec fn encode(self) -> Doc {
        Doc::Object(self.entries())
    }

    /// The alternative that the entries of an object stand for, or the first
    /// thing that keeps them from standing for one, the fields taken in the
    /// order `url`, `licenseName`, `repository`.
    pub open spec fn decode_entries(entries: Entries) -> Result<Self, ParseError> {
        match required_text(entries, FieldKey::Url) {
            Err(e) => Err(e),
            Ok(url) => match optional_text(entries, FieldKey::LicenseName) {
                Err(e) => Err(e),
                Ok(license_name) => match optional_text(entries, FieldKey::Repository) {
                    Err(e) => Err(e),
                    Ok(repository) => Ok(
                        MostRelevantMissedAlternativeView { url, license_name, repository },
                    ),
                },
            },
        }
    }

    /// The alternative that a document stands for, or why it stands for none.
    pub open spec fn decode(doc: Doc) -> Result<Self, ParseError> {
        match doc {
            Doc::Object(entries) => Self::decode_entries(entries),
            _ => Err(ParseError::NotAnObject { found: doc.kind() }),
        }
    }
}

impl View for MostRelevantMissedAlternative {
    type V = MostRelevantMissedAlternativeView;

    open spec fn view(&self) -> MostRelevantMissedAlternativeView {
        MostRelevantMissedAlternativeView {
            url: self.url@,
            license_name: text_view(self.license_name),
            repository: text_view(self.repository),
        }
    }
}

impl PartialEq for MostRelevantMissedAlternative {
    /// Whether the two hold the same in every field.
    fn eq(&self, other: &Self) -> (same: bool) {
        self.url == other.url && same_optional_text(&self.license_name, &other.license_name)
            && same_optional_text(&self.repository, &other.repository)
    }
}

impl vstd::std_specs::cmp::PartialEqSpecImpl for MostRelevantMissedAlternative {
    open spec fn obeys_eq_spec() -> bool {
        true
    }

    open spec fn eq_spec(&self, other: &Self) -> bool {
        self@ == other@
    }
}

impl MostRelevantMissedAlternative {
    /// An alternative at `url`, with no licence and no repository.
    pub fn new(url: &str) -> (alternative: Self)
        ensures
            alternative@ == (MostRelevantMissedAlternativeView {
                url: url@,
                license_name: None,
                repository: None,
            }),
    {
        Self { url: url.to_owned(), license_name: None, repository: None }
    }

    /// Writes the alternative as a document.
    pub fn to_wire(&self) -> (value: WireValue)
        ensures
            value@ == self@.encode(),
            MostRelevantMissedAlternativeView::decode(value@) == Ok::<
                MostRelevantMissedAlternativeView,
                ParseError,
            >(self@),
    {
        let mut entries: Vec<(String, WireValue)> = Vec::new();
        assert(entries_view(&entries) =~= Seq::empty());
        push_entry(&mut entries, FieldKey::Url, WireValue::Text(self.url.clone()));
        if let Some(license_name) = &self.license_name {
            push_entry(&mut entries, FieldKey::LicenseName, WireValue::Text(license_name.clone()));
        }
        if let Some(repository) = &self.repository {
            push_entry(&mut entries, FieldKey::Repository, WireValue::Text(repository.clone()));
        }
        let value = WireValue::Object(entries);
        proof {
            lemma_object_view(&value);
            lemma_alternative_round_trip(self@);
        }
        value
    }

    /// Reads an alternative out of a document.
    pub fn from_wire(value: &WireValue) -> (out: Result<Self, ParseError>)
        ensures
            result_view(out) == MostRelevantMissedAlternativeView::decode(value@),
    {
        match value {
            WireValue::Object(entries) => {
                proof {
                    lemma_object_view(value);
                }
                let url = read_required_text(entries, FieldKey::Url)?;
                let license_name = read_optional_text(entries, FieldKey::LicenseName)?;
                let repository = read_optional_text(entries, FieldKey::Repository)?;
                Ok(Self { url, license_name, repository })
            },
            _ => Err(ParseError::NotAnObject { found: value.kind() }),
        }
    }
}

/// What is written for an alternative holds, under the key of each field, the
/// document of that field and no other entry where the field is there, and
/// no entry where it is not.
pub proof fn lemma_alternative_entries(
    alternative: MostRelevantMissedAlternativeView,
    key: FieldKey,
)
    ensures
        lookup(alternative.entries(), key.spec_wire_name()) == found(alternative.field(key)),
{
    let e0: Entries = Seq::empty();
    let e1 = put(e0, FieldKey::Url, Doc::Text(alternative.url));
    let e2 = put_opt(e1, FieldKey::LicenseName, text_doc(alternative.license_name));
    lemma_lookup_empty(key.spec_wire_name());
    lemma_lookup_put(e0, FieldKey::Url, Doc::Text(alternative.url), key);
    lemma_lookup_put_opt(e1, FieldKey::LicenseName, text_doc(alternative.license_name), key);
    lemma_lookup_put_opt(e2, FieldKey::Repository, text_doc(alternative.repository), key);
}

/// A field of an alternative that is absent leaves no entry under its key in what is
/// written, and a field that is there leaves one.
pub proof fn lemma_alternative_omission(
    alternative: MostRelevantMissedAlternativeView,
    key: FieldKey,
)
    ensures
        holds_key(alternative.entries(), key) <==> alternative.field(key) is Some,
{
    lemma_alternative_entries(alternative, key);
    lemma_holds_key(alternative.entries(), key);
}

/// Reading what was written gives the alternative back, with what was absent
/// still absent.
pub proof fn lemma_alternative_round_trip(alternative: MostRelevantMissedAlternativeView)
    ensures
        MostRelevantMissedAlternativeView::decode(alternative.encode()) == Ok::<
            MostRelevantMissedAlternativeView,
            ParseError,
        >(alternative),
{
    lemma_alternative_entries(alternative, FieldKey::Url);
    lemma_alternative_entries(alternative, FieldKey::LicenseName);
    lemma_alternative_entries(alternative, FieldKey::Repository);
}

/// A citation of the source of suggested code. Every part of it may be
/// missing.
#[derive(Debug, Clone, Eq)]
pub struct Reference {
    /// The licence the source is under.
    pub license_name: Option<String>,
    /// The repository the source is in.
    pub repository: Option<String>,
    /// Where the source is.
    pub url: Option<String>,
    /// Anything else to be said, as free text.
    pub information: Option<String>,
    /// Which part of the response the citation is about.
    pub recommendation_content_span: Option<ContentSpan>,
    /// A source that could have been cited instead.
    pub most_relevant_missed_alternative: Option<MostRelevantMissedAlternative>,
}

/// What a `Reference` holds, as mathematics sees it.
pub struct ReferenceView {
    pub license_name: Option<Seq<char>>,
    pub repository: Option<Seq<char>>,
    pub url: Option<Seq<char>>,
    pub information: Option<Seq<char>>,
    pub recommendation_content_span: Option<ContentSpan>,
    pub most_relevant_missed_alternative: Option<MostRelevantMissedAlternativeView>,
}

/// The document for `span`, where there is a `span`.
pub open spec fn span_doc(span: Option<ContentSpan>) -> Option<Doc> {
    match span {
        Some(s) => Some(s.encode()),
        None => None,
    }
}

/// The document for `alternative`, where there is an `alternative`.
pub open spec fn alternative_doc(alternative: Option<MostRelevantMissedAlternativeView>) -> Option<
    Doc,
> {
    match alternative {
        Some(a) => Some(a.encode()),
        None => None,
    }
}

/// The view of `alternative`, where there is an `alternative`.
pub open spec fn alternative_view(alternative: Option<MostRelevantMissedAlternative>) -> Option<
    MostRelevantMissedAlternativeView,
> {
    match alternative {
        Some(a) => Some(a@),
        None => None,
    }
}

/// A span field that may be left out.
pub open spec fn optional_span(entries: Entries, key: FieldKey) -> Result<
    Option<ContentSpan>,
    ParseError,
> {
    match optional(entries, key) {
        Err(e) => Err(e),
        Ok(None) => Ok(None),
        Ok(Some(doc)) => nested(ContentSpan::decode(doc), key),
    }
}

/// An alternative field that may be left out.
pub open spec fn optional_alternative(entries: Entries, key: FieldKey) -> Result<
    Option<MostRelevantMissedAlternativeView>,
    ParseError,
> {
    match optional(entries, key) {
        Err(e) => Err(e),
        Ok(None) => Ok(None),
        Ok(Some(doc)) => nested(MostRelevantMissedAlternativeView::decode(doc), key),
    }
}

impl ReferenceView {
    /// The citation that says nothing.
    pub open spec fn new() -> Self {
        ReferenceView {
            license_name: None,
            repository: None,
            url: None,
            information: None,
            recommendation_content_span: None,
            most_relevant_missed_alternative: None,
        }
    }

    /// The same citation with this licence.
    pub open spec fn with_license_name(self, name: Seq<char>) -> Self {
        ReferenceView { license_name: Some(name), ..self }
    }

    /// The same citation with this repository.
    pub open spec fn with_repository(self, repo: Seq<char>) -> Self {
        ReferenceView { repository: Some(repo), ..self }
    }

    /// The same citation with this address.
    pub open spec fn with_url(self, url: Seq<char>) -> Self {
        ReferenceView { url: Some(url), ..self }
    }

    /// The document that stands for the field `key` of the citation: none where the
    /// field is absent, and none where the citation has no such field.
    pub open spec fn field(self, key: FieldKey) -> Option<Doc> {
        match key {
            FieldKey::LicenseName => text_doc(self.license_name),
            FieldKey::Repository => text_doc(self.repository),
            FieldKey::Url => text_doc(self.url),
            FieldKey::Information => text_doc(self.information),
            FieldKey::RecommendationContentSpan => span_doc(self.recommendation_content_span),
            FieldKey::MostRelevantMissedAlternative => alternative_doc(
                self.most_relevant_missed_alternative,
            ),
            _ => None,
        }
    }

    /// The entries of the citation's object: each field that is there, in the
    /// order `licenseName`, `repository`, `url`, `information`,
    /// `recommendationContentSpan`, `mostRelevantMissedAlternative`.
    pub open spec fn entries(self) -> Entries {
        put_opt(
            put_opt(
                put_opt(
                    put_opt(
                        put_opt(
                            put_opt(
                                Seq::empty(),
                                FieldKey::LicenseName,
                                text_doc(self.license_name),
                            ),
                            FieldKey::Repository,
                            text_doc(self.repository),
                        ),
                        FieldKey::Url,
                        text_doc(self.url),
                    ),
                    FieldKey::Information,
                    text_doc(self.information),
                ),
                FieldKey::RecommendationContentSpan,
                span_doc(self.recommendation_content_span),
            ),
            FieldKey::MostRelevantMissedAlternative,
            alternative_doc(self.most_relevant_missed_alternative),
        )
    }

    /// The document that the citation is written as.
    pub open spec fn encode(self) -> Doc {
        Doc::Object(self.entries())
    }

    /// The citation that the entries of an object stand for, or the first
    /// thing that keeps them from standing for one, the fields taken in the
    /// order in which `entries` lists them.
    pub open spec fn decode_entries(entries: Entries) -> Result<Self, ParseError> {
        match optional_text(entries, FieldKey::LicenseName) {
            Err(e) => Err(e),
            Ok(license_name) => match optional_text(entries, FieldKey::Repository) {
                Err(e) => Err(e),
                Ok(repository) => match optional_text(entries, FieldKey::Url) {
                    Err(e) => Err(e),
                    Ok(url) => match optional_text(entries, FieldKey::Information) {
                        Err(e) => Err(e),
                        Ok(information) => match optional_span(
                            entries,
                            FieldKey::RecommendationContentSpan,
                        ) {
                            Err(e) => Err(e),
                            Ok(recommendation_content_span) => match optional_alternative(
                                entries,
                                FieldKey::MostRelevantMissedAlternative,
                            ) {
                                Err(e) => Err(e),
                                Ok(most_relevant_missed_alternative) => Ok(
                                    ReferenceView {
                                        license_name,
                                        repository,
                                        url,
                                        information,
                                        recommendation_content_span,
                                        most_relevant_missed_alternative,
                                    },
                                ),
                            },
                        },
                    },
                },
            },
        }
    }

    /// The citation that a document stands for, or why it stands for none.
    pub open spec fn decode(doc: Doc) -> Result<Self, ParseError> {
        match doc {
            Doc::Object(entries) => Self::decode_entries(entries),
            _ => Err(ParseError::NotAnObject { found: doc.kind() }),
        }
    }
}

impl View for Reference {
    type V = ReferenceView;

    open spec fn view(&self) -> ReferenceView {
        ReferenceView {
            license_name: text_view(self.license_name),
            repository: text_view(self.repository),
            url: text_view(self.url),
            information: text_view(self.information),
            recommendation_content_span: self.recommendation_content_span,
            most_relevant_missed_alternative: alternative_view(
                self.most_relevant_missed_alternative,
            ),
        }
    }
}

impl PartialEq for Reference {
    /// Whether the two hold the same in every field.
    fn eq(&self, other: &Self) -> (same: bool) {
        let same_span = match (
            &self.recommendation_content_span,
            &other.recommendation_content_span,
        ) {
            (None, None) => true,
            (Some(x), Some(y)) => *x == *y,
            _ => false,
        };
        let same_alternative = match (
            &self.most_relevant_missed_alternative,
            &other.most_relevant_missed_alternative,
        ) {
            (None, None) => true,
            (Some(x), Some(y)) => x == y,
            _ => false,
        };
        same_optional_text(&self.license_name, &other.license_name) && same_optional_text(
            &self.repository,
            &other.repository,
        ) && same_optional_text(&self.url, &other.url) && same_optional_text(
            &self.information,
            &other.information,
        ) && same_span && same_alternative
    }
}

impl vstd::std_specs::cmp::PartialEqSpecImpl for Reference {
    open spec fn obeys_eq_spec() -> bool {
        true
    }

    open spec fn eq_spec(&self, other: &Self) -> bool {
        self@ == other@
    }
}

impl Reference {
    /// The citation that says nothing: every field absent.
    pub fn new() -> (reference: Self)
        ensures
            reference@ == ReferenceView::new(),
    {
        Self {
            license_name: None,
            repository: None,
            url: None,
            information: None,
            recommendation_content_span: None,
            most_relevant_missed_alternative: None,
        }
    }

    /// Sets the licence and leaves the rest as it is.
    pub fn with_license_name(self, name: &str) -> (reference: Self)
        ensures
            reference@ == self@.with_license_name(name@),
    {
        let mut reference = self;
        reference.license_name = Some(name.to_owned());
        reference
    }

    /// Sets the repository and leaves the rest as it is.
    pub fn with_repository(self, repo: &str) -> (reference: Self)
        ensures
            reference@ == self@.with_repository(repo@),
    {
        let mut reference = self;
        reference.repository = Some(repo.to_owned());
        reference
    }

    /// Sets the address and leaves the rest as it is.
    pub fn with_url(self, url: &str) -> (reference: Self)
        ensures
            reference@ == self@.with_url(url@),
    {
        let mut reference = self;
        reference.url = Some(url.to_owned());
        reference
    }

    /// Writes the citation as a document.
    pub fn to_wire(&self) -> (value: WireValue)
        ensures
            value@ == self@.encode(),
            ReferenceView::decode(value@) == Ok::<ReferenceView, ParseError>(self@),
    {
        let mut entries: Vec<(String, WireValue)> = Vec::new();
        assert(entries_view(&entries) =~= Seq::empty());
        if let Some(license_name) = &self.license_name {
            push_entry(&mut entries, FieldKey::LicenseName, WireValue::Text(license_name.clone()));
        }
        if let Some(repository) = &self.repository {
            push_entry(&mut entries, FieldKey::Repository, WireValue::Text(repository.clone()));
        }
        if let Some(url) = &self.url {
            push_entry(&mut entries, FieldKey::Url, WireValue::Text(url.clone()));
        }
        if let Some(information) = &self.information {
            push_entry(&mut entries, FieldKey::Information, WireValue::Text(information.clone()));
        }
        if let Some(span) = &self.recommendation_content_span {
            push_entry(&mut entries, FieldKey::RecommendationContentSpan, span.to_wire());
        }
        if let Some(alternative) = &self.most_relevant_missed_alternative {
            push_entry(
                &mut entries,
                FieldKey::MostRelevantMissedAlternative,
                alternative.to_wire(),
            );
        }
        let value = WireValue::Object(entries);
        proof {
            lemma_object_view(&value);
            lemma_reference_round_trip(self@);
        }
        value
    }

    /// Reads a citation out of a document.
    pub fn from_wire(value: &WireValue) -> (out: Result<Self, ParseError>)
        ensures
            result_view(out) == ReferenceView::decode(value@),
    {
        match value {
            WireValue::Object(entries) => {
                proof {
                    lemma_object_view(value);
                }
                let license_name = read_optional_text(entries, FieldKey::LicenseName)?;
                let repository = read_optional_text(entries, FieldKey::Repository)?;
                let url = read_optional_text(entries, FieldKey::Url)?;
                let information = read_optional_text(entries, FieldKey::Information)?;
                let recommendation_content_span = match read_optional(
                    entries,
                    FieldKey::RecommendationContentSpan,
                )? {
                    None => None,
                    Some(inner) => match ContentSpan::from_wire(inner) {
                        Ok(span) => Some(span),
                        Err(e) => {
                            return Err(
                                ParseError::Nested {
                                    field: FieldKey::RecommendationContentSpan,
                                    cause: Box::new(e),
                                },
                            );
                        },
                    },
                };
                let most_relevant_missed_alternative = match read_optional(
                    entries,
                    FieldKey::MostRelevantMissedAlternative,
                )? {
                    None => None,
                    Some(inner) => match MostRelevantMissedAlternative::from_wire(inner) {
                        Ok(alternative) => Some(alternative),
                        Err(e) => {
                            return Err(
                                ParseError::Nested {
                                    field: FieldKey::MostRelevantMissedAlternative,
                                    cause: Box::new(e),
                                },
                            );
                        },
                    },
                };
                Ok(
                    Self {
                        license_name,
                        repository,
                        url,
                        information,
                        recommendation_content_span,
                        most_relevant_missed_alternative,
                    },
                )
            },
            _ => Err(ParseError::NotAnObject { found: value.kind() }),
        }
    }
}

impl Default for Reference {
    /// The citation that says nothing, as `new` gives it.
    fn default() -> (reference: Self)
        ensures
            reference@ == ReferenceView::new(),
    {
        Self::new()
    }
}

/// What is written for a citation holds, under the key of each field, the
/// document of that field and no other entry where the field is there, and
/// no entry where it is not.
pub proof fn lemma_reference_entries(reference: ReferenceView, key: FieldKey)
    ensures
        lookup(reference.entries(), key.spec_wire_name()) == found(reference.field(key)),
{
    let e0: Entries = Seq::empty();
    let e1 = put_opt(e0, FieldKey::LicenseName, text_doc(reference.license_name));
    let e2 = put_opt(e1, FieldKey::Repository, text_doc(reference.repository));
    let e3 = put_opt(e2, FieldKey::Url, text_doc(reference.url));
    let e4 = put_opt(e3, FieldKey::Information, text_doc(reference.information));
    let e5 = put_opt(
        e4,
        FieldKey::RecommendationContentSpan,
        span_doc(reference.recommendation_content_span),
    );
    lemma_lookup_empty(key.spec_wire_name());
    lemma_lookup_put_opt(e0, FieldKey::LicenseName, text_doc(reference.license_name), key);
    lemma_lookup_put_opt(e1, FieldKey::Repository, text_doc(reference.repository), key);
    lemma_lookup_put_opt(e2, FieldKey::Url, text_doc(reference.url), key);
    lemma_lookup_put_opt(e3, FieldKey::Information, text_doc(reference.information), key);
    lemma_lookup_put_opt(
        e4,
        FieldKey::RecommendationContentSpan,
        span_doc(reference.recommendation_content_span),
        key,
    );
    lemma_lookup_put_opt(
        e5,
        FieldKey::MostRelevantMissedAlternative,
        alternative_doc(reference.most_relevant_missed_alternative),
        key,
    );
}

/// A field of a citation that is absent leaves no entry under its key in what is
/// written, and a field that is there leaves one.
pub proof fn lemma_reference_omission(reference: ReferenceView, key: FieldKey)
    ensures
        holds_key(reference.entries(), key) <==> reference.field(key) is Some,
{
    lemma_reference_entries(reference, key);
    lemma_holds_key(reference.entries(), key);
}

/// Reading what was written gives the citation back, with what was absent
/// still absent, the span and the alternative inside it included.
pub proof fn lemma_reference_round_trip(reference: ReferenceView)
    ensures
        ReferenceView::decode(reference.encode()) == Ok::<ReferenceView, ParseError>(reference),
{
    lemma_reference_entries(reference, FieldKey::LicenseName);
    lemma_reference_entries(reference, FieldKey::Repository);
    lemma_reference_entries(reference, FieldKey::Url);
    lemma_reference_entries(reference, FieldKey::Information);
    lemma_reference_entries(reference, FieldKey::RecommendationContentSpan);
    lemma_reference_entries(reference, FieldKey::MostRelevantMissedAlternative);
    if let Some(span) = reference.recommendation_content_span {
        crate::span::lemma_span_round_trip(span);
    }
    if let Some(alternative) = reference.most_relevant_missed_alternative {
        lemma_alternative_round_trip(alternative);
    }
}

/// Setting licence, repository and address gives the same citation in
/// whatever order the three are set.
pub proof fn lemma_reference_builders_commute(
    reference: ReferenceView,
    name: Seq<char>,
    repo: Seq<char>,
    url: Seq<char>,
)
    ensures
        reference.with_license_name(name).with_repository(repo) == reference.with_repository(
            repo,
        ).with_license_name(name),
        reference.with_license_name(name).with_url(url) == reference.with_url(
            url,
        ).with_license_name(name),
        reference.with_repository(repo).with_url(url) == reference.with_url(url).with_repository(
            repo,
        ),
{
}

} // verus!

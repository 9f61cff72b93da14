//! A half-open interval of positions inside a response text.

use crate::error::ParseError;
use crate::fields::{
    Entries, entries_view, found, holds_key, lemma_holds_key, lemma_lookup_empty, lemma_lookup_put,
    lemma_object_view, lookup, push_entry, put, read_required_position, required_position,
};
use crate::keys::FieldKey;
use crate::wire::{Doc, Number, WireValue};
use vstd::prelude::*;

verus! {

/// The positions `start..end` of a piece of content.
///
/// No order between the two bounds is imposed: a span whose `start` is not
/// below its `end` holds nothing.
#[derive(Debug, Clone, Copy, PartialEq, Eq, Structural)]
pub struct ContentSpan {
    /// First position of the content.
    pub start: i32,
    /// Position just past the content.
    pub end: i32,
}

impl ContentSpan {
    /// The distance from `start` to `end` as a mathematical integer; negative
    /// when `start` lies beyond `end`.
    pub open spec fn spec_len(&self) -> int {
        self.end - self.start
    }

    /// Whether the span holds no position.
    pub open spec fn spec_is_empty(&self) -> bool {
        self.start >= self.end
    }

    /// Whether `spec_len` fits the machine integer that `len` returns.
    pub open spec fn len_fits(&self) -> bool {
        i32::MIN <= self.spec_len() <= i32::MAX
    }

    /// The document that stands for the field `key` of the span; none where the
    /// span has no such field.
    pub open spec fn field(self, key: FieldKey) -> Option<Doc> {
        match key {
            FieldKey::Start => Some(Doc::Number(Number::Integer(self.start as i64))),
            FieldKey::End => Some(Doc::Number(Number::Integer(self.end as i64))),
            _ => None,
        }
    }

    /// The entries of the span's object: `start`, then `end`.
    pub open spec fn entries(self) -> Entries {
        put(
            put(Seq::empty(), FieldKey::Start, Doc::Number(Number::Integer(self.start as i64))),
            FieldKey::End,
            Doc::Number(Number::Integer(self.end as i64)),
        )
    }

    /// The document that the span is written as.
    pub open spec fn encode(self) -> Doc {
        Doc::Object(self.entries())
    }

    /// The span that the entries of an object stand for, or the first thing
    /// that keeps them from standing for one, `start` taken before `end`.
    pub open spec fn decode_entries(entries: Entries) -> Result<Self, ParseError> {
        match required_position(entries, FieldKey::Start) {
            Err(e) => Err(e),
            Ok(start) => match required_position(entries, FieldKey::End) {
                Err(e) => Err(e),
                Ok(end) => Ok(ContentSpan { start, end }),
            },
        }
    }

    /// The span that a document stands for, or why it stands for none.
    pub open spec fn decode(doc: Doc) -> Result<Self, ParseError> {
        match doc {
            Doc::Object(entries) => Self::decode_entries(entries),
            _ => Err(ParseError::NotAnObject { found: doc.kind() }),
        }
    }

    /// A span from `start` to `end`; the bounds are taken as given.
    pub fn new(start: i32, end: i32) -> (span: Self)
        ensures
            span.start == start,
            span.end == end,
    {
        Self { start, end }
    }

    /// `end - start`, not clamped.
    pub fn len(&self) -> (n: i32)
        requires
            self.len_fits(),
        ensures
            n == self.spec_len(),
    {
        self.end - self.start
    }

    /// True exactly when `start >= end`.
    pub fn is_empty(&self) -> (empty: bool)
        ensures
            empty == self.spec_is_empty(),
    {
        self.start >= self.end
    }

    /// Writes the span as a document.
    pub fn to_wire(&self) -> (value: WireValue)
        ensures
            value@ == self.encode(),
            Self::decode(value@) == Ok::<ContentSpan, ParseError>(*self),
    {
        let mut entries: Vec<(String, WireValue)> = Vec::new();
        assert(entries_view(&entries) =~= Seq::empty());
        push_entry(
            &mut entries,
            FieldKey::Start,
            WireValue::Number(Number::Integer(self.start as i64)),
        );
        push_entry(
            &mut entries,
            FieldKey::End,
            WireValue::Number(Number::Integer(self.end as i64)),
        );
        let value = WireValue::Object(entries);
        proof {
            lemma_object_view(&value);
            lemma_span_round_trip(*self);
        }
        value
    }

    /// Reads a span out of a document.
    pub fn from_wire(value: &WireValue) -> (out: Result<Self, ParseError>)
        ensures
            out == Self::decode(value@),
    {
        match value {
            WireValue::Object(entries) => {
                proof {
                    lemma_object_view(value);
                }
                let start = read_required_position(entries, FieldKey::Start)?;
                let end = read_required_position(entries, FieldKey::End)?;
                Ok(Self { start, end })
            },
            _ => Err(ParseError::NotAnObject { found: value.kind() }),
        }
    }
}

/// A span whose start lies below its end holds something, and any other span
/// holds nothing; the length is the end less the start, whichever is larger.
pub proof fn lemma_span_emptiness(start: i32, end: i32)
    ensures
        start < end ==> !(ContentSpan { start, end }).spec_is_empty(),
        start == end ==> (ContentSpan { start, end }).spec_is_empty(),
        start > end ==> (ContentSpan { start, end }).spec_is_empty(),
        (ContentSpan { start, end }).spec_len() == end - start,
{
}

/// What is written for a span holds, under the key of each of its fields, the
/// document of that field and no other entry, and no entry under the key of
/// any other field.
pub proof fn lemma_span_entries(span: ContentSpan, key: FieldKey)
    ensures
        lookup(span.entries(), key.spec_wire_name()) == found(span.field(key)),
{
    let e0: Entries = Seq::empty();
    let e1 = put(e0, FieldKey::Start, Doc::Number(Number::Integer(span.start as i64)));
    lemma_lookup_empty(key.spec_wire_name());
    lemma_lookup_put(e0, FieldKey::Start, Doc::Number(Number::Integer(span.start as i64)), key);
    lemma_lookup_put(e1, FieldKey::End, Doc::Number(Number::Integer(span.end as i64)), key);
}

/// What is written for a span has an entry under `start` and `end`, and under
/// the key of no other field.
pub proof fn lemma_span_omission(span: ContentSpan, key: FieldKey)
    ensures
        holds_key(span.entries(), key) <==> span.field(key) is Some,
{
    lemma_span_entries(span, key);
    lemma_holds_key(span.entries(), key);
}

/// Reading what was written gives the span back.
pub proof fn lemma_span_round_trip(span: ContentSpan)
    ensures
        ContentSpan::decode(span.encode()) == Ok::<ContentSpan, ParseError>(span),
{
    lemma_span_entries(span, FieldKey::Start);
    lemma_span_entries(span, FieldKey::End);
}

} // verus!

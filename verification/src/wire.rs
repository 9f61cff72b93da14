//! The document model that values are written to and read from.
//!
//! A document is a tree of nulls, booleans, numbers, texts, lists and
//! objects. An object is an ordered list of keyed entries; nothing keeps a key
//! from occurring twice in it, so readers decide what a repeated key means.

use vstd::prelude::*;
use vstd::string::StringSliceAdditionalSpecFns;

verus! {

broadcast use vstd::std_specs::vec::group_vec_axioms;

/// A number as it stands in a document.
///
/// A real number is carried by the 64 bits of its IEEE 754 binary64 form, so
/// that it passes through unchanged; no arithmetic is done on it here.
#[derive(Debug, Clone, Copy, PartialEq, Eq, Structural)]
pub enum Number {
    /// A whole number.
    Integer(i64),
    /// A binary64 number, given by its bits.
    Real(u64),
}

/// The shape of a document node, without its content.
#[derive(Debug, Clone, Copy, PartialEq, Eq, Structural)]
pub enum ValueKind {
    Null,
    Bool,
    Integer,
    Real,
    Text,
    List,
    Object,
}

/// The mathematical content of a document: what a `WireValue` stands for.
pub enum Doc {
    Null,
    Bool(bool),
    Number(Number),
    Text(Seq<char>),
    List(Seq<Doc>),
    Object(Seq<(Seq<char>, Doc)>),
}

/// A document as held in memory.
#[derive(Debug, PartialEq, Eq)]
pub enum WireValue {
    Null,
    Bool(bool),
    Number(Number),
    Text(String),
    List(Vec<WireValue>),
    Object(Vec<(String, WireValue)>),
}

impl Number {
    /// `Integer` or `Real`, as the number is written.
    pub open spec fn spec_kind(self) -> ValueKind {
        match self {
            Number::Integer(_) => ValueKind::Integer,
            Number::Real(_) => ValueKind::Real,
        }
    }

    /// The shape of this number.
    pub fn kind(&self) -> (k: ValueKind)
        ensures
            k == self.spec_kind(),
    {
        match self {
            Number::Integer(_) => ValueKind::Integer,
            Number::Real(_) => ValueKind::Real,
        }
    }
}

impl Doc {
    /// The shape of the root node.
    pub open spec fn kind(self) -> ValueKind {
        match self {
            Doc::Null => ValueKind::Null,
            Doc::Bool(_) => ValueKind::Bool,
            Doc::Number(n) => n.spec_kind(),
            Doc::Text(_) => ValueKind::Text,
            Doc::List(_) => ValueKind::List,
            Doc::Object(_) => ValueKind::Object,
        }
    }
}

/// The document that `value` stands for: the same tree, with each text
/// taken as its characters.
pub open spec fn doc_of(value: WireValue) -> Doc
    decreases value,
{
    match value {
        WireValue::Null => Doc::Null,
        WireValue::Bool(b) => Doc::Bool(b),
        WireValue::Number(n) => Doc::Number(n),
        WireValue::Text(s) => Doc::Text(s@),
        WireValue::List(items) => Doc::List(
            Seq::new(
                items.len() as nat,
                |i: int|
                    if 0 <= i < items.len() {
                        doc_of(items[i])
                    } else {
                        Doc::Null
                    },
            ),
        ),
        WireValue::Object(entries) => Doc::Object(
            Seq::new(
                entries.len() as nat,
                |i: int|
                    if 0 <= i < entries.len() {
                        (entries[i].0@, doc_of(entries[i].1))
                    } else {
                        (Seq::empty(), Doc::Null)
                    },
            ),
        ),
    }
}

impl View for WireValue {
    type V = Doc;

    open spec fn view(&self) -> Doc {
        doc_of(*self)
    }
}

impl WireValue {
    /// The shape of the root node.
    pub fn kind(&self) -> (k: ValueKind)
        ensures
            k == self@.kind(),
    {
        match self {
            WireValue::Null => ValueKind::Null,
            WireValue::Bool(_) => ValueKind::Bool,
            WireValue::Number(n) => n.kind(),
            WireValue::Text(_) => ValueKind::Text,
            WireValue::List(_) => ValueKind::List,
            WireValue::Object(_) => ValueKind::Object,
        }
    }
}

/// Whether two texts hold the same characters.
pub fn same_text(a: &str, b: &str) -> (same: bool)
    ensures
        same == (a@ == b@),
{
    let x = a.as_bytes();
    let y = b.as_bytes();
    proof {
        vstd::utf8::encode_utf8_decode_utf8(a@);
        vstd::utf8::encode_utf8_decode_utf8(b@);
    }
    if x.len() != y.len() {
        return false;
    }
    let mut i: usize = 0;
    while i < x.len()
        invariant
            i <= x.len(),
            x.len() == y.len(),
            x@ == a.spec_bytes(),
            y@ == b.spec_bytes(),
            forall|j: int| 0 <= j < i ==> x@[j] == y@[j],
        decreases x.len() - i,
    {
        if x[i] != y[i] {
            return false;
        }
        i += 1;
    }
    assert(x@ =~= y@);
    true
}

} // verus!

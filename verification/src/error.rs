//! Why a document could not be read as a value.

use crate::keys::FieldKey;
use crate::wire::ValueKind;
use vstd::prelude::*;

verus! {

/// The one way in which reading can fail: the document does not have the
/// shape of the value. Each variant says where it went wrong and how.
#[derive(Debug, PartialEq, Eq)]
pub enum ParseError {
    /// The document is no object.
    NotAnObject { found: ValueKind },
    /// A field that the value must have is not in the object.
    MissingField { field: FieldKey },
    /// The object holds the field's key more than once.
    DuplicateField { field: FieldKey },
    /// The field is there, but what it holds has the wrong shape.
    TypeMismatch { field: FieldKey, expected: ValueKind, found: ValueKind },
    /// The field holds a whole number that does not fit in 32 bits.
    OutOfRange { field: FieldKey },
    /// The field holds a text that is no token of the expected form.
    MalformedToken { field: FieldKey },
    /// The field holds an object, and reading that object failed.
    Nested { field: FieldKey, cause: Box<ParseError> },
}

impl ParseError {
    /// The fields that lead from the document's root to the place of the
    /// failure, outermost first; empty where the root itself is at fault.
    pub open spec fn spec_path(self) -> Seq<FieldKey>
        decreases self,
    {
        match self {
            ParseError::NotAnObject { .. } => Seq::empty(),
            ParseError::MissingField { field } => seq![field],
            ParseError::DuplicateField { field } => seq![field],
            ParseError::TypeMismatch { field, .. } => seq![field],
            ParseError::OutOfRange { field } => seq![field],
            ParseError::MalformedToken { field } => seq![field],
            ParseError::Nested { field, cause } => seq![field] + cause.spec_path(),
        }
    }

    /// The fields that lead from the document's root to the place of the
    /// failure, outermost first.
    pub fn path(&self) -> (path: Vec<FieldKey>)
        ensures
            path@ == self.spec_path(),
    {
        let mut path: Vec<FieldKey> = Vec::new();
        self.extend_path(&mut path);
        path
    }

    /// Adds the fields that lead to the place of the failure to `path`.
    fn extend_path(&self, path: &mut Vec<FieldKey>)
        ensures
            final(path)@ == old(path)@ + self.spec_path(),
        decreases self,
    {
        match self {
            ParseError::NotAnObject { .. } => {
                assert(path@ =~= old(path)@ + self.spec_path());
            },
            ParseError::Nested { field, cause } => {
                path.push(*field);
                cause.extend_path(path);
                assert(path@ =~= old(path)@ + self.spec_path());
            },
            ParseError::MissingField { field }
            | ParseError::DuplicateField { field }
            | ParseError::TypeMismatch { field, .. }
            | ParseError::OutOfRange { field }
            | ParseError::MalformedToken { field } => {
                path.push(*field);
                assert(path@ =~= old(path)@ + self.spec_path());
            },
        }
    }
}

} // verus!

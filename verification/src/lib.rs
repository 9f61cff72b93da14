//! Value types carried inside the responses of an assistant service: spans of
//! content, cited web links, code references with their licences, suggested
//! follow-ups, programming languages, customisations and code queries.
//!
//! Each value is built from its required fields and extended by `with_`
//! methods. Each is written to a document and read out of one: an object whose
//! keys are the field names in camel case, in which an absent field leaves no
//! entry. What is written reads back as the same value, and Verus proves it.

pub mod custom;
pub mod error;
pub mod fields;
pub mod intent;
pub mod keys;
pub mod language;
pub mod link;
pub mod naming;
pub mod prompt;
pub mod query;
pub mod reference;
pub mod span;
pub mod wire;

pub use custom::Customization;
pub use error::ParseError;
pub use intent::UserIntent;
pub use keys::FieldKey;
pub use language::ProgrammingLanguage;
pub use link::SupplementaryWebLink;
pub use prompt::FollowupPrompt;
pub use query::CodeQuery;
pub use reference::{MostRelevantMissedAlternative, Reference};
pub use span::ContentSpan;
pub use wire::{Number, ValueKind, WireValue};

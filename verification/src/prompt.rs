//! A message that the user might send next.

use crate::error::ParseError;
use crate::fields::{
    as_text, Entries, entries_view, found, holds_key, lemma_holds_key, lemma_lookup_empty,
    lemma_lookup_put, lemma_lookup_put_opt, lemma_object_view, lookup, optional, push_entry, put,
    put_opt, read_optional, read_required_text, required_text, result_view, text_doc, text_of,
};
use crate::intent::{is_intent_token, UserIntent};
use crate::keys::FieldKey;
use crate::wire::{Doc, WireValue};
use vstd::prelude::*;

verus! {

/// A suggested follow-up: what to say, and what saying it is taken to ask
/// for.
#[derive(Debug, Clone, Eq)]
pub struct FollowupPrompt {
    /// The message.
    pub content: String,
    /// What the message is taken to ask for.
    pub user_intent: Option<UserIntent>,
}

/// What a `FollowupPrompt` holds, as mathematics sees it: the intent is there
/// as its token.
pub struct FollowupPromptView {
    pub content: Seq<char>,
    pub user_intent: Option<Seq<char>>,
}

/// The token of `intent`, where there is an `intent`.
pub open spec fn intent_view(intent: Option<UserIntent>) -> Option<Seq<char>> {
    match intent {
        Some(i) => Some(i@),
        None => None,
    }
}

/// The intent that `doc` holds, or how it fails to hold one.
pub open spec fn as_intent(doc: Doc, key: FieldKey) -> Result<Seq<char>, ParseError> {
    match as_text(doc, key) {
        Err(e) => Err(e),
        Ok(token) => if is_intent_token(token) {
            Ok(token)
        } else {
            Err(ParseError::MalformedToken { field: key })
        },
    }
}

/// An intent field that may be left out.
pub open spec fn optional_intent(entries: Entries, key: FieldKey) -> Result<
    Option<Seq<char>>,
    ParseError,
> {
    match optional(entries, key) {
        Err(e) => Err(e),
        Ok(None) => Ok(None),
        Ok(Some(doc)) => match as_intent(doc, key) {
            Ok(token) => Ok(Some(token)),
            Err(e) => Err(e),
        },
    }
}

impl FollowupPromptView {
    /// Whether the intent, if there is one, is a token in form. Every
    /// `FollowupPrompt` is seen as a view of which this holds.
    pub open spec fn well_formed(self) -> bool {
        self.user_intent matches Some(token) ==> is_intent_token(token)
    }

    /// A follow-up with its message alone.
    pub open spec fn new(content: Seq<char>) -> Self {
        FollowupPromptView { content, user_intent: None }
    }

    /// The same follow-up with this intent.
    pub open spec fn with_user_intent(self, token: Seq<char>) -> Self {
        FollowupPromptView { user_intent: Some(token), ..self }
    }

    /// The document that stands for the field `key` of the follow-up: none where the
    /// field is absent, and none where the follow-up has no such field.
    pub open spec fn field(self, key: FieldKey) -> Option<Doc> {
        match key {
            FieldKey::Content => Some(Doc::Text(self.content)),
            FieldKey::UserIntent => text_doc(self.user_intent),
            _ => None,
        }
    }

    /// The entries of the follow-up's object: `content`, then `userIntent`
    /// with the intent's token where there is an intent.
    pub open spec fn entries(self) -> Entries {
        put_opt(
            put(Seq::empty(), FieldKey::Content, Doc::Text(self.content)),
            FieldKey::UserIntent,
            text_doc(self.user_intent),
        )
    }

    /// The document that the follow-up is written as.
    pub open spec fn encode(self) -> Doc {
        Doc::Object(self.entries())
    }

    /// The follow-up that the entries of an object stand for, or the first
    /// thing that keeps them from standing for one, `content` taken before
    /// `userIntent`.
    pub open spec fn decode_entries(entries: Entries) -> Result<Self, ParseError> {
        match required_text(entries, FieldKey::Content) {
            Err(e) => Err(e),
            Ok(content) => match optional_intent(entries, FieldKey::UserIntent) {
                Err(e) => Err(e),
                Ok(user_intent) => Ok(FollowupPromptView { content, user_intent }),
            },
        }
    }

    /// The follow-up that a document stands for, or why it stands for none.
    pub open spec fn decode(doc: Doc) -> Result<Self, ParseError> {
        match doc {
            Doc::Object(entries) => Self::decode_entries(entries),
            _ => Err(ParseError::NotAnObject { found: doc.kind() }),
        }
    }
}

impl View for FollowupPrompt {
    type V = FollowupPromptView;

    open spec fn view(&self) -> FollowupPromptView {
        FollowupPromptView { content: self.content@, user_intent: intent_view(self.user_intent) }
    }
}

impl PartialEq for FollowupPrompt {
    /// Whether the two hold the same in every field.
    fn eq(&self, other: &Self) -> (same: bool) {
        let same_intent = match (&self.user_intent, &other.user_intent) {
            (None, None) => true,
            (Some(x), Some(y)) => x == y,
            _ => false,
        };
        self.content == other.content && same_intent
    }
}

impl vstd::std_specs::cmp::PartialEqSpecImpl for FollowupPrompt {
    open spec fn obeys_eq_spec() -> bool {
        true
    }

    open spec fn eq_spec(&self, other: &Self) -> bool {
        self@ == other@
    }
}

impl FollowupPrompt {
    /// A follow-up that says `content`, with no intent.
    pub fn new(content: &str) -> (prompt: Self)
        ensures
            prompt@ == FollowupPromptView::new(content@),
    {
        Self { content: content.to_owned(), user_intent: None }
    }

    /// Sets the intent and leaves the message as it is.
    pub fn with_user_intent(self, intent: UserIntent) -> (prompt: Self)
        ensures
            prompt@ == self@.with_user_intent(intent@),
    {
        let mut prompt = self;
        prompt.user_intent = Some(intent);
        prompt
    }

    /// Writes the follow-up as a document.
    pub fn to_wire(&self) -> (value: WireValue)
        ensures
            value@ == self@.encode(),
            self@.well_formed(),
            FollowupPromptView::decode(value@) == Ok::<FollowupPromptView, ParseError>(self@),
    {
        let mut entries: Vec<(String, WireValue)> = Vec::new();
        assert(entries_view(&entries) =~= Seq::empty());
        push_entry(&mut entries, FieldKey::Content, WireValue::Text(self.content.clone()));
        if let Some(intent) = &self.user_intent {
            let token = intent.token();
            push_entry(&mut entries, FieldKey::UserIntent, WireValue::Text(token.to_owned()));
        }
        let value = WireValue::Object(entries);
        proof {
            lemma_object_view(&value);
            lemma_prompt_round_trip(self@);
        }
        value
    }

    /// Reads a follow-up out of a document.
    pub fn from_wire(value: &WireValue) -> (out: Result<Self, ParseError>)
        ensures
            result_view(out) == FollowupPromptView::decode(value@),
    {
        match value {
            WireValue::Object(entries) => {
                proof {
                    lemma_object_view(value);
                }
                let content = read_required_text(entries, FieldKey::Content)?;
                let user_intent = match read_optional(entries, FieldKey::UserIntent)? {
                    None => None,
                    Some(inner) => {
                        let token = text_of(inner, FieldKey::UserIntent)?;
                        match UserIntent::from_token(token.as_str()) {
                            Some(intent) => Some(intent),
                            None => {
                                return Err(
                                    ParseError::MalformedToken { field: FieldKey::UserIntent },
                                );
                            },
                        }
                    },
                };
                Ok(Self { content, user_intent })
            },
            _ => Err(ParseError::NotAnObject { found: value.kind() }),
        }
    }
}

/// What is written for a follow-up holds, under the key of each field, the
/// document of that field and no other entry where the field is there, and
/// no entry where it is not.
pub proof fn lemma_prompt_entries(prompt: FollowupPromptView, key: FieldKey)
    ensures
        lookup(prompt.entries(), key.spec_wire_name()) == found(prompt.field(key)),
{
    let e0: Entries = Seq::empty();
    let e1 = put(e0, FieldKey::Content, Doc::Text(prompt.content));
    lemma_lookup_empty(key.spec_wire_name());
    lemma_lookup_put(e0, FieldKey::Content, Doc::Text(prompt.content), key);
    lemma_lookup_put_opt(e1, FieldKey::UserIntent, text_doc(prompt.user_intent), key);
}

/// A field of a follow-up that is absent leaves no entry under its key in what is
/// written, and a field that is there leaves one.
pub proof fn lemma_prompt_omission(prompt: FollowupPromptView, key: FieldKey)
    ensures
        holds_key(prompt.entries(), key) <==> prompt.field(key) is Some,
{
    lemma_prompt_entries(prompt, key);
    lemma_holds_key(prompt.entries(), key);
}

/// Reading what was written gives the follow-up back, with an absent intent
/// still absent.
pub proof fn lemma_prompt_round_trip(prompt: FollowupPromptView)
    requires
        prompt.well_formed(),
    ensures
        FollowupPromptView::decode(prompt.encode()) == Ok::<FollowupPromptView, ParseError>(prompt),
{
    lemma_prompt_entries(prompt, FieldKey::Content);
    lemma_prompt_entries(prompt, FieldKey::UserIntent);
}

} // verus!

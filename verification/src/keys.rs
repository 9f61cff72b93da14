//! The names of the fields, in memory and in a document.

use crate::naming::{camel_case, to_camel_case};
use vstd::prelude::*;

verus! {

/// A field of one of the value types.
///
/// Each field has two names: the one it goes by in memory, in snake case, and
/// the key under which it stands in a document, which is that name in camel
/// case.
#[derive(Debug, Clone, Copy, PartialEq, Eq, Structural)]
pub enum FieldKey {
    Url,
    Title,
    Snippet,
    Score,
    LicenseName,
    Repository,
    Information,
    RecommendationContentSpan,
    MostRelevantMissedAlternative,
    Content,
    UserIntent,
    LanguageName,
    Arn,
    Name,
    CodeQueryId,
    ProgrammingLanguage,
    UserInputMessageId,
    Start,
    End,
}

impl FieldKey {
    /// The characters of the name that the field has in memory.
    pub open spec fn spec_field_name(self) -> Seq<char> {
        match self {
            FieldKey::Url => "url"@,
            FieldKey::Title => "title"@,
            FieldKey::Snippet => "snippet"@,
            FieldKey::Score => "score"@,
            FieldKey::LicenseName => "license_name"@,
            FieldKey::Repository => "repository"@,
            FieldKey::Information => "information"@,
            FieldKey::RecommendationContentSpan => "recommendation_content_span"@,
            FieldKey::MostRelevantMissedAlternative => "most_relevant_missed_alternative"@,
            FieldKey::Content => "content"@,
            FieldKey::UserIntent => "user_intent"@,
            FieldKey::LanguageName => "language_name"@,
            FieldKey::Arn => "arn"@,
            FieldKey::Name => "name"@,
            FieldKey::CodeQueryId => "code_query_id"@,
            FieldKey::ProgrammingLanguage => "programming_language"@,
            FieldKey::UserInputMessageId => "user_input_message_id"@,
            FieldKey::Start => "start"@,
            FieldKey::End => "end"@,
        }
    }

    /// The characters of the key under which the field stands in a document.
    pub open spec fn spec_wire_name(self) -> Seq<char> {
        camel_case(self.spec_field_name())
    }

    /// The name that the field has in memory.
    pub fn field_name(&self) -> (name: &'static str)
        ensures
            name@ == self.spec_field_name(),
    {
        match self {
            FieldKey::Url => "url",
            FieldKey::Title => "title",
            FieldKey::Snippet => "snippet",
            FieldKey::Score => "score",
            FieldKey::LicenseName => "license_name",
            FieldKey::Repository => "repository",
            FieldKey::Information => "information",
            FieldKey::RecommendationContentSpan => "recommendation_content_span",
            FieldKey::MostRelevantMissedAlternative => "most_relevant_missed_alternative",
            FieldKey::Content => "content",
            FieldKey::UserIntent => "user_intent",
            FieldKey::LanguageName => "language_name",
            FieldKey::Arn => "arn",
            FieldKey::Name => "name",
            FieldKey::CodeQueryId => "code_query_id",
            FieldKey::ProgrammingLanguage => "programming_language",
            FieldKey::UserInputMessageId => "user_input_message_id",
            FieldKey::Start => "start",
            FieldKey::End => "end",
        }
    }

    /// The key under which the field stands in a document.
    pub fn wire_name(&self) -> (name: String)
        ensures
            name@ == self.spec_wire_name(),
    {
        to_camel_case(self.field_name())
    }

    /// The key of every field, written out.
    pub proof fn wire_names_spelled()
        ensures
            FieldKey::Url.spec_wire_name() == "url"@,
            FieldKey::Title.spec_wire_name() == "title"@,
            FieldKey::Snippet.spec_wire_name() == "snippet"@,
            FieldKey::Score.spec_wire_name() == "score"@,
            FieldKey::LicenseName.spec_wire_name() == "licenseName"@,
            FieldKey::Repository.spec_wire_name() == "repository"@,
            FieldKey::Information.spec_wire_name() == "information"@,
            FieldKey::RecommendationContentSpan.spec_wire_name() == "recommendationContentSpan"@,
            FieldKey::MostRelevantMissedAlternative.spec_wire_name()
                == "mostRelevantMissedAlternative"@,
            FieldKey::Content.spec_wire_name() == "content"@,
            FieldKey::UserIntent.spec_wire_name() == "userIntent"@,
            FieldKey::LanguageName.spec_wire_name() == "languageName"@,
            FieldKey::Arn.spec_wire_name() == "arn"@,
            FieldKey::Name.spec_wire_name() == "name"@,
            FieldKey::CodeQueryId.spec_wire_name() == "codeQueryId"@,
            FieldKey::ProgrammingLanguage.spec_wire_name() == "programmingLanguage"@,
            FieldKey::UserInputMessageId.spec_wire_name() == "userInputMessageId"@,
            FieldKey::Start.spec_wire_name() == "start"@,
            FieldKey::End.spec_wire_name() == "end"@,
    {
        lemma_key_url();
        lemma_key_title();
        lemma_key_snippet();
        lemma_key_score();
        lemma_key_license_name();
        lemma_key_repository();
        lemma_key_information();
        lemma_key_recommendation_content_span();
        lemma_key_most_relevant_missed_alternative();
        lemma_key_content();
        lemma_key_user_intent();
        lemma_key_language_name();
        lemma_key_arn();
        lemma_key_name();
        lemma_key_code_query_id();
        lemma_key_programming_language();
        lemma_key_user_input_message_id();
        lemma_key_start();
        lemma_key_end();
    }

    /// No two fields share a key: a key names its field.
    pub proof fn wire_names_distinct(a: FieldKey, b: FieldKey)
        ensures
            a.spec_wire_name() == b.spec_wire_name() <==> a == b,
    {
        Self::wire_names_spelled();
        reveal_strlit("url");
        reveal_strlit("title");
        reveal_strlit("snippet");
        reveal_strlit("score");
        reveal_strlit("licenseName");
        reveal_strlit("repository");
        reveal_strlit("information");
        reveal_strlit("recommendationContentSpan");
        reveal_strlit("mostRelevantMissedAlternative");
        reveal_strlit("content");
        reveal_strlit("userIntent");
        reveal_strlit("languageName");
        reveal_strlit("arn");
        reveal_strlit("name");
        reveal_strlit("codeQueryId");
        reveal_strlit("programmingLanguage");
        reveal_strlit("userInputMessageId");
        reveal_strlit("start");
        reveal_strlit("end");
        if a != b {
            let x = a.spec_wire_name();
            let y = b.spec_wire_name();
            assert(x.len() != y.len() || x[0] != y[0] || x[1] != y[1] || x[4] != y[4]);
        }
    }

    /// `wire_names_distinct`, for all pairs of fields at once.
    pub proof fn wire_names_injective()
        ensures
            forall|a: FieldKey, b: FieldKey|
                #[trigger] a.spec_wire_name() == #[trigger] b.spec_wire_name() ==> a == b,
    {
        assert forall|a: FieldKey, b: FieldKey|
            #[trigger] a.spec_wire_name() == #[trigger] b.spec_wire_name() implies a == b by {
            Self::wire_names_distinct(a, b);
        }
    }
}

proof fn lemma_key_url()
    ensures
        camel_case("url"@) == "url"@,
{
    broadcast use crate::naming::lemma_pascal_case_push;

    reveal_strlit("url");
    assert("url"@ =~= Seq::<char>::empty()
        .push('u').push('r').push('l'));
}

proof fn lemma_key_title()
    ensures
        camel_case("title"@) == "title"@,
{
    broadcast use crate::naming::lemma_pascal_case_push;

    reveal_strlit("title");
    assert("title"@ =~= Seq::<char>::empty()
        .push('t').push('i').push('t').push('l').push('e'));
}

proof fn lemma_key_snippet()
    ensures
        camel_case("snippet"@) == "snippet"@,
{
    broadcast use crate::naming::lemma_pascal_case_push;

    reveal_strlit("snippet");
    assert("snippet"@ =~= Seq::<char>::empty()
        .push('s').push('n').push('i').push('p').push('p').push('e').push('t'));
}

proof fn lemma_key_score()
    ensures
        camel_case("score"@) == "score"@,
{
    broadcast use crate::naming::lemma_pascal_case_push;

    reveal_strlit("score");
    assert("score"@ =~= Seq::<char>::empty()
        .push('s').push('c').push('o').push('r').push('e'));
}

proof fn lemma_key_license_name()
    ensures
        camel_case("license_name"@) == "licenseName"@,
{
    broadcast use crate::naming::lemma_pascal_case_push;

    reveal_strlit("license_name");
    reveal_strlit("licenseName");
    assert("license_name"@ =~= Seq::<char>::empty()
        .push('l').push('i').push('c').push('e').push('n').push('s').push('e').push('_')
        .push('n').push('a').push('m').push('e'));
}

proof fn lemma_key_repository()
    ensures
        camel_case("repository"@) == "repository"@,
{
    broadcast use crate::naming::lemma_pascal_case_push;

    reveal_strlit("repository");
    assert("repository"@ =~= Seq::<char>::empty()
        .push('r').push('e').push('p').push('o').push('s').push('i').push('t').push('o')
        .push('r').push('y'));
}

proof fn lemma_key_information()
    ensures
        camel_case("information"@) == "information"@,
{
    broadcast use crate::naming::lemma_pascal_case_push;

    reveal_strlit("information");
    assert("information"@ =~= Seq::<char>::empty()
        .push('i').push('n').push('f').push('o').push('r').push('m').push('a').push('t')
        .push('i').push('o').push('n'));
}

proof fn lemma_key_recommendation_content_span()
    ensures
        camel_case("recommendation_content_span"@) == "recommendationContentSpan"@,
{
    broadcast use crate::naming::lemma_pascal_case_push;

    reveal_strlit("recommendation_content_span");
    reveal_strlit("recommendationContentSpan");
    assert("recommendation_content_span"@ =~= Seq::<char>::empty()
        .push('r').push('e').push('c').push('o').push('m').push('m').push('e').push('n')
        .push('d').push('a').push('t').push('i').push('o').push('n').push('_').push('c')
        .push('o').push('n').push('t').push('e').push('n').push('t').push('_').push('s')
        .push('p').push('a').push('n'));
}

proof fn lemma_key_most_relevant_missed_alternative()
    ensures
        camel_case("most_relevant_missed_alternative"@) == "mostRelevantMissedAlternative"@,
{
    broadcast use crate::naming::lemma_pascal_case_push;

    reveal_strlit("most_relevant_missed_alternative");
    reveal_strlit("mostRelevantMissedAlternative");
    assert("most_relevant_missed_alternative"@ =~= Seq::<char>::empty()
        .push('m').push('o').push('s').push('t').push('_').push('r').push('e').push('l')
        .push('e').push('v').push('a').push('n').push('t').push('_').push('m').push('i')
        .push('s').push('s').push('e').push('d').push('_').push('a').push('l').push('t')
        .push('e').push('r').push('n').push('a').push('t').push('i').push('v').push('e'));
}

proof fn lemma_key_content()
    ensures
        camel_case("content"@) == "content"@,
{
    broadcast use crate::naming::lemma_pascal_case_push;

    reveal_strlit("content");
    assert("content"@ =~= Seq::<char>::empty()
        .push('c').push('o').push('n').push('t').push('e').push('n').push('t'));
}

proof fn lemma_key_user_intent()
    ensures
        camel_case("user_intent"@) == "userIntent"@,
{
    broadcast use crate::naming::lemma_pascal_case_push;

    reveal_strlit("user_intent");
    reveal_strlit("userIntent");
    assert("user_intent"@ =~= Seq::<char>::empty()
        .push('u').push('s').push('e').push('r').push('_').push('i').push('n').push('t')
        .push('e').push('n').push('t'));
}

proof fn lemma_key_language_name()
    ensures
        camel_case("language_name"@) == "languageName"@,
{
    broadcast use crate::naming::lemma_pascal_case_push;

    reveal_strlit("language_name");
    reveal_strlit("languageName");
    assert("language_name"@ =~= Seq::<char>::empty()
        .push('l').push('a').push('n').push('g').push('u').push('a').push('g').push('e')
        .push('_').push('n').push('a').push('m').push('e'));
}

proof fn lemma_key_arn()
    ensures
        camel_case("arn"@) == "arn"@,
{
    broadcast use crate::naming::lemma_pascal_case_push;

    reveal_strlit("arn");
    assert("arn"@ =~= Seq::<char>::empty()
        .push('a').push('r').push('n'));
}

proof fn lemma_key_name()
    ensures
        camel_case("name"@) == "name"@,
{
    broadcast use crate::naming::lemma_pascal_case_push;

    reveal_strlit("name");
    assert("name"@ =~= Seq::<char>::empty()
        .push('n').push('a').push('m').push('e'));
}

proof fn lemma_key_code_query_id()
    ensures
        camel_case("code_query_id"@) == "codeQueryId"@,
{
    broadcast use crate::naming::lemma_pascal_case_push;

    reveal_strlit("code_query_id");
    reveal_strlit("codeQueryId");
    assert("code_query_id"@ =~= Seq::<char>::empty()
        .push('c').push('o').push('d').push('e').push('_').push('q').push('u').push('e')
        .push('r').push('y').push('_').push('i').push('d'));
}

proof fn lemma_key_programming_language()
    ensures
        camel_case("programming_language"@) == "programmingLanguage"@,
{
    broadcast use crate::naming::lemma_pascal_case_push;

    reveal_strlit("programming_language");
    reveal_strlit("programmingLanguage");
    assert("programming_language"@ =~= Seq::<char>::empty()
        .push('p').push('r').push('o').push('g').push('r').push('a').push('m').push('m')
        .push('i').push('n').push('g').push('_').push('l').push('a').push('n').push('g')
        .push('u').push('a').push('g').push('e'));
}

proof fn lemma_key_user_input_message_id()
    ensures
        camel_case("user_input_message_id"@) == "userInputMessageId"@,
{
    broadcast use crate::naming::lemma_pascal_case_push;

    reveal_strlit("user_input_message_id");
    reveal_strlit("userInputMessageId");
    assert("user_input_message_id"@ =~= Seq::<char>::empty()
        .push('u').push('s').push('e').push('r').push('_').push('i').push('n').push('p')
        .push('u').push('t').push('_').push('m').push('e').push('s').push('s').push('a')
        .push('g').push('e').push('_').push('i').push('d'));
}

proof fn lemma_key_start()
    ensures
        camel_case("start"@) == "start"@,
{
    broadcast use crate::naming::lemma_pascal_case_push;

    reveal_strlit("start");
    assert("start"@ =~= Seq::<char>::empty()
        .push('s').push('t').push('a').push('r').push('t'));
}

proof fn lemma_key_end()
    ensures
        camel_case("end"@) == "end"@,
{
    broadcast use crate::naming::lemma_pascal_case_push;

    reveal_strlit("end");
    assert("end"@ =~= Seq::<char>::empty()
        .push('e').push('n').push('d'));
}

} // verus!

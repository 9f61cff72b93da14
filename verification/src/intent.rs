//! What the user is taken to want from a suggested follow-up.

use crate::naming::{
    capital_snake_case, is_digit, is_lower, is_upper, to_capital_snake_case, to_upper,
};
use vstd::prelude::*;

verus! {

/// Whether `c` may stand in a token: a capital letter, a digit or an
/// underscore.
pub open spec fn is_token_char(c: char) -> bool {
    is_upper(c) || is_digit(c) || c == '_'
}

/// Whether `s` has the form of an intent's token: words of capital letters
/// and digits, each begun by a letter, with an underscore between one word
/// and the next, as in `IMPROVE_CODE`.
pub open spec fn is_intent_token(s: Seq<char>) -> bool {
    &&& s.len() > 0
    &&& is_upper(s[0])
    &&& forall|i: int| 0 <= i < s.len() ==> is_token_char(#[trigger] s[i])
    &&& forall|i: int|
        0 <= i < s.len() && #[trigger] s[i] == '_' ==> i + 1 < s.len() && is_upper(s[i + 1])
}

/// Whether `s` has the form of an intent's name: letters and digits, the
/// first of them a capital, as in `ImproveCode`.
pub open spec fn is_intent_name(s: Seq<char>) -> bool {
    &&& s.len() > 0
    &&& is_upper(s[0])
    &&& forall|i: int|
        0 <= i < s.len() ==> is_upper(#[trigger] s[i]) || is_lower(s[i]) || is_digit(s[i])
}

/// One of the intents that the service tells apart, held as the token by
/// which the service names it. Which intents the service knows is its own
/// affair: here a token only has to have the form of one.
#[derive(Debug, Eq)]
pub struct UserIntent {
    token: String,
}

impl View for UserIntent {
    type V = Seq<char>;

    closed spec fn view(&self) -> Seq<char> {
        self.token@
    }
}

impl UserIntent {
    #[verifier::type_invariant]
    spec fn well_formed(self) -> bool {
        is_intent_token(self.token@)
    }

    /// The intent that `token` names; `None` where `token` has not the form
    /// of a token.
    pub fn from_token(token: &str) -> (out: Option<Self>)
        ensures
            out is Some <==> is_intent_token(token@),
            out matches Some(intent) ==> intent@ == token@,
    {
        if has_token_form(token) {
            Some(Self { token: token.to_owned() })
        } else {
            None
        }
    }

    /// The intent called `name`, whose token is `name` in capital snake case;
    /// `None` where `name` has not the form of a name.
    pub fn from_name(name: &str) -> (out: Option<Self>)
        ensures
            out is Some <==> is_intent_name(name@),
            out matches Some(intent) ==> intent@ == capital_snake_case(name@),
    {
        if has_name_form(name) {
            proof {
                lemma_name_gives_token(name@);
            }
            Some(Self { token: to_capital_snake_case(name) })
        } else {
            None
        }
    }

    /// The token that names the intent.
    pub fn token(&self) -> (token: &str)
        ensures
            token@ == self@,
            is_intent_token(token@),
    {
        proof {
            use_type_invariant(self);
        }
        self.token.as_str()
    }
}

impl PartialEq for UserIntent {
    /// Whether the two are the same intent.
    fn eq(&self, other: &Self) -> (same: bool) {
        self.token == other.token
    }
}

impl vstd::std_specs::cmp::PartialEqSpecImpl for UserIntent {
    open spec fn obeys_eq_spec() -> bool {
        true
    }

    open spec fn eq_spec(&self, other: &Self) -> bool {
        self@ == other@
    }
}

impl Clone for UserIntent {
    /// The same intent once more.
    fn clone(&self) -> (copy: Self)
        ensures
            copy@ == self@,
    {
        proof {
            use_type_invariant(self);
        }
        Self { token: self.token.clone() }
    }
}

/// The token of a name has the form of a token: it begins as the name does
/// and does not end in an underscore.
pub proof fn lemma_name_gives_token(name: Seq<char>)
    requires
        is_intent_name(name),
    ensures
        is_intent_token(capital_snake_case(name)),
        capital_snake_case(name)[0] == name[0],
        capital_snake_case(name).last() != '_',
    decreases name.len(),
{
    broadcast use crate::naming::lemma_capital_snake_case_push;

    let head = name.drop_last();
    let c = name.last();
    assert(name =~= head.push(c));
    assert(is_upper(c) || is_lower(c) || is_digit(c));
    if head.len() == 0 {
        assert(capital_snake_case(head) =~= Seq::empty());
        assert(capital_snake_case(name) =~= seq![c]);
    } else {
        assert(is_intent_name(head)) by {
            assert forall|i: int| 0 <= i < head.len() implies is_upper(#[trigger] head[i])
                || is_lower(head[i]) || is_digit(head[i]) by {
                assert(head[i] == name[i]);
            }
        }
        lemma_name_gives_token(head);
        let before = capital_snake_case(head);
        let token = capital_snake_case(name);
        if is_upper(c) {
            assert(token == before.push('_').push(c));
            assert forall|i: int| 0 <= i < token.len() implies is_token_char(
                #[trigger] token[i],
            ) by {
                if i < before.len() {
                    assert(token[i] == before[i]);
                }
            }
            assert forall|i: int| 0 <= i < token.len() && #[trigger] token[i] == '_' implies i
                + 1 < token.len() && is_upper(token[i + 1]) by {
                if i < before.len() {
                    assert(token[i] == before[i]);
                    assert(i + 1 < before.len());
                    assert(token[i + 1] == before[i + 1]);
                }
            }
        } else {
            assert(token == before.push(to_upper(c)));
            assert forall|i: int| 0 <= i < token.len() implies is_token_char(
                #[trigger] token[i],
            ) by {
                if i < before.len() {
                    assert(token[i] == before[i]);
                }
            }
            assert forall|i: int| 0 <= i < token.len() && #[trigger] token[i] == '_' implies i
                + 1 < token.len() && is_upper(token[i + 1]) by {
                if i < before.len() {
                    assert(token[i] == before[i]);
                    assert(i + 1 < before.len());
                    assert(token[i + 1] == before[i + 1]);
                }
            }
        }
    }
}

/// Whether `text` has the form of an intent's token.
pub fn has_token_form(text: &str) -> (ok: bool)
    ensures
        ok == is_intent_token(text@),
{
    if !text.is_ascii() {
        assert(!is_intent_token(text@)) by {
            if is_intent_token(text@) {
                assert forall|i: int| 0 <= i < text@.len() implies '\0' <= #[trigger] text@[i]
                    <= '\u{7f}' by {
                    assert(is_token_char(text@[i]));
                }
            }
        }
        return false;
    }
    let bytes = text.as_bytes();
    proof {
        vstd::string::is_ascii_spec_bytes(text);
    }
    let n = bytes.len();
    if n == 0 {
        return false;
    }
    let first: u8 = bytes[0];
    if first < 65 || first > 90 {
        return false;
    }
    let mut i: usize = 0;
    while i < n
        invariant
            i <= n,
            n == bytes@.len(),
            n == text@.len(),
            vstd::string::is_ascii(text),
            forall|j: int| 0 <= j < n ==> bytes@[j] == #[trigger] text@[j] as u8,
            forall|j: int| 0 <= j < i ==> is_token_char(#[trigger] text@[j]),
            forall|j: int|
                0 <= j < i && #[trigger] text@[j] == '_' ==> j + 1 < n && is_upper(text@[j + 1]),
        decreases n - i,
    {
        let b: u8 = bytes[i];
        let plain = (65 <= b && b <= 90) || (48 <= b && b <= 57);
        if !plain {
            if b != 95 {
                assert(!is_token_char(text@[i as int]));
                return false;
            }
            assert(text@[i as int] == '_');
            if i + 1 >= n {
                return false;
            }
            let next: u8 = bytes[i + 1];
            if next < 65 || next > 90 {
                assert(!is_upper(text@[i + 1]));
                return false;
            }
        }
        i += 1;
    }
    true
}

/// Whether `text` has the form of an intent's name.
pub fn has_name_form(text: &str) -> (ok: bool)
    ensures
        ok == is_intent_name(text@),
{
    if !text.is_ascii() {
        assert(!is_intent_name(text@)) by {
            if is_intent_name(text@) {
                assert forall|i: int| 0 <= i < text@.len() implies '\0' <= #[trigger] text@[i]
                    <= '\u{7f}' by {
                    assert(is_upper(text@[i]) || is_lower(text@[i]) || is_digit(text@[i]));
                }
            }
        }
        return false;
    }
    let bytes = text.as_bytes();
    proof {
        vstd::string::is_ascii_spec_bytes(text);
    }
    let n = bytes.len();
    if n == 0 {
        return false;
    }
    let first: u8 = bytes[0];
    if first < 65 || first > 90 {
        return false;
    }
    let mut i: usize = 0;
    while i < n
        invariant
            i <= n,
            n == bytes@.len(),
            n == text@.len(),
            vstd::string::is_ascii(text),
            forall|j: int| 0 <= j < n ==> bytes@[j] == #[trigger] text@[j] as u8,
            forall|j: int|
                0 <= j < i ==> is_upper(#[trigger] text@[j]) || is_lower(text@[j]) || is_digit(
                    text@[j],
                ),
        decreases n - i,
    {
        let b: u8 = bytes[i];
        let ok = (65 <= b && b <= 90) || (97 <= b && b <= 122) || (48 <= b && b <= 57);
        if !ok {
            let ghost c = text@[i as int];
            assert(!(is_upper(c) || is_lower(c) || is_digit(c)));
            return false;
        }
        i += 1;
    }
    true
}

} // verus!

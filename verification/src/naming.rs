//! How a name in one style is written in another.
//!
//! Fields go by snake-case names in memory and by camel-case keys in a
//! document; an intent goes by a Pascal-case name and by a token in capital
//! snake case. The rules that lead from one to the other are stated here, once,
//! together with the functions that apply them.

use vstd::prelude::*;
use vstd::string::StrSliceExecFns;
use vstd::string::StringExecFns;

verus! {

/// Whether `c` is one of `a` to `z`.
pub open spec fn is_lower(c: char) -> bool {
    'a' <= c && c <= 'z'
}

/// Whether `c` is one of `A` to `Z`.
pub open spec fn is_upper(c: char) -> bool {
    'A' <= c && c <= 'Z'
}

/// Whether `c` is one of `0` to `9`.
pub open spec fn is_digit(c: char) -> bool {
    '0' <= c && c <= '9'
}

/// The capital of a small letter; any other character as it is.
pub open spec fn to_upper(c: char) -> char {
    if is_lower(c) {
        ((c as u8) - 32) as char
    } else {
        c
    }
}

/// The small letter of a capital; any other character as it is.
pub open spec fn to_lower(c: char) -> char {
    if is_upper(c) {
        ((c as u8) + 32) as char
    } else {
        c
    }
}

/// A snake-case name in Pascal case: the underscores go, and each character
/// that stood first or behind an underscore becomes a capital.
pub open spec fn pascal_case(name: Seq<char>) -> Seq<char>
    decreases name.len(),
{
    if name.len() == 0 {
        Seq::empty()
    } else if name.last() == '_' {
        pascal_case(name.drop_last())
    } else if name.len() == 1 || name[name.len() - 2] == '_' {
        pascal_case(name.drop_last()).push(to_upper(name.last()))
    } else {
        pascal_case(name.drop_last()).push(name.last())
    }
}

/// A snake-case name in camel case: Pascal case with a small first letter.
pub open spec fn camel_case(name: Seq<char>) -> Seq<char> {
    let pascal = pascal_case(name);
    if pascal.len() == 0 {
        pascal
    } else {
        pascal.update(0, to_lower(pascal[0]))
    }
}

/// A Pascal-case name in capital snake case: every letter a capital, and an
/// underscore before each character but the first that was a capital already.
pub open spec fn capital_snake_case(name: Seq<char>) -> Seq<char>
    decreases name.len(),
{
    if name.len() == 0 {
        Seq::empty()
    } else if name.len() > 1 && is_upper(name.last()) {
        capital_snake_case(name.drop_last()).push('_').push(name.last())
    } else {
        capital_snake_case(name.drop_last()).push(to_upper(name.last()))
    }
}

/// Pascal case, one character further.
pub broadcast proof fn lemma_pascal_case_push(name: Seq<char>, c: char)
    ensures
        #[trigger] pascal_case(name.push(c)) == if c == '_' {
            pascal_case(name)
        } else if name.len() == 0 || name.last() == '_' {
            pascal_case(name).push(to_upper(c))
        } else {
            pascal_case(name).push(c)
        },
{
    assert(name.push(c).drop_last() =~= name);
}

/// Capital snake case, one character further.
pub broadcast proof fn lemma_capital_snake_case_push(name: Seq<char>, c: char)
    ensures
        #[trigger] capital_snake_case(name.push(c)) == if name.len() > 0 && is_upper(c) {
            capital_snake_case(name).push('_').push(c)
        } else {
            capital_snake_case(name).push(to_upper(c))
        },
{
    assert(name.push(c).drop_last() =~= name);
}

/// The capital letter that is `index` letters behind `A`, alone in a text.
fn capital(index: u8) -> (letter: &'static str)
    requires
        index < 26,
    ensures
        letter@ == seq![(65 + index) as char],
{
    let alphabet = "ABCDEFGHIJKLMNOPQRSTUVWXYZ";
    proof {
        reveal_strlit("ABCDEFGHIJKLMNOPQRSTUVWXYZ");
        assert(alphabet@[index as int] == (65 + index) as char);
    }
    let letter = alphabet.substring_ascii(index as usize, index as usize + 1);
    assert(letter@ =~= seq![(65 + index) as char]);
    letter
}

/// The small letter that is `index` letters behind `a`, alone in a text.
fn small(index: u8) -> (letter: &'static str)
    requires
        index < 26,
    ensures
        letter@ == seq![(97 + index) as char],
{
    let alphabet = "abcdefghijklmnopqrstuvwxyz";
    proof {
        reveal_strlit("abcdefghijklmnopqrstuvwxyz");
        assert(alphabet@[index as int] == (97 + index) as char);
    }
    let letter = alphabet.substring_ascii(index as usize, index as usize + 1);
    assert(letter@ =~= seq![(97 + index) as char]);
    letter
}

/// Adds the character at `at` of `name` to `out`, as a capital where it is a
/// small letter.
fn push_upper(out: &mut String, name: &str, at: usize)
    requires
        at < name@.len() <= usize::MAX,
    ensures
        final(out)@ == old(out)@.push(to_upper(name@[at as int])),
{
    let c = name.get_char(at);
    if 'a' <= c && c <= 'z' {
        let letter = capital((c as u8) - 97);
        out.append(letter);
        assert(out@ =~= old(out)@.push(to_upper(c)));
    } else {
        let piece = name.substring_char(at, at + 1);
        out.append(piece);
        assert(out@ =~= old(out)@.push(c));
    }
}

/// Adds the character at `at` of `name` to `out`, as a small letter where it
/// is a capital.
fn push_lower(out: &mut String, name: &str, at: usize)
    requires
        at < name@.len() <= usize::MAX,
    ensures
        final(out)@ == old(out)@.push(to_lower(name@[at as int])),
{
    let c = name.get_char(at);
    if 'A' <= c && c <= 'Z' {
        let letter = small((c as u8) - 65);
        out.append(letter);
        assert(out@ =~= old(out)@.push(to_lower(c)));
    } else {
        let piece = name.substring_char(at, at + 1);
        out.append(piece);
        assert(out@ =~= old(out)@.push(c));
    }
}

/// Adds the character at `at` of `name` to `out` as it is.
fn push_same(out: &mut String, name: &str, at: usize)
    requires
        at < name@.len() <= usize::MAX,
    ensures
        final(out)@ == old(out)@.push(name@[at as int]),
{
    let piece = name.substring_char(at, at + 1);
    out.append(piece);
    assert(out@ =~= old(out)@.push(name@[at as int]));
}

/// Writes a snake-case name in camel case.
pub fn to_camel_case(name: &str) -> (out: String)
    ensures
        out@ == camel_case(name@),
{
    let n = name.unicode_len();
    let mut out = String::new();
    let mut capitalize = true;
    let mut i: usize = 0;
    assert(name@.take(0) =~= Seq::empty());
    while i < n
        invariant
            i <= n,
            n == name@.len(),
            out@ == camel_case(name@.take(i as int)),
            out@.len() == pascal_case(name@.take(i as int)).len(),
            capitalize == (i == 0 || name@[i - 1] == '_'),
        decreases n - i,
    {
        let c = name.get_char(i);
        proof {
            assert(name@.take(i + 1) =~= name@.take(i as int).push(c));
            lemma_pascal_case_push(name@.take(i as int), c);
            if i > 0 {
                assert(name@.take(i as int).last() == name@[i - 1]);
            }
        }
        let ghost before = pascal_case(name@.take(i as int));
        if c == '_' {
            capitalize = true;
        } else {
            if out.as_str().unicode_len() == 0 {
                proof {
                    assert(before =~= Seq::empty());
                    lemma_first_letter_is_small(name@.take(i as int), c);
                }
                push_lower(&mut out, name, i);
                assert(out@ =~= camel_case(name@.take(i + 1)));
            } else if capitalize {
                push_upper(&mut out, name, i);
                assert(out@ =~= camel_case(name@.take(i + 1)));
            } else {
                push_same(&mut out, name, i);
                assert(out@ =~= camel_case(name@.take(i + 1)));
            }
            capitalize = false;
        }
        i += 1;
    }
    assert(name@.take(n as int) =~= name@);
    out
}

/// Where nothing has been written so far, what is written next stood first
/// or behind an underscore, and comes out small.
proof fn lemma_first_letter_is_small(name: Seq<char>, c: char)
    requires
        pascal_case(name).len() == 0,
        c != '_',
    ensures
        name.len() == 0 || name.last() == '_',
        to_lower(to_upper(c)) == to_lower(c),
{
    if name.len() > 0 && name.last() != '_' {
        assert(pascal_case(name).len() > 0);
    }
}

/// Writes a Pascal-case name in capital snake case.
pub fn to_capital_snake_case(name: &str) -> (out: String)
    ensures
        out@ == capital_snake_case(name@),
{
    let n = name.unicode_len();
    let mut out = String::new();
    let mut i: usize = 0;
    assert(name@.take(0) =~= Seq::empty());
    while i < n
        invariant
            i <= n,
            n == name@.len(),
            out@ == capital_snake_case(name@.take(i as int)),
        decreases n - i,
    {
        let c = name.get_char(i);
        proof {
            assert(name@.take(i + 1) =~= name@.take(i as int).push(c));
            lemma_capital_snake_case_push(name@.take(i as int), c);
        }
        if i > 0 && 'A' <= c && c <= 'Z' {
            out.append("_");
            proof {
                reveal_strlit("_");
                assert(out@ =~= capital_snake_case(name@.take(i as int)).push('_'));
            }
            push_same(&mut out, name, i);
        } else {
            push_upper(&mut out, name, i);
        }
        i += 1;
    }
    assert(name@.take(n as int) =~= name@);
    out
}

} // verus!

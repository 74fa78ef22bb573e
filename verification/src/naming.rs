//! Identifier derivation: snake case to Pascal case.

use crate::text::push_char;
use vstd::prelude::*;

verus! {

/// The first character of the uppercase mapping of `c`, as `char::to_uppercase`
/// yields it.
pub uninterp spec fn uppercase_head(c: char) -> char;

/// True of the lowercase ASCII letters.
pub open spec fn is_lower(c: char) -> bool {
    'a' <= c <= 'z'
}

/// True of the uppercase ASCII letters.
pub open spec fn is_upper(c: char) -> bool {
    'A' <= c <= 'Z'
}

/// True of the ASCII digits.
pub open spec fn is_digit(c: char) -> bool {
    '0' <= c <= '9'
}

/// The character that `c` becomes where it opens a word: a lowercase ASCII
/// letter becomes its capital, any other ASCII character stays, and a
/// character beyond ASCII becomes the head of its uppercase mapping.
pub open spec fn capital(c: char) -> char {
    if is_lower(c) {
        ((c as int) - 32) as char
    } else if (c as int) < 128 {
        c
    } else {
        uppercase_head(c)
    }
}

/// The lowercase letter of an uppercase ASCII letter.
pub open spec fn small(c: char) -> char {
    ((c as int) + 32) as char
}

/// True where the character at `i` opens a word: it begins the text or follows
/// an underscore.
pub open spec fn opens_word(s: Seq<char>, i: int) -> bool {
    i == 0 || s[i - 1] == '_'
}

/// The Pascal-case form of `s`: underscores are dropped, a character that opens
/// a word is replaced by its capital, every other character is kept.
pub open spec fn pascal_case(s: Seq<char>) -> Seq<char>
    decreases s.len(),
{
    if s.len() == 0 {
        Seq::empty()
    } else {
        let front = pascal_case(s.drop_last());
        let c = s.last();
        if c == '_' {
            front
        } else if opens_word(s, s.len() - 1) {
            front.push(capital(c))
        } else {
            front.push(c)
        }
    }
}

/// Calls `char::to_uppercase` and takes the first character it yields. The
/// iterator yields the uppercase mapping of the character in the Unicode
/// Character Database, one character at least, and the character itself where
/// it has no such mapping. The contract names the first character yielded and,
/// for an ASCII character, says which it is: a lowercase letter gives its
/// capital, any other ASCII character has no mapping and gives itself.
#[verifier::external_body]
fn upper_head(c: char) -> (r: char)
    ensures
        r == uppercase_head(c),
        is_lower(c) ==> r as int == c as int - 32,
        (c as int) < 128 && !is_lower(c) ==> r == c,
{
    c.to_uppercase().next().unwrap()
}

/// Gives the character that `c` becomes where it opens a word.
pub fn capitalize(c: char) -> (r: char)
    ensures
        r == capital(c),
{
    upper_head(c)
}

/// Converts a snake-case identifier to Pascal case.
pub fn snake_to_pascal(s: &str) -> (result: String)
    ensures
        result@ == pascal_case(s@),
{
    let mut result = String::new();
    let mut capitalize_next = true;
    for ch in it: s.chars()
        invariant
            it.seq() == s@,
            result@ == pascal_case(s@.take(it.index())),
            capitalize_next == opens_word(s@, it.index()),
    {
        proof {
            let k = it.index();
            assert(s@.take(k + 1).drop_last() =~= s@.take(k));
        }
        if ch == '_' {
            capitalize_next = true;
        } else if capitalize_next {
            push_char(&mut result, capitalize(ch));
            capitalize_next = false;
        } else {
            push_char(&mut result, ch);
        }
    }
    proof {
        assert(s@.take(s@.len() as int) =~= s@);
    }
    result
}

/// True where a text could begin a snake-case identifier: it is made of
/// lowercase ASCII letters, ASCII digits and underscores, and every character
/// that opens a word is a letter.
pub open spec fn is_snake_prefix(s: Seq<char>) -> bool {
    &&& forall|i: int|
        0 <= i < s.len() ==> is_lower(#[trigger] s[i]) || is_digit(s[i]) || s[i] == '_'
    &&& forall|i: int| 0 <= i < s.len() && opens_word(s, i) ==> is_lower(#[trigger] s[i])
}

/// True of the snake-case identifiers: words of lowercase ASCII letters and
/// digits, each beginning with a letter, with one underscore between each two
/// neighbours.
pub open spec fn is_snake_case(s: Seq<char>) -> bool {
    is_snake_prefix(s) && s.len() > 0 && s.last() != '_'
}

/// The snake-case form of a Pascal-case text: a capital becomes its lowercase
/// letter, after an underscore unless it begins the text; every other
/// character is kept.
pub open spec fn snake_case(p: Seq<char>) -> Seq<char>
    decreases p.len(),
{
    if p.len() == 0 {
        Seq::empty()
    } else {
        let front = snake_case(p.drop_last());
        let c = p.last();
        if !is_upper(c) {
            front.push(c)
        } else if p.len() == 1 {
            front.push(small(c))
        } else {
            front.push('_').push(small(c))
        }
    }
}

/// What is left of a text when an underscore at its end is taken off.
pub open spec fn without_trailing_underscore(s: Seq<char>) -> Seq<char> {
    if s.len() > 0 && s.last() == '_' {
        s.drop_last()
    } else {
        s
    }
}

/// From the Pascal-case form of the beginning of a snake-case identifier the
/// beginning itself is recovered, but for an underscore at its end.
pub proof fn lemma_snake_of_pascal(s: Seq<char>)
    requires
        is_snake_prefix(s),
    ensures
        snake_case(pascal_case(s)) == without_trailing_underscore(s),
        s.len() > 0 ==> pascal_case(s).len() > 0,
    decreases s.len(),
{
    if s.len() > 0 {
        let t = s.drop_last();
        let c = s.last();
        assert forall|i: int| 0 <= i < t.len() && opens_word(t, i) implies is_lower(
            #[trigger] t[i],
        ) by {
            assert(opens_word(s, i));
            assert(t[i] == s[i]);
        }
        assert forall|i: int| 0 <= i < t.len() implies is_lower(#[trigger] t[i]) || is_digit(t[i])
            || t[i] == '_' by {
            assert(t[i] == s[i]);
        }
        lemma_snake_of_pascal(t);
        let p = pascal_case(t);
        if c == '_' {
            assert(!opens_word(s, s.len() - 1));
            assert(t.len() > 0 && t.last() != '_');
            assert(snake_case(pascal_case(s)) == t);
        } else if opens_word(s, s.len() - 1) {
            assert(is_lower(c));
            let big = capital(c);
            assert(is_upper(big));
            assert(small(big) == c);
            let q = p.push(big);
            assert(q.drop_last() =~= p);
            assert(q.last() == big);
            if t.len() == 0 {
                assert(p.len() == 0);
                assert(snake_case(q) =~= s);
            } else {
                assert(t.last() == '_');
                assert(p.len() > 0);
                assert(snake_case(q) == snake_case(p).push('_').push(c));
                assert(snake_case(p) == t.drop_last());
                assert(t.drop_last().push('_') =~= t);
                assert(t.push(c) =~= s);
            }
        } else {
            assert(t.len() > 0 && t.last() != '_');
            assert(!is_upper(c));
            let q = p.push(c);
            assert(q.drop_last() =~= p);
            assert(snake_case(q) == snake_case(p).push(c));
            assert(t.push(c) =~= s);
        }
    }
}

/// Two snake-case identifiers with the same Pascal-case form are the same
/// identifier.
pub proof fn lemma_pascal_case_is_injective(a: Seq<char>, b: Seq<char>)
    requires
        is_snake_case(a),
        is_snake_case(b),
        pascal_case(a) == pascal_case(b),
    ensures
        a == b,
{
    lemma_snake_of_pascal(a);
    lemma_snake_of_pascal(b);
}

} // verus!

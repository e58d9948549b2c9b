use vstd::prelude::*;
use vstd::std_specs::iter::IteratorSpec;

verus! {

/// The characters of a string, in order.
pub(crate) fn chars_of(s: &str) -> (v: Vec<char>)
    ensures
        v@ == s@,
{
    broadcast use vstd::string::group_string_axioms;
    let mut it = s.chars();
    let mut v: Vec<char> = Vec::new();
    loop
        invariant
            v@ + it.remaining() == s@,
            it.decrease() is Some,
        ensures
            v@ == s@,
        decreases it.decrease()->0,
    {
        let ghost before = it.remaining();
        match it.next() {
            Some(c) => {
                assert(before.len() > 0);
                v.push(c);
                assert(v@ + it.remaining() =~= s@);
            },
            None => {
                assert(v@ =~= s@);
                break;
            },
        }
    }
    v
}

/// The string made of the given characters, in order.
#[verifier::external_body]
pub(crate) fn string_of(v: &[char]) -> (s: String)
    ensures
        s@ == v@,
{
    v.iter().collect()
}

/// What `char::is_alphabetic` returns for a character (Unicode `Alphabetic`).
pub uninterp spec fn unicode_alphabetic(c: char) -> bool;

/// What `char::is_numeric` returns for a character (Unicode numeric categories).
pub uninterp spec fn unicode_numeric(c: char) -> bool;

/// What `char::is_whitespace` returns for a character (Unicode `White_Space`).
pub uninterp spec fn unicode_whitespace(c: char) -> bool;

/// Calls `char::is_alphabetic`; the result is the Unicode `Alphabetic` property of `c`.
#[verifier::external_body]
pub(crate) fn char_is_alphabetic(c: char) -> (r: bool)
    ensures
        r == unicode_alphabetic(c),
{
    c.is_alphabetic()
}

/// Calls `char::is_numeric`; the result is whether `c` is in a Unicode numeric category.
#[verifier::external_body]
pub(crate) fn char_is_numeric(c: char) -> (r: bool)
    ensures
        r == unicode_numeric(c),
{
    c.is_numeric()
}

/// Calls `char::is_whitespace`; the result is the Unicode `White_Space` property of `c`.
/// For the ASCII space the documentation states that it is whitespace.
#[verifier::external_body]
pub(crate) fn char_is_whitespace(c: char) -> (r: bool)
    ensures
        r == unicode_whitespace(c),
        c == ' ' ==> r,
{
    c.is_whitespace()
}

#[derive(Debug, PartialEq, Clone, Copy, Eq, Structural)]
/// The basic type of a character, as the structure skipping of the text inputs sees it
pub enum CharacterType {
    /// All letters (both upper and lower)
    Letter,
    /// All which are considered numeric
    Number,
    /// All that is this character: '_'
    Underscore,
    /// All you cannot reasonably discriminate
    Special,
    /// All you cannot see
    Whitespace,
}

/// The type of a character: letters first, then numbers, then the underscore, then whitespace
pub open spec fn char_type_spec(c: char) -> CharacterType {
    if unicode_alphabetic(c) {
        CharacterType::Letter
    } else if unicode_numeric(c) {
        CharacterType::Number
    } else if c == '_' {
        CharacterType::Underscore
    } else if unicode_whitespace(c) {
        CharacterType::Whitespace
    } else {
        CharacterType::Special
    }
}

/// Get a simple abstract type for a character
pub fn get_char_type(ch: char) -> (r: CharacterType)
    ensures
        r == char_type_spec(ch),
{
    if char_is_alphabetic(ch) {
        CharacterType::Letter
    } else if char_is_numeric(ch) {
        CharacterType::Number
    } else if ch == '_' {
        CharacterType::Underscore
    } else if char_is_whitespace(ch) {
        CharacterType::Whitespace
    } else {
        CharacterType::Special
    }
}

/// The first `n` elements of `s`, or all of them when `s` is shorter
pub open spec fn take_upto<A>(s: Seq<A>, n: int) -> Seq<A> {
    if n <= s.len() {
        s.subrange(0, n)
    } else {
        s
    }
}

/// `s` without its first `n` elements, or nothing when `s` is shorter
pub open spec fn skip_upto<A>(s: Seq<A>, n: int) -> Seq<A> {
    if n <= s.len() {
        s.subrange(n, s.len() as int)
    } else {
        Seq::empty()
    }
}

/// The first `n` characters of `v` (all of them if there are fewer)
pub fn take_chars(v: &Vec<char>, n: usize) -> (r: Vec<char>)
    ensures
        r@ == take_upto(v@, n as int),
{
    let end = if n <= v.len() { n } else { v.len() };
    let mut r: Vec<char> = Vec::new();
    let mut i: usize = 0;
    while i < end
        invariant
            end <= v@.len(),
            i <= end,
            r@ == v@.subrange(0, i as int),
        decreases end - i,
    {
        r.push(v[i]);
        i = i + 1;
    }
    r
}

/// The characters of `v` after the first `n` (none if there are fewer)
pub fn skip_chars(v: &Vec<char>, n: usize) -> (r: Vec<char>)
    ensures
        r@ == skip_upto(v@, n as int),
{
    let mut r: Vec<char> = Vec::new();
    if n > v.len() {
        return r;
    }
    let mut i: usize = n;
    while i < v.len()
        invariant
            n <= i <= v@.len(),
            r@ == v@.subrange(n as int, i as int),
        decreases v.len() - i,
    {
        r.push(v[i]);
        i = i + 1;
    }
    r
}

/// The concatenation of two character vectors
pub fn concat_chars(a: &Vec<char>, b: &Vec<char>) -> (r: Vec<char>)
    ensures
        r@ == a@ + b@,
{
    let mut r: Vec<char> = Vec::new();
    let mut i: usize = 0;
    while i < a.len()
        invariant
            i <= a@.len(),
            r@ == a@.subrange(0, i as int),
        decreases a.len() - i,
    {
        r.push(a[i]);
        i = i + 1;
    }
    let mut j: usize = 0;
    while j < b.len()
        invariant
            j <= b@.len(),
            r@ == a@ + b@.subrange(0, j as int),
        decreases b.len() - j,
    {
        r.push(b[j]);
        j = j + 1;
    }
    assert(b@.subrange(0, b@.len() as int) =~= b@);
    assert(a@.subrange(0, a@.len() as int) =~= a@);
    r
}

/// A vector holding `c` exactly `n` times
pub fn repeat_char(c: char, n: usize) -> (r: Vec<char>)
    ensures
        r@ == Seq::new(n as nat, |_i: int| c),
{
    let mut r: Vec<char> = Vec::new();
    let mut i: usize = 0;
    while i < n
        invariant
            i <= n,
            r@ =~= Seq::new(i as nat, |_i: int| c),
        decreases n - i,
    {
        r.push(c);
        i = i + 1;
    }
    r
}


/// What `str::to_uppercase` returns for the characters of a string (Unicode case mapping).
pub uninterp spec fn uppercase_of(s: Seq<char>) -> Seq<char>;

/// What `str::to_lowercase` returns for the characters of a string (Unicode case mapping).
pub uninterp spec fn lowercase_of(s: Seq<char>) -> Seq<char>;

/// Calls `str::to_uppercase`; the result is named by `uppercase_of`.
#[verifier::external_body]
pub(crate) fn to_uppercase_string(s: &str) -> (r: String)
    ensures
        r@ == uppercase_of(s@),
{
    s.to_uppercase()
}

/// Calls `str::to_lowercase`; the result is named by `lowercase_of`.
#[verifier::external_body]
pub(crate) fn to_lowercase_string(s: &str) -> (r: String)
    ensures
        r@ == lowercase_of(s@),
{
    s.to_lowercase()
}

/// If a list of key codes holds the given one
pub fn contains_code(list: &Vec<u32>, code: u32) -> (r: bool)
    ensures
        r == list@.contains(code),
{
    let mut i: usize = 0;
    while i < list.len()
        invariant
            i <= list@.len(),
            forall|j: int| 0 <= j < i ==> list@[j] != code,
        decreases list.len() - i,
    {
        if list[i] == code {
            assert(list@[i as int] == code);
            return true;
        }
        i = i + 1;
    }
    false
}

} // verus!

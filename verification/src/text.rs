use vstd::prelude::*;

verus! {

/// Appends one character to the end of a string.
///
/// Calls `String::push`, which std documents as appending the given char to
/// the end of the string.
#[verifier::external_body]
pub(crate) fn push_char(s: &mut String, c: char)
    ensures
        final(s)@ == old(s)@.push(c),
{
    s.push(c);
}

/// The concatenation of two string slices, as a new string.
pub(crate) fn concat2(a: &str, b: &str) -> (r: String)
    ensures
        r@ == a@ + b@,
{
    let mut s = String::new();
    s.append(a);
    s.append(b);
    s
}

/// The decimal digit character for `d` (which is below ten).
pub open spec fn digit_char(d: nat) -> char {
    ((d + 48) as u8) as char
}

/// The decimal spelling of a natural number, without leading zeros.
pub open spec fn decimal(n: nat) -> Seq<char>
    decreases n,
{
    if n < 10 {
        seq![digit_char(n)]
    } else {
        decimal(n / 10).push(digit_char(n % 10))
    }
}

/// Appends the decimal spelling of `n` to `s`.
pub(crate) fn push_decimal(s: &mut String, n: usize)
    ensures
        final(s)@ == old(s)@ + decimal(n as nat),
    decreases n,
{
    if n >= 10 {
        push_decimal(s, n / 10);
    }
    let d: u8 = (n % 10) as u8;
    push_char(s, (d + 48) as char);
    assert(s@ == old(s)@ + decimal(n as nat));
}

/// `prefix` followed by the decimal spelling of `n`.
pub(crate) fn with_decimal(prefix: &str, n: usize) -> (r: String)
    ensures
        r@ == prefix@ + decimal(n as nat),
{
    let mut s = String::from_str(prefix);
    push_decimal(&mut s, n);
    s
}

/// The characters of a string slice, in order, as a vector.
pub(crate) fn chars_of(s: &str) -> (r: Vec<char>)
    ensures
        r@ == s@,
{
    let mut out: Vec<char> = Vec::new();
    for c in it: s.chars()
        invariant
            it.seq() == s@,
            out@ == it.seq().take(it.index() as int),
    {
        out.push(c);
    }
    out
}

/// Whether `c` is an ASCII letter from `a` to `z`.
pub open spec fn is_ascii_lower(c: char) -> bool {
    'a' <= c && c <= 'z'
}

/// Whether `c` is an ASCII letter from `A` to `Z`.
pub open spec fn is_ascii_upper(c: char) -> bool {
    'A' <= c && c <= 'Z'
}

/// Whether `c` is an ASCII character.
pub open spec fn is_ascii_char(c: char) -> bool {
    (c as u32) < 128
}

/// The characters of the uppercase mapping of `c`, as `char::to_uppercase`
/// yields them.
pub uninterp spec fn char_upper(c: char) -> Seq<char>;

/// The characters of the lowercase mapping of `c`, as `char::to_lowercase`
/// yields them.
pub uninterp spec fn char_lower(c: char) -> Seq<char>;

/// Whether `c` has the Unicode `Uppercase` property, as
/// `char::is_uppercase` says.
pub uninterp spec fn char_is_upper(c: char) -> bool;

/// The uppercase mapping of `c`: for ASCII, std documents that a letter
/// from `a` to `z` maps to the letter 32 code points below and every other
/// ASCII character maps to itself; beyond ASCII it is Unicode's mapping.
pub open spec fn upper_mapping(c: char) -> Seq<char> {
    if is_ascii_lower(c) {
        seq![((c as u32) - 32) as char]
    } else if is_ascii_char(c) {
        seq![c]
    } else {
        char_upper(c)
    }
}

/// The first character of the lowercase mapping of `c`: for ASCII, a
/// letter from `A` to `Z` maps to the letter 32 code points above and every
/// other character to itself; beyond ASCII it is Unicode's mapping.
pub open spec fn lower_first(c: char) -> char {
    if is_ascii_upper(c) {
        ((c as u32) + 32) as char
    } else if is_ascii_char(c) {
        c
    } else {
        char_lower(c)[0]
    }
}

/// Whether `c` is uppercase: for ASCII exactly the letters `A` to `Z`;
/// beyond ASCII, Unicode's `Uppercase` property.
pub open spec fn is_upper(c: char) -> bool {
    if is_ascii_char(c) {
        is_ascii_upper(c)
    } else {
        char_is_upper(c)
    }
}

/// The uppercase mapping of `c` as a string.
///
/// Calls `char::to_uppercase` and collects what it yields, as described by
/// `upper_mapping`; beyond ASCII the mapping is named by `char_upper`.
#[verifier::external_body]
pub(crate) fn to_uppercase_string(c: char) -> (r: String)
    ensures
        r@ == upper_mapping(c),
        !is_ascii_char(c) ==> r@ == char_upper(c),
{
    c.to_uppercase().collect::<String>()
}

/// The first character of the lowercase mapping of `c`.
///
/// Calls `char::to_lowercase`, which std documents as yielding one or more
/// characters (the character itself where it has no lowercase mapping), and
/// takes the first, as described by `lower_first`; beyond ASCII the mapping
/// is named by `char_lower`.
#[verifier::external_body]
pub(crate) fn to_lowercase_first(c: char) -> (r: char)
    ensures
        r == lower_first(c),
        !is_ascii_char(c) ==> r == char_lower(c)[0],
{
    c.to_lowercase().next().unwrap()
}

/// Whether `c` is an uppercase character.
///
/// Calls `char::is_uppercase`, as described by `is_upper`; beyond ASCII
/// the property is named by `char_is_upper`.
#[verifier::external_body]
pub(crate) fn is_uppercase(c: char) -> (r: bool)
    ensures
        r == is_upper(c),
        !is_ascii_char(c) ==> r == char_is_upper(c),
{
    c.is_uppercase()
}

} // verus!

//! Text building blocks: comparison, copies, decimal and hexadecimal digits, and the few
//! renderings that come from the standard library and `serde_json`.

use vstd::prelude::*;

verus! {

/// `String::push`: appends one character to the end of the text.
pub assume_specification[ String::push ](s: &mut String, c: char)
    ensures
        final(s)@ == old(s)@.push(c),
;

/// `true` for text in ASCII.
pub open spec fn is_ascii_text(text: Seq<char>) -> bool {
    forall|i: int| 0 <= i < text.len() ==> ((#[trigger] text[i]) as u32) < 128
}

/// The lower case of an ASCII character.
pub open spec fn ascii_lower(c: char) -> char {
    if 'A' <= c <= 'Z' {
        (c as u32 + 32) as char
    } else {
        c
    }
}

/// The lower case of a text in ASCII.
pub open spec fn ascii_lowercase(text: Seq<char>) -> Seq<char> {
    text.map_values(|c: char| ascii_lower(c))
}

/// What `str::to_lowercase` gives for a text with other characters than those of ASCII.
pub uninterp spec fn unicode_lowercase(text: Seq<char>) -> Seq<char>;

/// A text in lower case.
pub open spec fn lowercase(text: Seq<char>) -> Seq<char> {
    if is_ascii_text(text) {
        ascii_lowercase(text)
    } else {
        unicode_lowercase(text)
    }
}

/// What `str`'s `Debug` rendering (`{:?}`) gives for a text.
pub uninterp spec fn debug_rendering(text: Seq<char>) -> Seq<char>;

/// A character as it stands in a JSON string literal: a quote, a backslash and control
/// characters are escaped.
pub open spec fn json_escape(c: char) -> Seq<char> {
    if c == '"' {
        seq!['\\', '"']
    } else if c == '\\' {
        seq!['\\', '\\']
    } else if c == '\n' {
        seq!['\\', 'n']
    } else if c == '\r' {
        seq!['\\', 'r']
    } else if c == '\t' {
        seq!['\\', 't']
    } else if c == '\u{8}' {
        seq!['\\', 'b']
    } else if c == '\u{c}' {
        seq!['\\', 'f']
    } else if (c as u32) < 32 {
        seq!['\\', 'u'] + hexadecimal(c as nat, 4)
    } else {
        seq![c]
    }
}

/// The characters of a text as they stand in a JSON string literal.
pub open spec fn json_escaped(text: Seq<char>) -> Seq<char>
    decreases text.len(),
{
    if text.len() == 0 {
        Seq::empty()
    } else {
        json_escaped(text.drop_last()) + json_escape(text.last())
    }
}

/// The JSON string literal of a text, quotes included.
pub open spec fn json_literal(text: Seq<char>) -> Seq<char> {
    seq!['"'] + json_escaped(text) + seq!['"']
}

/// Calls `str::to_lowercase`. Text in ASCII is lowered letter by letter. Any other result
/// is a function of the text alone; which letters map to which is left to the standard
/// library.
#[verifier::external_body]
pub(crate) fn to_lowercase(text: &str) -> (lower: String)
    ensures
        is_ascii_text(text@) ==> lower@ == ascii_lowercase(text@),
        !is_ascii_text(text@) ==> lower@ == unicode_lowercase(text@),
{
    text.to_lowercase()
}

/// Calls the standard `Debug` rendering of `str`. The result is a function of the
/// text alone; how characters are escaped is left to the standard library.
#[verifier::external_body]
pub(crate) fn to_debug(text: &str) -> (rendering: String)
    ensures
        rendering@ == debug_rendering(text@),
{
    format!("{:?}", text)
}

/// Calls `serde_json::to_string` on a text. Serialising a `str` to a `String` has no
/// failing case. The result is the text in quotes; a quote, a backslash and the control
/// characters below the space are escaped, and every other character stands for itself.
#[verifier::external_body]
pub(crate) fn to_json_literal(text: &str) -> (literal: String)
    ensures
        literal@ == json_literal(text@),
{
    serde_json::to_string(text).unwrap()
}

/// `true` if the two texts are equal.
pub fn same_text(a: &str, b: &str) -> (equal: bool)
    ensures
        equal == (a@ == b@),
{
    let a: String = a.to_owned();
    let b: String = b.to_owned();
    a == b
}

/// The view of an optional text.
pub open spec fn opt_text(text: Option<String>) -> Option<Seq<char>> {
    match text {
        Some(t) => Some(t@),
        None => None,
    }
}

/// The character of a digit below sixteen, in lower case.
pub open spec fn digit_char(digit: nat) -> char {
    if digit < 10 {
        (48 + digit) as char
    } else {
        (87 + digit) as char
    }
}

/// A number in decimal notation, without leading zeros.
pub open spec fn decimal(n: nat) -> Seq<char>
    decreases n,
{
    if n < 10 {
        seq![digit_char(n)]
    } else {
        decimal(n / 10).push(digit_char(n % 10))
    }
}

/// The last `width` hexadecimal digits of a number, in lower case.
pub open spec fn hexadecimal(n: nat, width: nat) -> Seq<char>
    decreases width,
{
    if width == 0 {
        Seq::empty()
    } else {
        hexadecimal(n / 16, (width - 1) as nat).push(digit_char(n % 16))
    }
}

/// `true` and `false` as the words they are printed as.
pub open spec fn bool_word(b: bool) -> Seq<char> {
    if b {
        "true"@
    } else {
        "false"@
    }
}

/// Renders a number in decimal notation.
pub fn decimal_text(n: u128) -> (text: String)
    ensures
        text@ == decimal(n as nat),
    decreases n,
{
    let mut text: String = if n < 10 {
        String::new()
    } else {
        decimal_text(n / 10)
    };
    let digit: u8 = (n % 10) as u8;
    text.push((48 + digit) as char);
    text
}

/// Renders a truth value as the word it is printed as.
pub fn bool_text(b: bool) -> (text: String)
    ensures
        text@ == bool_word(b),
{
    if b {
        "true".to_owned()
    } else {
        "false".to_owned()
    }
}

/// Concatenates three texts.
pub fn join3(a: &str, b: &str, c: &str) -> (text: String)
    ensures
        text@ == a@ + b@ + c@,
{
    a.to_owned().concat(b).concat(c)
}

/// A copy of some bytes.
pub(crate) fn copy_bytes(bytes: &Vec<u8>) -> (copy: Vec<u8>)
    ensures
        copy@ == bytes@,
{
    let mut copy: Vec<u8> = Vec::new();
    let mut i: usize = 0;
    while i < bytes.len()
        invariant
            i <= bytes@.len(),
            copy@ =~= bytes@.take(i as int),
        decreases bytes@.len() - i,
    {
        copy.push(bytes[i]);
        i += 1;
    }
    copy
}

proof fn lemma_plain_text_stays(text: Seq<char>)
    requires
        forall|i: int|
            0 <= i < text.len() ==> (#[trigger] text[i]) as u32 >= 32 && text[i] != '"' && text[i]
                != '\\',
    ensures
        json_escaped(text) == text,
    decreases text.len(),
{
    if text.len() > 0 {
        lemma_plain_text_stays(text.drop_last());
        assert(text.last() == text[text.len() - 1]);
        assert(text.drop_last().push(text.last()) =~= text);
        assert(json_escaped(text) =~= text);
    } else {
        assert(json_escaped(text) =~= text);
    }
}

/// A text without quotes, backslashes and control characters is its own JSON literal, but
/// for the quotes around it.
pub proof fn plain_text_is_not_escaped(text: Seq<char>)
    requires
        forall|i: int|
            0 <= i < text.len() ==> (#[trigger] text[i]) as u32 >= 32 && text[i] != '"' && text[i]
                != '\\',
    ensures
        json_literal(text) == seq!['"'] + text + seq!['"'],
{
    lemma_plain_text_stays(text);
}

/// Lower case is kept: lowering text in ASCII once more changes nothing.
pub proof fn lowercase_is_kept(text: Seq<char>)
    requires
        is_ascii_text(text),
    ensures
        is_ascii_text(lowercase(text)),
        lowercase(lowercase(text)) == lowercase(text),
{
    let lower = lowercase(text);
    assert forall|i: int| 0 <= i < lower.len() implies ((#[trigger] lower[i]) as u32) < 128 by {
        assert((text[i] as u32) < 128);
    }
    assert(lowercase(lower) =~= lower);
}

/// Decimal notation is never empty and starts with `0` only for zero itself.
pub proof fn decimal_is_canonical(n: nat)
    ensures
        decimal(n).len() > 0,
        decimal(n)[0] == '0' <==> n == 0,
    decreases n,
{
    if n >= 10 {
        decimal_is_canonical(n / 10);
    }
}

/// A number is read back from its decimal notation: no two numbers share one.
pub proof fn decimal_is_injective(a: nat, b: nat)
    requires
        decimal(a) == decimal(b),
    ensures
        a == b,
    decreases a,
{
    decimal_is_canonical(a);
    decimal_is_canonical(b);
    assert(decimal(a).last() == digit_char(a % 10));
    assert(decimal(b).last() == digit_char(b % 10));
    if a < 10 && b < 10 {
    } else if a < 10 {
        assert(decimal(b).len() == decimal(b / 10).len() + 1);
        decimal_is_canonical(b / 10);
    } else if b < 10 {
        assert(decimal(a).len() == decimal(a / 10).len() + 1);
        decimal_is_canonical(a / 10);
    } else {
        assert(decimal(a).drop_last() =~= decimal(a / 10));
        assert(decimal(b).drop_last() =~= decimal(b / 10));
        decimal_is_injective(a / 10, b / 10);
    }
}

/// Hexadecimal notation of a given width has that many digits.
pub proof fn hexadecimal_len(n: nat, width: nat)
    ensures
        hexadecimal(n, width).len() == width,
    decreases width,
{
    if width > 0 {
        hexadecimal_len(n / 16, (width - 1) as nat);
    }
}

/// Numbers below a power of sixteen are read back from that many hexadecimal digits.
pub proof fn hexadecimal_is_injective(a: nat, b: nat, width: nat)
    requires
        hexadecimal(a, width) == hexadecimal(b, width),
        a < vstd::arithmetic::power::pow(16, width),
        b < vstd::arithmetic::power::pow(16, width),
    ensures
        a == b,
    decreases width,
{
    if width == 0 {
        vstd::arithmetic::power::lemma_pow0(16);
    } else {
        let rest = (width - 1) as nat;
        let x = hexadecimal(a, width);
        let y = hexadecimal(b, width);
        assert(x.last() == digit_char(a % 16));
        assert(y.last() == digit_char(b % 16));
        assert(x.drop_last() =~= hexadecimal(a / 16, rest));
        assert(y.drop_last() =~= hexadecimal(b / 16, rest));
        reveal(vstd::arithmetic::power::pow);
        let bound = vstd::arithmetic::power::pow(16, rest);
        assert(vstd::arithmetic::power::pow(16, width) == 16 * bound);
        assert(a / 16 < bound);
        assert(b / 16 < bound);
        hexadecimal_is_injective(a / 16, b / 16, rest);
    }
}

/// The number that decimal digits stand for.
pub open spec fn number_of(digits: Seq<char>) -> nat
    decreases digits.len(),
{
    if digits.len() == 0 {
        0
    } else {
        number_of(digits.drop_last()) * 10 + (digits.last() as nat - 48) as nat
    }
}

/// Decimal notation consists of the digits from `0` to `9`, and the number is read back from
/// it.
pub proof fn decimal_is_read_back(n: nat)
    ensures
        number_of(decimal(n)) == n,
        forall|i: int| 0 <= i < decimal(n).len() ==> '0' <= #[trigger] decimal(n)[i] <= '9',
    decreases n,
{
    let text = decimal(n);
    if n < 10 {
        assert(text.drop_last() =~= Seq::empty());
        assert(number_of(text.drop_last()) == 0);
        assert(text.last() == digit_char(n));
    } else {
        decimal_is_read_back(n / 10);
        assert(text.drop_last() =~= decimal(n / 10));
        assert(text.last() == digit_char(n % 10));
        assert forall|i: int| 0 <= i < text.len() implies '0' <= #[trigger] text[i] <= '9' by {
            if i < text.len() - 1 {
                assert(text[i] == decimal(n / 10)[i]);
            }
        }
    }
}

/// Hexadecimal notation consists of digits and the letters from `a` to `f`.
pub proof fn hexadecimal_has_lower_case_digits(n: nat, width: nat, i: int)
    requires
        0 <= i < width,
    ensures
        i < hexadecimal(n, width).len(),
        '0' <= hexadecimal(n, width)[i] <= '9' || 'a' <= hexadecimal(n, width)[i] <= 'f',
    decreases width,
{
    hexadecimal_len(n, width);
    let rest = (width - 1) as nat;
    hexadecimal_len(n / 16, rest);
    if i < rest {
        hexadecimal_has_lower_case_digits(n / 16, rest, i);
        assert(hexadecimal(n, width)[i] == hexadecimal(n / 16, rest)[i]);
    } else {
        assert(hexadecimal(n, width)[i] == digit_char(n % 16));
    }
}

/// Truth values are told apart by their words.
pub proof fn truth_values_have_their_words(b: bool)
    ensures
        bool_word(b) == "true"@ <==> b,
        bool_word(b) == "false"@ <==> !b,
{
    reveal_strlit("true");
    reveal_strlit("false");
    assert("true"@.len() != "false"@.len());
}

/// What is seen of an optional text is the text.
pub proof fn optional_texts_show_what_they_hold(text: String)
    ensures
        opt_text(Some(text)) == Some(text@),
        opt_text(None) is None,
{
}

/// The literal of a text that goes on is that of its start, with the rest before the closing
/// quote: characters are escaped one by one.
pub proof fn literals_grow_character_by_character(text: Seq<char>, c: char)
    ensures
        json_literal(text.push(c)) == json_literal(text).drop_last() + json_escape(c).push('"'),
        json_literal(Seq::empty()) == seq!['"', '"'],
{
    assert(text.push(c).drop_last() =~= text);
    assert(json_literal(text).drop_last() =~= seq!['"'] + json_escaped(text));
    assert(json_literal(text.push(c)) =~= json_literal(text).drop_last() + json_escape(c).push(
        '"',
    ));
    assert(json_literal(Seq::empty()) =~= seq!['"', '"']);
}

} // verus!

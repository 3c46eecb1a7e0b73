//! Port numbers written as text.
//!
//! A port is given on the command line as text. It is accepted when it reads
//! as a number of sixteen bits: an optional `+`, then at least one decimal
//! digit, the whole not above 65535. Leading zeros do not count against it.

use vstd::prelude::*;
use vstd::string::*;

verus! {

broadcast use vstd::string::group_string_axioms;

/// True when `c` is one of the ten decimal digits.
pub open spec fn is_digit(c: char) -> bool {
    '0' <= c <= '9'
}

/// The number that the digit `c` stands for, and zero for any other character.
pub open spec fn digit_value(c: char) -> nat {
    if is_digit(c) {
        (c as u32 - '0' as u32) as nat
    } else {
        0
    }
}

/// True when every character of `s` is a decimal digit.
pub open spec fn all_digits(s: Seq<char>) -> bool {
    forall|i: int| 0 <= i < s.len() ==> is_digit(#[trigger] s[i])
}

/// The number that a run of decimal digits denotes, the first digit being the
/// most significant one. The empty run denotes zero.
pub open spec fn decimal_value(digits: Seq<char>) -> nat
    decreases digits.len(),
{
    if digits.len() == 0 {
        0
    } else {
        10 * decimal_value(digits.drop_last()) + digit_value(digits.last())
    }
}

/// The text without the one `+` that may stand in front of the digits.
pub open spec fn unsigned_part(text: Seq<char>) -> Seq<char> {
    if text.len() > 0 && text[0] == '+' {
        text.drop_first()
    } else {
        text
    }
}

/// True when `text` reads as a port number.
pub open spec fn is_port_text(text: Seq<char>) -> bool {
    let digits = unsigned_part(text);
    &&& digits.len() > 0
    &&& all_digits(digits)
    &&& decimal_value(digits) <= u16::MAX
}

/// The port that `text` denotes, if it denotes one.
pub open spec fn port_of(text: Seq<char>) -> Option<u16> {
    if is_port_text(text) {
        Some(decimal_value(unsigned_part(text)) as u16)
    } else {
        None
    }
}

/// The message with which a text that is no port number is turned down.
pub open spec fn invalid_port_message() -> Seq<char> {
    "This is not a valid integer for the port"@
}

/// The port that is used when none is given.
pub const DEFAULT_PORT: &'static str = "8001";

/// The address on which a server on `port` listens: the local machine alone.
pub open spec fn address_of(port: Seq<char>) -> Seq<char> {
    "127.0.0.1:"@ + port
}

/// Appending one digit to a run multiplies its value by ten and adds the digit.
pub proof fn lemma_decimal_value_push(digits: Seq<char>, k: int)
    requires
        0 <= k < digits.len(),
    ensures
        decimal_value(digits.subrange(0, k + 1)) == 10 * decimal_value(digits.subrange(0, k))
            + digit_value(digits[k]),
{
    let longer = digits.subrange(0, k + 1);
    assert(longer.drop_last() =~= digits.subrange(0, k));
}

/// A run of digits denotes at least what any of its beginnings denotes.
pub proof fn lemma_decimal_value_prefix(digits: Seq<char>, k: int)
    requires
        0 <= k <= digits.len(),
    ensures
        decimal_value(digits.subrange(0, k)) <= decimal_value(digits),
    decreases digits.len(),
{
    if k == digits.len() {
        assert(digits.subrange(0, k) =~= digits);
    } else {
        let shorter = digits.drop_last();
        lemma_decimal_value_prefix(shorter, k);
        assert(shorter.subrange(0, k) =~= digits.subrange(0, k));
    }
}

/// A text with a character outside ASCII is no port number.
proof fn lemma_port_text_is_ascii(text: Seq<char>)
    requires
        is_port_text(text),
    ensures
        vstd::utf8::is_ascii_chars(text),
{
    let digits = unsigned_part(text);
    assert forall|i: int| 0 <= i < text.len() implies '\0' <= #[trigger] text[i] <= '\u{7f}' by {
        if text[0] == '+' {
            if i > 0 {
                assert(is_digit(digits[i - 1]));
            }
        } else {
            assert(is_digit(digits[i]));
        }
    }
}

/// Reads `text` as a port number.
///
/// The result is the port exactly when `text` is an optional `+` followed by
/// one or more decimal digits that denote a number up to 65535; any other
/// text, the empty one included, gives `None`.
pub fn port_number(text: &str) -> (port: Option<u16>)
    ensures
        port == port_of(text@),
{
    if !text.is_ascii() {
        proof {
            if is_port_text(text@) {
                lemma_port_text_is_ascii(text@);
            }
        }
        return None;
    }
    let bytes = text.as_bytes();
    let n: usize = bytes.len();
    let start: usize = if n > 0 && bytes[0] == 0x2b {
        1
    } else {
        0
    };
    let ghost digits = unsigned_part(text@);
    let mut value: u32 = 0;
    let mut i: usize = start;
    while i < n
        invariant
            text.is_ascii(),
            n == text@.len(),
            bytes@ =~= Seq::new(text@.len(), |i: int| text@[i] as u8),
            start <= i <= n,
            start <= 1,
            digits == unsigned_part(text@),
            digits =~= text@.subrange(start as int, n as int),
            value == decimal_value(digits.subrange(0, i - start)),
            value <= u16::MAX,
            all_digits(digits.subrange(0, i - start)),
        decreases n - i,
    {
        let byte: u8 = bytes[i];
        let ghost c = text@[i as int];
        assert(c == digits[i - start]);
        assert(is_digit(c) <==> 0x30 <= byte <= 0x39);
        if byte < 0x30 || byte > 0x39 {
            return None;
        }
        let digit: u32 = (byte - 0x30) as u32;
        assert(digit == digit_value(c));
        proof {
            lemma_decimal_value_push(digits, i - start);
        }
        let next: u32 = value * 10 + digit;
        if next > 0xffff {
            proof {
                lemma_decimal_value_prefix(digits, i - start + 1);
            }
            return None;
        }
        proof {
            let longer = digits.subrange(0, i - start + 1);
            assert forall|j: int| 0 <= j < longer.len() implies is_digit(#[trigger] longer[j]) by {
                if j < i - start {
                    assert(longer[j] == digits.subrange(0, i - start)[j]);
                }
            }
        }
        value = next;
        i = i + 1;
    }
    assert(digits.subrange(0, n - start) =~= digits);
    if n == start {
        None
    } else {
        Some(value as u16)
    }
}

/// Accepts `v` when it reads as a port number and turns it down with a fixed
/// message otherwise.
pub fn validate_port(v: String) -> (outcome: Result<(), String>)
    ensures
        outcome is Ok <==> is_port_text(v@),
        outcome matches Err(message) ==> message@ == invalid_port_message(),
{
    match port_number(v.as_str()) {
        Some(_) => Ok(()),
        None => Err(String::from_str("This is not a valid integer for the port")),
    }
}

/// The port to use: the one that was given, or the default one.
pub fn chosen_port<'a>(given: Option<&'a str>) -> (port: &'a str)
    ensures
        port@ == match given {
            Some(text) => text@,
            None => DEFAULT_PORT@,
        },
{
    match given {
        Some(text) => text,
        None => DEFAULT_PORT,
    }
}

/// The address on which a server on `port` listens.
pub fn server_address(port: &str) -> (address: String)
    ensures
        address@ == address_of(port@),
{
    String::from_str("127.0.0.1:").concat(port)
}

} // verus!

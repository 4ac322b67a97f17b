//! What a line of input means: a menu choice, or the value of a field.

use vstd::prelude::*;
use crate::brand::Brand;
use crate::ident::ProductId;
use crate::text::chars_of;

verus! {

/// What is left of `text` once the standard library's `str::trim` has
/// taken the white space from both of its ends.
pub uninterp spec fn trimmed(text: Seq<char>) -> Seq<char>;

/// Calls `str::trim`, which removes leading and trailing white space, as
/// Unicode defines it, and nothing else. The result is named.
#[verifier::external_body]
fn trim(text: &str) -> (r: &str)
    ensures
        r@ == trimmed(text@),
{
    text.trim()
}

/// Whether `c` is one of the ten decimal digits.
pub open spec fn is_digit(c: char) -> bool {
    '0' <= c <= '9'
}

/// The number that the digits `digits` write in base ten.
pub open spec fn decimal_value(digits: Seq<char>) -> nat
    decreases digits.len(),
{
    if digits.len() == 0 {
        0
    } else {
        (decimal_value(digits.drop_last()) * 10 + (digits.last() as u32 - '0' as u32)) as nat
    }
}

/// The digits of `text`: all of it but a plus sign at its head.
pub open spec fn digits_of(text: Seq<char>) -> Seq<char> {
    if text.len() > 0 && text[0] == '+' {
        text.drop_first()
    } else {
        text
    }
}

/// The number that `text` writes: one digit or more, with or without a
/// plus sign before them, and nothing else. A minus sign, white space, a
/// decimal point or any other character makes the text write no number.
pub open spec fn unsigned_decimal(text: Seq<char>) -> Option<nat> {
    let digits = digits_of(text);
    if digits.len() > 0 && (forall|i: int| 0 <= i < digits.len() ==> is_digit(#[trigger] digits[i])) {
        Some(decimal_value(digits))
    } else {
        None
    }
}

/// The number that `text` writes, if it writes one that is at most `max`.
pub open spec fn unsigned_decimal_up_to(text: Seq<char>, max: u32) -> Option<u32> {
    match unsigned_decimal(text) {
        Some(n) => if n <= max {
            Some(n as u32)
        } else {
            None
        },
        None => None,
    }
}

/// The stock count that `text` writes: a whole number from 0 to 65535.
pub open spec fn spec_stock(text: Seq<char>) -> Option<u16> {
    match unsigned_decimal_up_to(text, 65535) {
        Some(n) => Some(n as u16),
        None => None,
    }
}

/// A number grows, or stays, with every digit written behind it.
proof fn lemma_decimal_value_grows(digits: Seq<char>, upto: int)
    requires
        0 <= upto <= digits.len(),
        forall|i: int| 0 <= i < digits.len() ==> is_digit(#[trigger] digits[i]),
    ensures
        decimal_value(digits.take(upto)) <= decimal_value(digits),
    decreases digits.len() - upto,
{
    if upto == digits.len() {
        assert(digits.take(upto) =~= digits);
    } else {
        let longer = digits.take(upto + 1);
        assert(longer.drop_last() =~= digits.take(upto));
        assert(is_digit(digits[upto]));
        assert(longer.last() == digits[upto]);
        lemma_decimal_value_grows(digits, upto + 1);
    }
}

/// Reads the number that `text` writes, if it is at most `max`.
pub fn parse_unsigned(text: &str, max: u32) -> (r: Option<u32>)
    ensures
        r == unsigned_decimal_up_to(text@, max),
{
    let chars = chars_of(text);
    let start: usize = if chars.len() > 0 && chars[0] == '+' {
        1
    } else {
        0
    };
    let ghost digits = digits_of(text@);
    assert(digits =~= chars@.skip(start as int));
    if start == chars.len() {
        return None;
    }
    let mut value: u64 = 0;
    let mut i: usize = start;
    while i < chars.len()
        invariant
            start <= i <= chars.len(),
            start < chars.len(),
            digits == digits_of(text@),
            digits == chars@.skip(start as int),
            value == decimal_value(digits.take(i - start)),
            value <= max,
            forall|k: int| 0 <= k < i - start ==> is_digit(#[trigger] digits[k]),
        decreases chars.len() - i,
    {
        let c = chars[i];
        if c < '0' || c > '9' {
            assert(!is_digit(digits[i - start]));
            return None;
        }
        let ghost shorter = digits.take(i - start);
        let ghost longer = digits.take(i - start + 1);
        assert(longer.drop_last() =~= shorter);
        assert(longer.last() == c);
        value = value * 10 + (c as u64 - '0' as u64);
        i += 1;
        if value > max as u64 {
            proof {
                if forall|k: int| 0 <= k < digits.len() ==> is_digit(#[trigger] digits[k]) {
                    lemma_decimal_value_grows(digits, i - start);
                }
            }
            return None;
        }
    }
    assert(digits.take(i - start) =~= digits);
    Some(value as u32)
}

/// Reads a stock count: a whole number from 0 to 65535, written in digits
/// with or without a plus sign before them.
pub fn parse_stock(text: &str) -> (r: Option<u16>)
    ensures
        r == spec_stock(text@),
{
    match parse_unsigned(text, 65535) {
        Some(n) => Some(n as u16),
        None => None,
    }
}

/// What the user asks of the program.
#[derive(Clone, Copy, Debug, PartialEq, Eq, Structural)]
pub enum MenuChoice {
    SeeAll,
    Search,
    Create,
    Update,
    Delete,
    Exit,
    /// The line names none of the six actions.
    Invalid,
}

impl MenuChoice {
    /// The action with the number `number`: the six actions are numbered
    /// from 1, in the order of the menu.
    pub open spec fn spec_from_number(number: Option<nat>) -> MenuChoice {
        match number {
            Some(n) => if n == 1 {
                MenuChoice::SeeAll
            } else if n == 2 {
                MenuChoice::Search
            } else if n == 3 {
                MenuChoice::Create
            } else if n == 4 {
                MenuChoice::Update
            } else if n == 5 {
                MenuChoice::Delete
            } else if n == 6 {
                MenuChoice::Exit
            } else {
                MenuChoice::Invalid
            },
            None => MenuChoice::Invalid,
        }
    }

    /// The action that `text` asks for by its number.
    pub fn parse(text: &str) -> (r: MenuChoice)
        ensures
            r == MenuChoice::spec_from_number(unsigned_decimal(text@)),
    {
        match parse_unsigned(text, 255) {
            Some(1) => MenuChoice::SeeAll,
            Some(2) => MenuChoice::Search,
            Some(3) => MenuChoice::Create,
            Some(4) => MenuChoice::Update,
            Some(5) => MenuChoice::Delete,
            Some(6) => MenuChoice::Exit,
            _ => MenuChoice::Invalid,
        }
    }
}

/// The menu choice on the line `line`, white space at its ends ignored.
pub fn read_menu_choice(line: &str) -> (r: MenuChoice)
    ensures
        r == MenuChoice::spec_from_number(unsigned_decimal(trimmed(line@))),
{
    MenuChoice::parse(trim(line))
}

/// The text on the line `line` without the white space at its ends: a
/// product's name, or what to search for.
pub fn read_text(line: &str) -> (r: String)
    ensures
        r@ == trimmed(line@),
{
    trim(line).to_owned()
}

/// The brand on the line `line`, white space at its ends and the case of
/// letters ignored, or `None` where the line names none of the brands.
pub fn read_brand(line: &str) -> (r: Option<Brand>)
    ensures
        r == Brand::spec_parse(trimmed(line@)),
{
    Brand::parse(trim(line))
}

/// The stock count on the line `line`, white space at its ends ignored, or
/// `None` where the line is no whole number from 0 to 65535.
pub fn read_stock(line: &str) -> (r: Option<u16>)
    ensures
        r == spec_stock(trimmed(line@)),
{
    parse_stock(trim(line))
}

/// The identifier on the line `line`, white space at its ends ignored, or
/// `None` where the line writes no UUID.
pub fn read_id(line: &str) -> (r: Option<ProductId>)
    ensures
        r == ProductId::spec_parse(trimmed(line@)),
{
    ProductId::parse(trim(line))
}

} // verus!

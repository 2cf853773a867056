//! Numbers as text.

use vstd::prelude::*;

verus! {

/// The decimal digit for a value under ten.
pub open spec fn digit(value: nat) -> char {
    (value + 48) as char
}

/// A number in decimal, without leading zeros.
pub open spec fn decimal(number: nat) -> Seq<char>
    decreases number,
{
    if number < 10 {
        seq![digit(number)]
    } else {
        decimal(number / 10).push(digit(number % 10))
    }
}

/// The number that a string of decimal digits stands for.
pub open spec fn decimal_value(text: Seq<char>) -> int
    decreases text.len(),
{
    if text.len() == 0 {
        0
    } else {
        decimal_value(text.drop_last()) * 10 + (text.last() as int - 48)
    }
}

/// Every character is a decimal digit.
pub open spec fn all_digits(text: Seq<char>) -> bool {
    forall|i: int| 0 <= i < text.len() ==> '0' <= #[trigger] text[i] <= '9'
}

/// A number with its sign, the sign only where it is negative.
pub open spec fn signed_decimal(number: int) -> Seq<char> {
    if number < 0 {
        seq!['-'] + decimal((-number) as nat)
    } else {
        decimal(number as nat)
    }
}

/// An optional number in the form in which it is shown for debugging.
pub open spec fn debug_option(value: Option<i32>) -> Seq<char> {
    match value {
        Some(number) => "Some("@ + signed_decimal(number as int) + ")"@,
        None => "None"@,
    }
}

/// The digit for a value under sixteen, with capital letters from ten on.
pub open spec fn hex_digit(value: nat) -> char {
    if value < 10 {
        (value + 48) as char
    } else {
        (value + 55) as char
    }
}

/// A byte in hexadecimal, with capital letters and without leading zeros.
pub open spec fn hex(byte: u8) -> Seq<char> {
    if byte < 16 {
        seq![hex_digit(byte as nat)]
    } else {
        seq![hex_digit(byte as nat / 16), hex_digit(byte as nat % 16)]
    }
}

/// The one-character text of a digit under sixteen.
fn digit_text(value: u8) -> (text: &'static str)
    requires
        value < 16,
    ensures
        text@ =~= seq![hex_digit(value as nat)],
{
    proof {
        reveal_strlit("0");
        reveal_strlit("1");
        reveal_strlit("2");
        reveal_strlit("3");
        reveal_strlit("4");
        reveal_strlit("5");
        reveal_strlit("6");
        reveal_strlit("7");
        reveal_strlit("8");
        reveal_strlit("9");
        reveal_strlit("A");
        reveal_strlit("B");
        reveal_strlit("C");
        reveal_strlit("D");
        reveal_strlit("E");
        reveal_strlit("F");
    }
    match value {
        0 => "0",
        1 => "1",
        2 => "2",
        3 => "3",
        4 => "4",
        5 => "5",
        6 => "6",
        7 => "7",
        8 => "8",
        9 => "9",
        10 => "A",
        11 => "B",
        12 => "C",
        13 => "D",
        14 => "E",
        _ => "F",
    }
}

/// Adds a number in decimal to the end of a text.
pub fn append_decimal(text: &mut String, number: u64)
    ensures
        final(text)@ == old(text)@ + decimal(number as nat),
    decreases number,
{
    if number < 10 {
        text.append(digit_text(number as u8));
    } else {
        append_decimal(text, number / 10);
        text.append(digit_text((number % 10) as u8));
    }
    assert(text@ =~= old(text)@ + decimal(number as nat));
}

/// Adds an optional number to the end of a text, in the form in which it is shown
/// for debugging.
pub fn append_debug_option(text: &mut String, value: Option<i32>)
    ensures
        final(text)@ == old(text)@ + debug_option(value),
{
    match value {
        None => text.append("None"),
        Some(number) => {
            text.append("Some(");
            if number < 0 {
                proof {
                    reveal_strlit("-");
                }
                text.append("-");
                let magnitude: u64 = (-(number as i64)) as u64;
                append_decimal(text, magnitude);
            } else {
                append_decimal(text, number as u64);
            }
            text.append(")");
        },
    }
    assert(text@ =~= old(text)@ + debug_option(value)) by {
        reveal_strlit("-");
    }
}

/// A byte in hexadecimal.
pub fn hex_text(byte: u8) -> (text: String)
    ensures
        text@ == hex(byte),
{
    let mut text = String::new();
    if byte >= 16 {
        text.append(digit_text(byte / 16));
    }
    text.append(digit_text(byte % 16));
    assert(text@ =~= hex(byte));
    text
}

/// A decimal number consists of digits, at least one of them.
pub proof fn lemma_decimal_is_digits(number: nat)
    ensures
        all_digits(decimal(number)),
        decimal(number).len() > 0,
    decreases number,
{
    if number >= 10 {
        lemma_decimal_is_digits(number / 10);
    }
}

/// The number is read back from its decimal text.
pub proof fn law_decimal_is_read_back(number: nat)
    ensures
        decimal_value(decimal(number)) == number,
    decreases number,
{
    reveal_with_fuel(decimal_value, 2);
    if number >= 10 {
        law_decimal_is_read_back(number / 10);
        assert(decimal(number).drop_last() =~= decimal(number / 10));
    } else {
        assert(decimal(number).drop_last() =~= Seq::<char>::empty());
    }
}

/// Different numbers have different decimal texts.
pub proof fn law_decimal_is_injective(left: nat, right: nat)
    requires
        decimal(left) == decimal(right),
    ensures
        left == right,
{
    law_decimal_is_read_back(left);
    law_decimal_is_read_back(right);
}

/// A number has one decimal digit more than a tenth of it: the text of a number with a
/// digit behind it is the text of the number with the character of that digit behind it,
/// and a number under ten is a single character.
pub proof fn law_decimal_grows_by_a_digit(number: nat, last: nat)
    requires
        last < 10,
    ensures
        decimal(last) == seq!["0123456789"@[last as int]],
        number > 0 ==> decimal(10 * number + last) == decimal(number).push(
            "0123456789"@[last as int],
        ),
{
    reveal_strlit("0123456789");
    if number > 0 {
        assert((10 * number + last) / 10 == number && (10 * number + last) % 10 == last);
    }
}

/// The digits are those of a number in decimal: they are read back as the number, and none
/// of them is a zero that could be left out.
pub open spec fn is_numeral(digits: Seq<char>, number: int) -> bool {
    &&& digits.len() > 0
    &&& all_digits(digits)
    &&& decimal_value(digits) == number
    &&& digits[0] == '0' ==> digits.len() == 1
}

/// The decimal text of a number is its numeral, and there is no other.
pub proof fn law_a_number_has_one_numeral(digits: Seq<char>, number: nat)
    ensures
        is_numeral(digits, number as int) <==> digits == decimal(number),
{
    lemma_decimal_is_numeral(number);
    if is_numeral(digits, number as int) {
        lemma_numeral_is_decimal(digits, number);
    }
}

/// The decimal text of a number is its numeral.
proof fn lemma_decimal_is_numeral(number: nat)
    ensures
        is_numeral(decimal(number), number as int),
        decimal(number)[0] == '0' ==> number == 0,
    decreases number,
{
    lemma_decimal_is_digits(number);
    law_decimal_is_read_back(number);
    if number >= 10 {
        lemma_decimal_is_numeral(number / 10);
        assert(decimal(number)[0] == decimal(number / 10)[0]);
    }
}

/// Digits that do not begin with a zero stand for more than nothing.
proof fn lemma_value_is_positive(digits: Seq<char>)
    requires
        digits.len() > 0,
        all_digits(digits),
    ensures
        decimal_value(digits) >= 0,
        digits[0] != '0' ==> decimal_value(digits) > 0,
    decreases digits.len(),
{
    let rest = digits.drop_last();
    assert('0' <= digits[digits.len() - 1] <= '9');
    if rest.len() > 0 {
        assert forall|i: int| 0 <= i < rest.len() implies '0' <= #[trigger] rest[i] <= '9' by {
            assert(rest[i] == digits[i]);
        }
        lemma_value_is_positive(rest);
    } else {
        assert(decimal_value(rest) == 0);
        assert('0' <= digits[0] <= '9');
    }
}

/// A numeral of a number is its decimal text.
proof fn lemma_numeral_is_decimal(digits: Seq<char>, number: nat)
    requires
        is_numeral(digits, number as int),
    ensures
        digits == decimal(number),
    decreases digits.len(),
{
    let rest = digits.drop_last();
    let last = digits.last();
    assert('0' <= digits[digits.len() - 1] <= '9');
    assert(last as char == digit((last as int - 48) as nat));
    if rest.len() > 0 {
        assert forall|i: int| 0 <= i < rest.len() implies '0' <= #[trigger] rest[i] <= '9' by {
            assert(rest[i] == digits[i]);
        }
        lemma_value_is_positive(rest);
        assert(number / 10 == decimal_value(rest) && number % 10 == last as int - 48);
        lemma_numeral_is_decimal(rest, number / 10);
        assert(digits =~= rest.push(last));
    } else {
        assert(decimal_value(rest) == 0);
        assert(digits =~= seq![digit(number)]);
    }
}

/// A text with a decimal number between two others holds the number: its numeral stands
/// between them.
pub proof fn law_number_in_between_is_read_back(before: Seq<char>, number: nat, behind: Seq<char>)
    ensures
        ({
            let text = before + decimal(number) + behind;
            &&& text.take(before.len() as int) == before
            &&& text.skip(text.len() - behind.len()) == behind
            &&& is_numeral(
                text.subrange(before.len() as int, text.len() - behind.len()),
                number as int,
            )
        }),
{
    let text = before + decimal(number) + behind;
    assert(text.take(before.len() as int) =~= before);
    assert(text.skip(text.len() - behind.len()) =~= behind);
    assert(text.subrange(before.len() as int, text.len() - behind.len()) =~= decimal(number));
    law_a_number_has_one_numeral(decimal(number), number);
}

/// An optional number is read back from the form in which it is shown: nothing is `None`,
/// and a number stands between `Some(` and `)`, behind a sign if and only if it is
/// negative.
pub proof fn law_optional_number_is_read_back(value: Option<i32>)
    ensures
        value is None ==> debug_option(value) == seq!['N', 'o', 'n', 'e'],
        value matches Some(number) ==> {
            let text = debug_option(value);
            let shown = text.subrange(5, text.len() - 1);
            &&& text.len() > 6
            &&& text.take(5) == seq!['S', 'o', 'm', 'e', '(']
            &&& text.last() == ')'
            &&& shown[0] == '-' <==> number < 0
            &&& number >= 0 ==> is_numeral(shown, number as int)
            &&& number < 0 ==> is_numeral(shown.skip(1), -number)
        },
{
    reveal_strlit("None");
    reveal_strlit("Some(");
    reveal_strlit(")");
    match value {
        None => {
            assert(debug_option(value) =~= seq!['N', 'o', 'n', 'e']);
        },
        Some(number) => {
            let text = debug_option(value);
            let shown = text.subrange(5, text.len() - 1);
            let size = if number < 0 {
                (-number) as nat
            } else {
                number as nat
            };
            lemma_decimal_is_digits(size);
            law_a_number_has_one_numeral(decimal(size), size);
            assert(text.take(5) =~= seq!['S', 'o', 'm', 'e', '(']);
            assert(shown =~= signed_decimal(number as int));
            if number < 0 {
                assert(shown.skip(1) =~= decimal(size));
            }
        },
    }
}

/// A byte is written with one hexadecimal digit or two, with two only where one is not
/// enough: they are the digits of its two halves.
pub proof fn law_hexadecimal_digits(byte: u8)
    ensures
        byte < 16 ==> hex(byte) == seq!["0123456789ABCDEF"@[byte as int]],
        byte >= 16 ==> hex(byte) == seq![
            "0123456789ABCDEF"@[byte as int / 16],
            "0123456789ABCDEF"@[byte as int % 16],
        ],
{
    reveal_strlit("0123456789ABCDEF");
    let alphabet = "0123456789ABCDEF"@;
    let high = byte as int / 16;
    let low = byte as int % 16;
    assert(hex_digit(high as nat) == alphabet[high]);
    assert(hex_digit(low as nat) == alphabet[low]);
}

/// Digits end where something else begins: two texts that begin with digits, go on with
/// the same text that does not begin with one, and are equal, have the same digits and the
/// same rest.
pub proof fn law_digits_end_where_others_begin(
    left: Seq<char>,
    left_rest: Seq<char>,
    right: Seq<char>,
    right_rest: Seq<char>,
    between: Seq<char>,
)
    requires
        all_digits(left),
        all_digits(right),
        between.len() > 0,
        !('0' <= between[0] <= '9'),
        left + between + left_rest == right + between + right_rest,
    ensures
        left == right,
        left_rest == right_rest,
{
    let text = left + between + left_rest;
    let other = right + between + right_rest;
    assert(text[left.len() as int] == between[0]);
    assert(other[right.len() as int] == between[0]);
    if left.len() < right.len() {
        assert(other[left.len() as int] == right[left.len() as int]);
    }
    if right.len() < left.len() {
        assert(text[right.len() as int] == left[right.len() as int]);
    }
    assert(left =~= text.take(left.len() as int));
    assert(right =~= other.take(left.len() as int));
    assert(left_rest =~= text.skip((left.len() + between.len()) as int));
    assert(right_rest =~= other.skip((left.len() + between.len()) as int));
}

} // verus!

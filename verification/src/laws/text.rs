//! What holds of diagnostics, whatever they tell.

use vstd::prelude::*;

use crate::text::{bits_from_i32, decimal, digit, hexadecimal, padded_hexadecimal, Message};

verus! {

/// The value of a digit.
pub open spec fn worth(c: char) -> int {
    if '0' <= c <= '9' {
        c as int - '0' as int
    } else if 'a' <= c <= 'f' {
        c as int - 'a' as int + 10
    } else {
        -1
    }
}

/// The number that the digits stand for.
pub open spec fn number_of(digits: Seq<char>, base: int) -> int
    decreases digits.len(),
{
    if digits.len() == 0 {
        0
    } else {
        number_of(digits.drop_last(), base) * base + worth(digits.last())
    }
}

/// The text is made of digits of the base alone.
pub open spec fn is_numeral(digits: Seq<char>, base: int) -> bool {
    forall|index: int| 0 <= index < digits.len() ==> 0 <= worth(#[trigger] digits[index]) < base
}

proof fn lemma_digit(value: nat)
    requires
        value < 16,
    ensures
        worth(digit(value)) == value,
        value > 0 ==> digit(value) != '0',
{
}

proof fn lemma_push(digits: Seq<char>, c: char, base: int)
    ensures
        number_of(digits.push(c), base) == number_of(digits, base) * base + worth(c),
        is_numeral(digits, base) && 0 <= worth(c) < base ==> is_numeral(digits.push(c), base),
{
    assert(digits.push(c).drop_last() =~= digits);
}

proof fn lemma_decimal(value: nat)
    ensures
        number_of(decimal(value), 10) == value,
        is_numeral(decimal(value), 10),
        decimal(value).len() > 0,
        value > 0 ==> decimal(value)[0] != '0',
        value < 10 ==> decimal(value).len() == 1,
    decreases value,
{
    if value < 10 {
        lemma_digit(value);
        assert(decimal(value) =~= Seq::empty().push(digit(value)));
        lemma_push(Seq::empty(), digit(value), 10);
    } else {
        lemma_decimal(value / 10);
        lemma_digit(value % 10);
        lemma_push(decimal(value / 10), digit(value % 10), 10);
    }
}

proof fn lemma_hexadecimal(value: nat)
    ensures
        number_of(hexadecimal(value), 16) == value,
        is_numeral(hexadecimal(value), 16),
        hexadecimal(value).len() > 0,
        value > 0 ==> hexadecimal(value)[0] != '0',
        value < 16 ==> hexadecimal(value).len() == 1,
    decreases value,
{
    if value < 16 {
        lemma_digit(value);
        assert(hexadecimal(value) =~= Seq::empty().push(digit(value)));
        lemma_push(Seq::empty(), digit(value), 16);
    } else {
        lemma_hexadecimal(value / 16);
        lemma_digit(value % 16);
        lemma_push(hexadecimal(value / 16), digit(value % 16), 16);
    }
}

/// Sixteen to the power of `width`.
pub open spec fn sixteens(width: nat) -> int
    decreases width,
{
    if width == 0 {
        1
    } else {
        16 * sixteens((width - 1) as nat)
    }
}

proof fn lemma_padded(value: nat, width: nat)
    requires
        value < sixteens(width),
    ensures
        number_of(padded_hexadecimal(value, width), 16) == value,
        is_numeral(padded_hexadecimal(value, width), 16),
        padded_hexadecimal(value, width).len() == width,
    decreases width,
{
    if width > 0 {
        lemma_padded(value / 16, (width - 1) as nat);
        lemma_digit(value % 16);
        lemma_push(padded_hexadecimal(value / 16, (width - 1) as nat), digit(value % 16), 16);
    }
}

/// What was added is behind what was there.
pub open spec fn added(after: Seq<char>, before: Seq<char>) -> Seq<char> {
    after.skip(before.len() as int)
}

/// A number that is added to a diagnostic can be read back: its digits stand for it, without zeros
/// in front, or, where sixteen digits are asked for, with as many as that takes. A minus sign stands
/// in front of negative numbers alone.
pub proof fn numbers_can_be_read_back(
    message: Message,
    value: u64,
    signed: i64,
    in_decimal: Message,
    in_hexadecimal: Message,
    in_sixteen_digits: Message,
    with_sign: Message,
)
    requires
        call_ensures(Message::number, (message, value), in_decimal),
        call_ensures(Message::hex, (message, value), in_hexadecimal),
        call_ensures(Message::hex16, (message, value), in_sixteen_digits),
        call_ensures(Message::signed, (message, signed), with_sign),
    ensures
        ({
            let digits = added(in_decimal@, message@);
            &&& in_decimal@ == message@ + digits
            &&& number_of(digits, 10) == value && is_numeral(digits, 10)
            &&& digits.len() > 1 ==> digits[0] != '0'
        }),
        ({
            let digits = added(in_hexadecimal@, message@);
            &&& in_hexadecimal@ == message@ + digits
            &&& number_of(digits, 16) == value && is_numeral(digits, 16)
            &&& digits.len() > 1 ==> digits[0] != '0'
        }),
        ({
            let digits = added(in_sixteen_digits@, message@);
            &&& in_sixteen_digits@ == message@ + digits
            &&& number_of(digits, 16) == value && is_numeral(digits, 16)
            &&& digits.len() == 16
        }),
        ({
            let digits = added(with_sign@, message@);
            &&& with_sign@ == message@ + digits
            &&& signed >= 0 ==> number_of(digits, 10) == signed && is_numeral(digits, 10)
            &&& signed < 0 ==> digits[0] == '-' && number_of(digits.skip(1), 10) == -signed
                && is_numeral(digits.skip(1), 10)
        }),
{
    lemma_decimal(value as nat);
    lemma_hexadecimal(value as nat);
    reveal_with_fuel(sixteens, 17);
    lemma_padded(value as nat, 16);
    assert(added(in_decimal@, message@) =~= decimal(value as nat));
    assert(added(in_hexadecimal@, message@) =~= hexadecimal(value as nat));
    assert(added(in_sixteen_digits@, message@) =~= padded_hexadecimal(value as nat, 16));
    if signed >= 0 {
        lemma_decimal(signed as nat);
        assert(added(with_sign@, message@) =~= decimal(signed as nat));
    } else {
        let magnitude = (-(signed as int)) as nat;
        lemma_decimal(magnitude);
        assert(added(with_sign@, message@) =~= seq!['-'] + decimal(magnitude));
        assert((seq!['-'] + decimal(magnitude)).skip(1) =~= decimal(magnitude));
    }
}

/// Texts are added behind one another and nothing is left out.
pub proof fn texts_are_put_together(
    start: &str,
    begun: Message,
    more: &str,
    longer: Message,
    text: String,
)
    requires
        call_ensures(Message::new, (start,), begun),
        call_ensures(Message::text, (begun, more), longer),
        call_ensures(Message::done, (longer,), text),
    ensures
        text@ == start@ + more@,
{
}

/// The bits of a negative number are those of the number that it is short of two to the thirty-two.
pub proof fn bits_are_kept(value: i32, bits: u32)
    requires
        call_ensures(bits_from_i32, (value,), bits),
    ensures
        value >= 0 ==> bits == value,
        value < 0 ==> bits == 0x1_0000_0000 + value,
{
}

} // verus!

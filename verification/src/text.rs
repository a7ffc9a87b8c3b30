//! Diagnostic text, built piece by piece with a contract on every piece.

use vstd::prelude::*;

verus! {

/// The character of the lower-case digit `value`, for bases up to sixteen.
pub open spec fn digit(value: nat) -> char {
    if value < 10 {
        (48 + value) as char
    } else {
        (87 + value) as char
    }
}

/// The decimal digits of `value`, without leading zeros.
pub open spec fn decimal(value: nat) -> Seq<char>
    decreases value,
{
    if value < 10 {
        seq![digit(value)]
    } else {
        decimal(value / 10).push(digit(value % 10))
    }
}

/// The decimal digits of `value`, behind a minus sign where it is negative.
pub open spec fn signed_decimal(value: int) -> Seq<char> {
    if value < 0 {
        seq!['-'] + decimal((-value) as nat)
    } else {
        decimal(value as nat)
    }
}

/// The hexadecimal digits of `value`, without leading zeros.
pub open spec fn hexadecimal(value: nat) -> Seq<char>
    decreases value,
{
    if value < 16 {
        seq![digit(value)]
    } else {
        hexadecimal(value / 16).push(digit(value % 16))
    }
}

/// The `width` lowest hexadecimal digits of `value`.
pub open spec fn padded_hexadecimal(value: nat, width: nat) -> Seq<char>
    decreases width,
{
    if width == 0 {
        Seq::empty()
    } else {
        padded_hexadecimal(value / 16, (width - 1) as nat).push(digit(value % 16))
    }
}

/// The unsigned value with the same 32 bits as `value`.
pub open spec fn bits_of_i32(value: i32) -> nat {
    if value < 0 {
        (value + 0x1_0000_0000) as nat
    } else {
        value as nat
    }
}

/// `result` is what `expected` says, with the diagnostic as text.
pub open spec fn agrees<T>(result: Result<T, String>, expected: Result<T, Seq<char>>) -> bool {
    match (result, expected) {
        (Ok(value), Ok(wanted)) => value == wanted,
        (Err(message), Err(wanted)) => message@ == wanted,
        _ => false,
    }
}

fn digit_text(value: u8) -> (text: &'static str)
    requires
        value < 16,
    ensures
        text@ == seq![digit(value as nat)],
{
    proof {
        reveal_strlit("0");
        reveal_strlit("1");
        reveal_strlit("2");
        reveal_strlit("3");
        reveal_strlit("4");
        reveal_strlit("5");
        reveal_strlit("6");
        reveal_strlit("7");
        reveal_strlit("8");
        reveal_strlit("9");
        reveal_strlit("a");
        reveal_strlit("b");
        reveal_strlit("c");
        reveal_strlit("d");
        reveal_strlit("e");
        reveal_strlit("f");
    }
    let text = match value {
        0 => "0",
        1 => "1",
        2 => "2",
        3 => "3",
        4 => "4",
        5 => "5",
        6 => "6",
        7 => "7",
        8 => "8",
        9 => "9",
        10 => "a",
        11 => "b",
        12 => "c",
        13 => "d",
        14 => "e",
        _ => "f",
    };
    assert(text@ =~= seq![digit(value as nat)]);
    text
}

fn append_decimal(text: &mut String, value: u64)
    ensures
        final(text)@ == old(text)@ + decimal(value as nat),
    decreases value,
{
    if value >= 10 {
        append_decimal(text, value / 10);
    }
    text.append(digit_text((value % 10) as u8));
    assert(text@ =~= old(text)@ + decimal(value as nat));
}

fn append_hexadecimal(text: &mut String, value: u64)
    ensures
        final(text)@ == old(text)@ + hexadecimal(value as nat),
    decreases value,
{
    if value >= 16 {
        append_hexadecimal(text, value / 16);
    }
    text.append(digit_text((value % 16) as u8));
    assert(text@ =~= old(text)@ + hexadecimal(value as nat));
}

fn append_padded_hexadecimal(text: &mut String, value: u64, width: u32)
    ensures
        final(text)@ == old(text)@ + padded_hexadecimal(value as nat, width as nat),
    decreases width,
{
    if width > 0 {
        append_padded_hexadecimal(text, value / 16, width - 1);
        text.append(digit_text((value % 16) as u8));
    }
    assert(text@ =~= old(text)@ + padded_hexadecimal(value as nat, width as nat));
}

/// The unsigned value with the same bits as `value`.
pub fn bits_from_i32(value: i32) -> (bits: u32)
    ensures
        bits == bits_of_i32(value),
{
    if value >= 0 {
        value as u32
    } else if value == i32::MIN {
        0x8000_0000
    } else {
        0xffff_ffff - ((-value) as u32 - 1)
    }
}

/// A diagnostic under construction.
pub struct Message {
    text: String,
}

impl View for Message {
    type V = Seq<char>;

    closed spec fn view(&self) -> Seq<char> {
        self.text@
    }
}

impl Message {
    /// A diagnostic that starts with `text`.
    pub fn new(text: &str) -> (message: Message)
        ensures
            message@ == text@,
    {
        Message { text: text.to_owned() }
    }

    /// Adds `text`.
    pub fn text(self, text: &str) -> (message: Message)
        ensures
            message@ == self@ + text@,
    {
        let Message { text: built } = self;
        Message { text: built.concat(text) }
    }

    /// Adds `value` in decimal.
    pub fn number(self, value: u64) -> (message: Message)
        ensures
            message@ == self@ + decimal(value as nat),
    {
        let Message { text: mut built } = self;
        append_decimal(&mut built, value);
        Message { text: built }
    }

    /// Adds `value` in decimal, with its sign where it is negative.
    pub fn signed(self, value: i64) -> (message: Message)
        ensures
            message@ == self@ + signed_decimal(value as int),
    {
        let Message { text: mut built } = self;
        if value >= 0 {
            append_decimal(&mut built, value as u64);
        } else {
            proof {
                reveal_strlit("-");
            }
            assert("-"@ =~= seq!['-']);
            built.append("-");
            let magnitude: u64 = if value == i64::MIN {
                0x8000_0000_0000_0000
            } else {
                (-value) as u64
            };
            append_decimal(&mut built, magnitude);
            assert(built@ =~= self@ + signed_decimal(value as int));
        }
        Message { text: built }
    }

    /// Adds `value` in hexadecimal.
    pub fn hex(self, value: u64) -> (message: Message)
        ensures
            message@ == self@ + hexadecimal(value as nat),
    {
        let Message { text: mut built } = self;
        append_hexadecimal(&mut built, value);
        Message { text: built }
    }

    /// Adds `value` as sixteen hexadecimal digits.
    pub fn hex16(self, value: u64) -> (message: Message)
        ensures
            message@ == self@ + padded_hexadecimal(value as nat, 16),
    {
        let Message { text: mut built } = self;
        append_padded_hexadecimal(&mut built, value, 16);
        Message { text: built }
    }

    /// The finished text.
    pub fn done(self) -> (text: String)
        ensures
            text@ == self@,
    {
        self.text
    }
}

} // verus!

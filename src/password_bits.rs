use vstd::prelude::*;
use vstd::string::*;

use crate::password_data::{Number, NumberType, number_type_label};
use crate::random::{coin_flip, random_in_range};

verus! {

/// One fragment of a password, with the reason it was chosen.
pub struct PasswordBit {
    /// The characters this bit adds to the password
    pub bits: String,
    /// The importance of the bit to the user (as a string)
    pub importance: String,
}

/// The password as a sequence of bits, in the order they were generated.
pub type PasswordBits = Vec<PasswordBit>;

/// The decimal digits, by value.
pub open spec fn digits() -> Seq<char> {
    seq!['0', '1', '2', '3', '4', '5', '6', '7', '8', '9']
}

/// The decimal notation of `n`, without leading zeros.
pub open spec fn decimal(n: nat) -> Seq<char>
    decreases n,
{
    if n < 10 {
        seq![digits()[n as int]]
    } else {
        decimal(n / 10).push(digits()[(n % 10) as int])
    }
}

/// The last two decimal digits of `value`, with a leading zero below ten.
pub open spec fn truncated(value: u16) -> Seq<char> {
    let r = (value % 100) as nat;
    if r < 10 {
        seq!['0'] + decimal(r)
    } else {
        decimal(r)
    }
}

/// The fragment a number of kind `t` gives. For years, `full` chooses between
/// all of its digits and the last two.
pub open spec fn number_fragment(value: u16, t: NumberType, full: bool) -> Seq<char> {
    match t {
        NumberType::BirthMonth | NumberType::BirthDay => truncated(value),
        NumberType::BirthYear | NumberType::CurrentYear => if full {
            decimal(value as nat)
        } else {
            truncated(value)
        },
        NumberType::RelevantNumber => decimal(value as nat),
    }
}

/// The first `count` characters of `t`, or all of `t` if it is shorter.
pub open spec fn text_fragment(t: Seq<char>, count: nat) -> Seq<char> {
    if count <= t.len() {
        t.take(count as int)
    } else {
        t
    }
}

/// The symbols a password may be padded with: the top row of a keyboard.
pub open spec fn symbols() -> Seq<char> {
    seq!['!', '@', '#', '$', '%', '^', '&', '*', '(', ')', '-', '_', '+', '=']
}

/// How many symbols there are to choose from.
pub const SYMBOL_COUNT: usize = 14;

/// `b` is a bit that `n` can give.
pub open spec fn is_number_bit(n: Number, b: PasswordBit) -> bool {
    &&& b.importance@ == number_type_label(n.num_type)
    &&& (b.bits@ == number_fragment(n.value, n.num_type, true) || b.bits@ == number_fragment(
        n.value,
        n.num_type,
        false,
    ))
}

/// `b` is a bit that the text `t` can give: one to three leading characters.
pub open spec fn is_text_bit(t: Seq<char>, b: PasswordBit) -> bool {
    &&& b.importance@ == t
    &&& (b.bits@ == text_fragment(t, 1) || b.bits@ == text_fragment(t, 2) || b.bits@
        == text_fragment(t, 3))
}

/// `b` is a symbol bit.
pub open spec fn is_symbol_bit(b: PasswordBit) -> bool {
    &&& b.importance@ == "Symbol"@
    &&& b.bits@.len() == 1
    &&& symbols().contains(b.bits@[0])
}

/// The one-character string of a decimal digit.
fn digit_str(d: u16) -> (r: &'static str)
    requires
        d < 10,
    ensures
        r@ == seq![digits()[d as int]],
{
    proof {
        reveal_strlit("0");
        reveal_strlit("1");
        reveal_strlit("2");
        reveal_strlit("3");
        reveal_strlit("4");
        reveal_strlit("5");
        reveal_strlit("6");
        reveal_strlit("7");
        reveal_strlit("8");
        reveal_strlit("9");
    }
    match d {
        0 => "0",
        1 => "1",
        2 => "2",
        3 => "3",
        4 => "4",
        5 => "5",
        6 => "6",
        7 => "7",
        8 => "8",
        _ => "9",
    }
}

/// The decimal notation of `n`.
pub fn decimal_string(n: u16) -> (r: String)
    ensures
        r@ == decimal(n as nat),
    decreases n,
{
    if n < 10 {
        String::from_str(digit_str(n))
    } else {
        let mut s = decimal_string(n / 10);
        s.append(digit_str(n % 10));
        s
    }
}

impl PasswordBit {
    /// Creates a bit from its characters and its importance.
    pub fn new(bits: String, importance: String) -> (r: Self)
        ensures
            r.bits@ == bits@,
            r.importance@ == importance@,
    {
        PasswordBit { bits, importance }
    }

    /// Creates a bit from a number: its label is the kind of the number, and its
    /// characters are the number shortened as its kind asks. Years keep all of
    /// their digits or the last two, by a coin flip.
    pub fn number_bit(number: &Number) -> (r: PasswordBit)
        ensures
            is_number_bit(*number, r),
    {
        let full = coin_flip();
        Self::number_bit_with_width(number, full)
    }

    /// Creates the bit of a number when the coin flip for years came out as
    /// `full` (all digits) or not (the last two).
    pub fn number_bit_with_width(number: &Number, full: bool) -> (r: PasswordBit)
        ensures
            r.bits@ == number_fragment(number.value, number.num_type, full),
            r.importance@ == number_type_label(number.num_type),
    {
        PasswordBit {
            bits: Self::number_to_bit(&number.value, &number.num_type, full),
            importance: number.num_type.label(),
        }
    }

    /// The characters of a number of the given kind. Months and days keep their
    /// last two digits, relevant numbers all of them, and years either, as
    /// `full` says.
    pub fn number_to_bit(number: &u16, number_type: &NumberType, full: bool) -> (r: String)
        ensures
            r@ == number_fragment(*number, *number_type, full),
    {
        match number_type {
            NumberType::BirthMonth | NumberType::BirthDay => Self::truncate_number(number),
            NumberType::BirthYear | NumberType::CurrentYear => {
                if full {
                    decimal_string(*number)
                } else {
                    Self::truncate_number(number)
                }
            },
            NumberType::RelevantNumber => decimal_string(*number),
        }
    }

    /// Truncates a number to its last two digits, with a leading zero below ten.
    pub fn truncate_number(number: &u16) -> (r: String)
        ensures
            r@ == truncated(*number),
            r@.len() == 2,
    {
        let number = number % 100;
        let ghost r = number as nat;
        assert(decimal(0) == seq!['0']);
        if number == 0 {
            proof {
                reveal_strlit("00");
            }
            assert("00"@ =~= seq!['0'] + decimal(r));
            String::from_str("00")
        } else if number < 10 {
            proof {
                reveal_strlit("0");
            }
            let mut s = String::from_str("0");
            let d = decimal_string(number);
            s.append(d.as_str());
            assert(s@ =~= seq!['0'] + decimal(r));
            s
        } else {
            assert(decimal(r) == decimal(r / 10).push(digits()[(r % 10) as int]));
            assert(decimal(r / 10).len() == 1);
            decimal_string(number)
        }
    }

    /// Creates a bit from a text: its label is the whole text, and its characters
    /// are one to three characters from its start, as many as a draw says.
    pub fn string_bit(string: &str) -> (r: PasswordBit)
        ensures
            is_text_bit(string@, r),
            string@.len() > 0 ==> 1 <= r.bits@.len() <= 3 && r.bits@.len() <= string@.len(),
            r.bits@ == string@.take(r.bits@.len() as int),
    {
        let count = random_in_range(1, 4);
        Self::string_bit_with_length(string, count)
    }

    /// Creates the bit of a text when the draw for its length came out as
    /// `count` characters.
    pub fn string_bit_with_length(string: &str, count: usize) -> (r: PasswordBit)
        ensures
            r.bits@ == text_fragment(string@, count as nat),
            r.importance@ == string@,
    {
        let len = string.unicode_len();
        let end = if count <= len {
            count
        } else {
            len
        };
        let prefix = string.substring_char(0, end);
        assert(prefix@ =~= text_fragment(string@, count as nat));
        PasswordBit { bits: String::from_str(prefix), importance: String::from_str(string) }
    }

    /// Creates a symbol bit, the symbol drawn from the top row of a keyboard:
    /// ! @ # $ % ^ & * ( ) - _ + =
    pub fn symbol_bit() -> (r: PasswordBit)
        ensures
            is_symbol_bit(r),
    {
        let index = random_in_range(0, SYMBOL_COUNT);
        Self::symbol_bit_at(index)
    }

    /// Creates the bit of the symbol at `index` in ! @ # $ % ^ & * ( ) - _ + =
    pub fn symbol_bit_at(index: usize) -> (r: PasswordBit)
        requires
            index < SYMBOL_COUNT,
        ensures
            r.bits@ == seq![symbols()[index as int]],
            r.importance@ == "Symbol"@,
    {
        proof {
            reveal_strlit("!");
            reveal_strlit("@");
            reveal_strlit("#");
            reveal_strlit("$");
            reveal_strlit("%");
            reveal_strlit("^");
            reveal_strlit("&");
            reveal_strlit("*");
            reveal_strlit("(");
            reveal_strlit(")");
            reveal_strlit("-");
            reveal_strlit("_");
            reveal_strlit("+");
            reveal_strlit("=");
        }
        let symbol = match index {
            0 => "!",
            1 => "@",
            2 => "#",
            3 => "$",
            4 => "%",
            5 => "^",
            6 => "&",
            7 => "*",
            8 => "(",
            9 => ")",
            10 => "-",
            11 => "_",
            12 => "+",
            _ => "=",
        };
        PasswordBit { bits: String::from_str(symbol), importance: String::from_str("Symbol") }
    }
}

} // verus!

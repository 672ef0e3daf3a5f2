use vstd::prelude::*;
use vstd::string::*;

verus! {

/// The role a number plays for the user. It decides how the number is shortened.
#[derive(Clone, Copy, PartialEq, Eq, Structural, Debug)]
pub enum NumberType {
    BirthYear,
    BirthMonth,
    BirthDay,
    CurrentYear,
    RelevantNumber,
}

/// The display name of each kind of number.
pub open spec fn number_type_label(t: NumberType) -> Seq<char> {
    match t {
        NumberType::BirthYear => "Birth Year"@,
        NumberType::BirthMonth => "Birth Month"@,
        NumberType::BirthDay => "Birth Day"@,
        NumberType::CurrentYear => "Current Year"@,
        NumberType::RelevantNumber => "Relevant Number"@,
    }
}

impl NumberType {
    /// The human readable name of this kind of number, e.g. "Birth Year".
    pub fn label(&self) -> (r: String)
        ensures
            r@ == number_type_label(*self),
    {
        match self {
            NumberType::BirthYear => String::from_str("Birth Year"),
            NumberType::BirthMonth => String::from_str("Birth Month"),
            NumberType::BirthDay => String::from_str("Birth Day"),
            NumberType::CurrentYear => String::from_str("Current Year"),
            NumberType::RelevantNumber => String::from_str("Relevant Number"),
        }
    }
}

impl Default for NumberType {
    /// A number is only "relevant" unless the user says more about it.
    fn default() -> (r: Self)
        ensures
            r == NumberType::RelevantNumber,
    {
        NumberType::RelevantNumber
    }
}

/// A numeric value along with the role it plays for the user.
#[derive(Clone, Copy, PartialEq, Eq, Structural, Debug)]
pub struct Number {
    /// The numeric value
    pub value: u16,
    /// The kind of the number
    pub num_type: NumberType,
}

impl Number {
    /// Creates a new number with the given value and kind.
    pub fn new(value: u16, num_type: NumberType) -> (r: Self)
        ensures
            r.value == value,
            r.num_type == num_type,
    {
        Self { value, num_type }
    }
}

impl Default for Number {
    /// The number zero, of no particular kind.
    fn default() -> (r: Self)
        ensures
            r.value == 0,
            r.num_type == NumberType::RelevantNumber,
    {
        Self { value: 0, num_type: NumberType::RelevantNumber }
    }
}

/// Everything the password generation draws from: the user's numbers and words.
pub struct PasswordData {
    /// A pool of numeric values and their importance to the user
    pub numbers_poll: Vec<Number>,
    /// A pool of strings of importance to the user
    pub text_poll: Vec<String>,
}

impl PasswordData {
    /// Creates a pool from the given numbers and words.
    pub fn new(numbers_poll: Vec<Number>, text_poll: Vec<String>) -> (r: Self)
        ensures
            r.numbers_poll@ == numbers_poll@,
            r.text_poll@ == text_poll@,
    {
        Self { numbers_poll, text_poll }
    }

    /// Puts the current calendar year in front of the numbers, as a number of
    /// kind `CurrentYear`. The year itself comes from the caller.
    pub fn add_current_year(&mut self, year: u16)
        ensures
            final(self).numbers_poll@ == seq![Number { value: year, num_type: NumberType::CurrentYear }]
                + old(self).numbers_poll@,
            final(self).text_poll@ == old(self).text_poll@,
    {
        self.numbers_poll.insert(0, Number::new(year, NumberType::CurrentYear));
        assert(self.numbers_poll@ =~= seq![Number { value: year, num_type: NumberType::CurrentYear }]
            + old(self).numbers_poll@);
    }
}

impl Default for PasswordData {
    /// An empty pool.
    fn default() -> (r: Self)
        ensures
            r.numbers_poll@.len() == 0,
            r.text_poll@.len() == 0,
    {
        Self { numbers_poll: Vec::new(), text_poll: Vec::new() }
    }
}

} // verus!

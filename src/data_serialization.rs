use vstd::prelude::*;
use vstd::string::*;

use crate::password_data::NumberType;

verus! {

/// Conversion between a value and the short name that stands for it in a
/// selection list.
pub trait DataSerialization: Sized {
    /// The value a name stands for.
    spec fn spec_from_string(s: Seq<char>) -> Self;

    /// The name of a value.
    spec fn spec_into_string(v: Self) -> Seq<char>;

    /// Reads a value from its name.
    fn from_string(s: &str) -> (r: Self)
        ensures
            r == Self::spec_from_string(s@),
    ;

    /// The name of this value.
    fn into_string(self) -> (r: &'static str)
        ensures
            r@ == Self::spec_into_string(self),
    ;
}

impl DataSerialization for NumberType {
    /// Unknown names stand for a relevant number.
    open spec fn spec_from_string(s: Seq<char>) -> NumberType {
        if s == "birth_year"@ {
            NumberType::BirthYear
        } else if s == "birth_month"@ {
            NumberType::BirthMonth
        } else if s == "birth_day"@ {
            NumberType::BirthDay
        } else if s == "current_year"@ {
            NumberType::CurrentYear
        } else {
            NumberType::RelevantNumber
        }
    }

    open spec fn spec_into_string(v: NumberType) -> Seq<char> {
        match v {
            NumberType::BirthYear => "birth_year"@,
            NumberType::BirthMonth => "birth_month"@,
            NumberType::BirthDay => "birth_day"@,
            NumberType::CurrentYear => "current_year"@,
            NumberType::RelevantNumber => "relevant_number"@,
        }
    }

    fn from_string(s: &str) -> (r: NumberType) {
        let name = s.to_owned();
        if name == String::from_str("birth_year") {
            NumberType::BirthYear
        } else if name == String::from_str("birth_month") {
            NumberType::BirthMonth
        } else if name == String::from_str("birth_day") {
            NumberType::BirthDay
        } else if name == String::from_str("current_year") {
            NumberType::CurrentYear
        } else {
            NumberType::RelevantNumber
        }
    }

    fn into_string(self) -> (r: &'static str) {
        match self {
            NumberType::BirthYear => "birth_year",
            NumberType::BirthMonth => "birth_month",
            NumberType::BirthDay => "birth_day",
            NumberType::CurrentYear => "current_year",
            NumberType::RelevantNumber => "relevant_number",
        }
    }
}

/// Reading the name of a kind of number gives that kind back.
pub proof fn lemma_number_type_name_round_trip(t: NumberType)
    ensures
        <NumberType as DataSerialization>::spec_from_string(
            <NumberType as DataSerialization>::spec_into_string(t),
        ) == t,
{
    reveal_strlit("birth_year");
    reveal_strlit("birth_month");
    reveal_strlit("birth_day");
    reveal_strlit("current_year");
    reveal_strlit("relevant_number");
    // the names differ in length, hence in content
    assert("birth_year"@.len() == 10 && "birth_month"@.len() == 11 && "birth_day"@.len() == 9);
    assert("current_year"@.len() == 12 && "relevant_number"@.len() == 15);
}

} // verus!

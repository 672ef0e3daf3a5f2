use vstd::prelude::*;

use crate::password_bits::PasswordBits;
use crate::password_data::{Number, NumberType, PasswordData};
use crate::password_generation::{GenerationSettings, is_password_from};

verus! {

/// How many candidate passwords the form offers at a time.
pub const PASSWORD_CANDIDATES: usize = 10;

/// What the user did in the password form.
pub enum Msg {
    AddNumericInput,
    AddStringInput,
    RemoveNumericInput(usize),
    RemoveStringInput(usize),
    UpdateNumericValueInput(usize, u16),
    UpdateNumericTypeInput(usize, NumberType),
    UpdateStringInput(usize, String),
    UpdatePasswordBits(usize),
    FlipAddYear,
    FlipAddSymbols,
    GeneratePasswords,
}

/// The state of the password form: the facts entered so far, the settings,
/// and the candidate passwords last generated.
pub struct FormComponent {
    pub numeric_values: Vec<Number>,
    pub string_values: Vec<String>,
    pub add_year: bool,
    pub add_symbols: bool,
    pub password_bits: usize,
    pub passwords: Option<Vec<PasswordBits>>,
}

/// The numbers the passwords are drawn from: those entered, after the current
/// year when the user asked for it.
pub open spec fn pool_numbers(entered: Seq<Number>, add_year: bool, year: u16) -> Seq<Number> {
    if add_year {
        seq![Number { value: year, num_type: NumberType::CurrentYear }] + entered
    } else {
        entered
    }
}

impl FormComponent {
    /// The settings and passwords of `self` and `other` agree.
    pub open spec fn same_settings(&self, other: &FormComponent) -> bool {
        &&& self.add_year == other.add_year
        &&& self.add_symbols == other.add_symbols
        &&& self.password_bits == other.password_bits
        &&& self.passwords == other.passwords
    }

    /// The facts of `self` and `other` agree.
    pub open spec fn same_facts(&self, other: &FormComponent) -> bool {
        &&& self.numeric_values@ == other.numeric_values@
        &&& self.string_values@ == other.string_values@
    }

    /// `msg` names only entries that exist.
    pub open spec fn accepts(&self, msg: &Msg) -> bool {
        match msg {
            Msg::RemoveNumericInput(i) => *i < self.numeric_values@.len(),
            Msg::UpdateNumericValueInput(i, _) => *i < self.numeric_values@.len(),
            Msg::UpdateNumericTypeInput(i, _) => *i < self.numeric_values@.len(),
            Msg::RemoveStringInput(i) => *i < self.string_values@.len(),
            Msg::UpdateStringInput(i, _) => *i < self.string_values@.len(),
            _ => true,
        }
    }

    /// `next` is the state of the form after `msg` in state `prev`, the current
    /// year being `year`.
    pub open spec fn update_post(prev: &FormComponent, next: &FormComponent, msg: &Msg, year: u16) -> bool {
        match msg {
            Msg::AddNumericInput => next.same_settings(prev) && next.string_values@
                == prev.string_values@ && next.numeric_values@ == prev.numeric_values@.push(
                Number { value: 0, num_type: NumberType::RelevantNumber },
            ),
            Msg::AddStringInput => next.same_settings(prev) && next.numeric_values@
                == prev.numeric_values@ && next.string_values@.len() == prev.string_values@.len() + 1
                && next.string_values@.take(prev.string_values@.len() as int) == prev.string_values@
                && next.string_values@.last()@ == Seq::<char>::empty(),
            Msg::RemoveNumericInput(i) => next.same_settings(prev) && next.string_values@
                == prev.string_values@ && next.numeric_values@ == prev.numeric_values@.remove(
                *i as int,
            ),
            Msg::RemoveStringInput(i) => next.same_settings(prev) && next.numeric_values@
                == prev.numeric_values@ && next.string_values@ == prev.string_values@.remove(
                *i as int,
            ),
            Msg::UpdateNumericValueInput(i, v) => next.same_settings(prev) && next.string_values@
                == prev.string_values@ && next.numeric_values@ == prev.numeric_values@.update(
                *i as int,
                Number { value: *v, num_type: prev.numeric_values@[*i as int].num_type },
            ),
            Msg::UpdateNumericTypeInput(i, t) => next.same_settings(prev) && next.string_values@
                == prev.string_values@ && next.numeric_values@ == prev.numeric_values@.update(
                *i as int,
                Number { value: prev.numeric_values@[*i as int].value, num_type: *t },
            ),
            Msg::UpdateStringInput(i, s) => next.same_settings(prev) && next.numeric_values@
                == prev.numeric_values@ && next.string_values@.len() == prev.string_values@.len()
                && (forall|j: int|
                0 <= j < prev.string_values@.len() && j != *i ==> #[trigger] next.string_values@[j]
                    == prev.string_values@[j]) && next.string_values@[*i as int]@ == s@,
            Msg::UpdatePasswordBits(n) => next.same_facts(prev) && next.add_year == prev.add_year
                && next.add_symbols == prev.add_symbols && next.passwords == prev.passwords
                && next.password_bits == *n,
            Msg::FlipAddYear => next.same_facts(prev) && next.add_year == !prev.add_year
                && next.add_symbols == prev.add_symbols && next.password_bits == prev.password_bits
                && next.passwords == prev.passwords,
            Msg::FlipAddSymbols => next.same_facts(prev) && next.add_year == prev.add_year
                && next.add_symbols == !prev.add_symbols && next.password_bits
                == prev.password_bits && next.passwords == prev.passwords,
            Msg::GeneratePasswords => next.same_facts(prev) && next.add_year == prev.add_year
                && next.add_symbols == prev.add_symbols && next.password_bits == prev.password_bits
                && next.passwords is Some && next.passwords->0@.len() == PASSWORD_CANDIDATES && (
            forall|k: int|
                0 <= k < PASSWORD_CANDIDATES ==> is_password_from(
                    pool_numbers(prev.numeric_values@, prev.add_year, year),
                    prev.string_values@,
                    prev.password_bits as nat,
                    prev.add_symbols,
                    (#[trigger] next.passwords->0@[k])@,
                )),
        }
    }

    /// An empty form: no facts, symbols on, passwords of eight bits.
    pub fn create() -> (r: Self)
        ensures
            r.numeric_values@.len() == 0,
            r.string_values@.len() == 0,
            !r.add_year,
            r.add_symbols,
            r.password_bits == 8,
            r.passwords is None,
    {
        Self {
            numeric_values: Vec::new(),
            string_values: Vec::new(),
            add_year: false,
            add_symbols: true,
            password_bits: 8,
            passwords: None,
        }
    }

    /// Applies what the user did to the form, the current year being `year`
    /// (used only when passwords are generated with the year added). Returns
    /// whether the form is to be drawn again, which it always is.
    pub fn update(&mut self, msg: Msg, year: u16) -> (r: bool)
        requires
            old(self).accepts(&msg),
        ensures
            r,
            Self::update_post(old(self), final(self), &msg, year),
    {
        match msg {
            Msg::AddNumericInput => {
                self.numeric_values.push(Number::default());
                assert(self.numeric_values@ =~= old(self).numeric_values@.push(
                    Number { value: 0, num_type: NumberType::RelevantNumber },
                ));
            },
            Msg::AddStringInput => {
                self.string_values.push(String::new());
                assert(self.string_values@.take(old(self).string_values@.len() as int)
                    =~= old(self).string_values@);
            },
            Msg::RemoveNumericInput(index) => {
                self.numeric_values.remove(index);
            },
            Msg::RemoveStringInput(index) => {
                self.string_values.remove(index);
            },
            Msg::UpdateNumericValueInput(index, value) => {
                let num_type = self.numeric_values[index].num_type;
                self.numeric_values.set(index, Number::new(value, num_type));
                assert(self.numeric_values@ =~= old(self).numeric_values@.update(
                    index as int,
                    Number { value, num_type },
                ));
            },
            Msg::UpdateNumericTypeInput(index, num_type) => {
                let value = self.numeric_values[index].value;
                self.numeric_values.set(index, Number::new(value, num_type));
                assert(self.numeric_values@ =~= old(self).numeric_values@.update(
                    index as int,
                    Number { value, num_type },
                ));
            },
            Msg::UpdateStringInput(index, value) => {
                self.string_values.set(index, value);
            },
            Msg::FlipAddYear => {
                self.add_year = !self.add_year;
            },
            Msg::FlipAddSymbols => {
                self.add_symbols = !self.add_symbols;
            },
            Msg::UpdatePasswordBits(bits) => {
                self.password_bits = bits;
            },
            Msg::GeneratePasswords => {
                self.passwords = Some(self.generate_passwords(year));
            },
        }
        true
    }

    /// Generates the candidate passwords from the facts and settings of the
    /// form, the current year being `year`.
    pub fn generate_passwords(&self, year: u16) -> (r: Vec<PasswordBits>)
        ensures
            r@.len() == PASSWORD_CANDIDATES,
            forall|k: int|
                0 <= k < PASSWORD_CANDIDATES ==> is_password_from(
                    pool_numbers(self.numeric_values@, self.add_year, year),
                    self.string_values@,
                    self.password_bits as nat,
                    self.add_symbols,
                    (#[trigger] r@[k])@,
                ),
    {
        let mut data = PasswordData::new(self.numeric_values.clone(), self.string_values.clone());
        assert(data.numbers_poll@ =~= self.numeric_values@);
        assert(data.text_poll@ =~= self.string_values@);
        if self.add_year {
            data.add_current_year(year);
        }
        let settings = GenerationSettings { length: self.password_bits, symbols: self.add_symbols };
        let mut passwords: Vec<PasswordBits> = Vec::new();
        let mut n: usize = 0;
        while n < PASSWORD_CANDIDATES
            invariant
                n <= PASSWORD_CANDIDATES,
                passwords@.len() == n,
                data.numbers_poll@ == pool_numbers(self.numeric_values@, self.add_year, year),
                data.text_poll@ == self.string_values@,
                settings.length == self.password_bits,
                settings.symbols == self.add_symbols,
                forall|k: int|
                    0 <= k < n ==> is_password_from(
                        pool_numbers(self.numeric_values@, self.add_year, year),
                        self.string_values@,
                        self.password_bits as nat,
                        self.add_symbols,
                        (#[trigger] passwords@[k])@,
                    ),
            decreases PASSWORD_CANDIDATES - n,
        {
            let password = data.generate_password(&settings);
            passwords.push(password);
            n = n + 1;
        }
        passwords
    }
}

} // verus!

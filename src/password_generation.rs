use vstd::prelude::*;

use crate::password_bits::{PasswordBit, is_number_bit, is_symbol_bit, is_text_bit};
use crate::password_data::{Number, NumberType, PasswordData, number_type_label};

verus! {

/// How a password is to be generated.
pub struct GenerationSettings {
    /// The number of bits (not characters) the password should have
    pub length: usize,
    /// Whether symbol bits may pad the password
    pub symbols: bool,
}

/// Where a bit of a password comes from.
pub ghost enum BitSource {
    /// The number at this index of the pool
    Number(nat),
    /// The text at this index of the pool
    Text(nat),
    /// A symbol
    Symbol,
}

/// The sources of round `i`: the `i`-th number and the `i`-th text where the
/// pool has them, then a symbol where symbols are allowed.
pub open spec fn round_sources(i: nat, numbers: nat, texts: nat, symbols: bool) -> Seq<BitSource> {
    (if i < numbers {
        seq![BitSource::Number(i)]
    } else {
        seq![]
    }) + (if i < texts {
        seq![BitSource::Text(i)]
    } else {
        seq![]
    }) + (if symbols {
        seq![BitSource::Symbol]
    } else {
        seq![]
    })
}

/// The sources of at most `remaining` bits, taken round by round from round
/// `i` on, until the rounds run dry.
pub open spec fn plan_from(
    i: nat,
    numbers: nat,
    texts: nat,
    symbols: bool,
    remaining: nat,
) -> Seq<BitSource>
    decreases remaining,
{
    let round = round_sources(i, numbers, texts, symbols);
    if remaining == 0 || round.len() == 0 {
        seq![]
    } else if remaining <= round.len() {
        round.take(remaining as int)
    } else {
        round + plan_from(i + 1, numbers, texts, symbols, (remaining - round.len()) as nat)
    }
}

/// The sources of the bits of a password generated from `data` with `settings`,
/// in order: numbers, texts and symbols in turn, skipping what has run out.
pub open spec fn password_plan(data: PasswordData, settings: GenerationSettings) -> Seq<
    BitSource,
> {
    plan_from(
        0,
        data.numbers_poll@.len(),
        data.text_poll@.len(),
        settings.symbols,
        settings.length as nat,
    )
}

/// `b` is a bit that `source` can give, for a pool of `numbers` and `texts`.
pub open spec fn bit_from_source(
    numbers: Seq<Number>,
    texts: Seq<String>,
    source: BitSource,
    b: PasswordBit,
) -> bool {
    match source {
        BitSource::Number(i) => i < numbers.len() && is_number_bit(numbers[i as int], b),
        BitSource::Text(i) => i < texts.len() && is_text_bit(texts[i as int]@, b),
        BitSource::Symbol => is_symbol_bit(b),
    }
}

/// `password` is one of the passwords of at most `length` bits, with or
/// without `symbols`, that a pool of `numbers` and `texts` can give.
pub open spec fn is_password_from(
    numbers: Seq<Number>,
    texts: Seq<String>,
    length: nat,
    symbols: bool,
    password: Seq<PasswordBit>,
) -> bool {
    let plan = plan_from(0, numbers.len(), texts.len(), symbols, length);
    &&& password.len() == plan.len()
    &&& forall|k: int|
        0 <= k < password.len() ==> bit_from_source(numbers, texts, plan[k], #[trigger] password[k])
}

/// `password` is one of the passwords that `data` and `settings` can give.
pub open spec fn is_password_for(
    data: PasswordData,
    settings: GenerationSettings,
    password: Seq<PasswordBit>,
) -> bool {
    is_password_from(
        data.numbers_poll@,
        data.text_poll@,
        settings.length as nat,
        settings.symbols,
        password,
    )
}

/// At most `remaining` sources are planned.
proof fn lemma_plan_length(i: nat, numbers: nat, texts: nat, symbols: bool, remaining: nat)
    ensures
        plan_from(i, numbers, texts, symbols, remaining).len() <= remaining,
    decreases remaining,
{
    let round = round_sources(i, numbers, texts, symbols);
    if remaining > 0 && round.len() > 0 && remaining > round.len() {
        lemma_plan_length(i + 1, numbers, texts, symbols, (remaining - round.len()) as nat);
    }
}

/// Without symbols, no symbol is planned.
proof fn lemma_plan_without_symbols(i: nat, numbers: nat, texts: nat, remaining: nat)
    ensures
        forall|k: int|
            0 <= k < plan_from(i, numbers, texts, false, remaining).len() ==> !(#[trigger] plan_from(
                i,
                numbers,
                texts,
                false,
                remaining,
            )[k] is Symbol),
    decreases remaining,
{
    let round = round_sources(i, numbers, texts, false);
    assert(forall|k: int| 0 <= k < round.len() ==> !(#[trigger] round[k] is Symbol));
    if remaining > 0 && round.len() > 0 && remaining > round.len() {
        lemma_plan_without_symbols(i + 1, numbers, texts, (remaining - round.len()) as nat);
        let rest = plan_from(i + 1, numbers, texts, false, (remaining - round.len()) as nat);
        assert forall|k: int| 0 <= k < (round + rest).len() implies !((round + rest)[k] is Symbol) by {
            if k >= round.len() {
                assert((round + rest)[k] == rest[k - round.len()]);
            }
        }
    }
}

/// The label of a bit depends on its source alone.
pub open spec fn source_label(data: PasswordData, source: BitSource) -> Seq<char> {
    match source {
        BitSource::Number(i) => number_type_label(data.numbers_poll@[i as int].num_type),
        BitSource::Text(i) => data.text_poll@[i as int]@,
        BitSource::Symbol => "Symbol"@,
    }
}

/// A password never has more bits than the settings ask for.
pub proof fn lemma_password_length(
    data: PasswordData,
    settings: GenerationSettings,
    password: Seq<PasswordBit>,
)
    requires
        is_password_for(data, settings, password),
    ensures
        password.len() <= settings.length,
{
    lemma_plan_length(
        0,
        data.numbers_poll@.len(),
        data.text_poll@.len(),
        settings.symbols,
        settings.length as nat,
    );
}

/// Without symbols, no bit of a password is labelled "Symbol", provided that no
/// text of the pool is itself the word "Symbol".
pub proof fn lemma_no_symbol_without_symbols(
    data: PasswordData,
    settings: GenerationSettings,
    password: Seq<PasswordBit>,
)
    requires
        is_password_for(data, settings, password),
        !settings.symbols,
        forall|j: int| 0 <= j < data.text_poll@.len() ==> #[trigger] data.text_poll@[j]@ != "Symbol"@,
    ensures
        forall|k: int| 0 <= k < password.len() ==> #[trigger] password[k].importance@ != "Symbol"@,
{
    let plan = password_plan(data, settings);
    lemma_plan_without_symbols(0, data.numbers_poll@.len(), data.text_poll@.len(), settings.length as nat);
    lemma_labels_are_not_symbol();
    assert forall|k: int| 0 <= k < password.len() implies #[trigger] password[k].importance@ != "Symbol"@ by {
        assert(bit_from_source(data.numbers_poll@, data.text_poll@, plan[k], password[k]));
        assert(!(plan[k] is Symbol));
    }
}

/// No kind of number is labelled "Symbol".
proof fn lemma_labels_are_not_symbol()
    ensures
        forall|t: NumberType| number_type_label(t) != "Symbol"@,
{
    reveal_strlit("Symbol");
    reveal_strlit("Birth Year");
    reveal_strlit("Birth Month");
    reveal_strlit("Birth Day");
    reveal_strlit("Current Year");
    reveal_strlit("Relevant Number");
    assert forall|t: NumberType| number_type_label(t) != "Symbol"@ by {
        assert(number_type_label(t).len() != "Symbol"@.len());
    }
}

/// Two passwords generated from one pool with the same settings may differ in
/// their characters, but each is within the requested length, and they have
/// the same number of bits with the same labels in the same order.
pub proof fn lemma_passwords_share_labels(
    data: PasswordData,
    settings: GenerationSettings,
    a: Seq<PasswordBit>,
    b: Seq<PasswordBit>,
)
    requires
        is_password_for(data, settings, a),
        is_password_for(data, settings, b),
    ensures
        a.len() == b.len(),
        a.len() <= settings.length,
        forall|k: int| 0 <= k < a.len() ==> #[trigger] a[k].importance@ == b[k].importance@,
{
    let plan = password_plan(data, settings);
    lemma_password_length(data, settings, a);
    assert forall|k: int| 0 <= k < a.len() implies #[trigger] a[k].importance@ == b[k].importance@ by {
        assert(bit_from_source(data.numbers_poll@, data.text_poll@, plan[k], a[k]));
        assert(bit_from_source(data.numbers_poll@, data.text_poll@, plan[k], b[k]));
        assert(a[k].importance@ == source_label(data, plan[k]));
        assert(b[k].importance@ == source_label(data, plan[k]));
    }
}

impl PasswordData {
    /// Generates a password of at most `settings.length` bits. Round after
    /// round it takes the next number, the next text, and a symbol if symbols
    /// are allowed, skipping what has run out, and stops at the requested
    /// length or when nothing is left to take.
    pub fn generate_password(&self, settings: &GenerationSettings) -> (r: Vec<PasswordBit>)
        ensures
            is_password_for(*self, *settings, r@),
            r@.len() <= settings.length,
            self.numbers_poll@.len() == 0 && self.text_poll@.len() == 0 && !settings.symbols
                ==> r@.len() == 0,
    {
        let numbers = self.numbers_poll.len();
        let texts = self.text_poll.len();
        let length = settings.length;
        let symbols = settings.symbols;
        let mut out: Vec<PasswordBit> = Vec::new();
        let ghost mut done: Seq<BitSource> = seq![];
        let mut i: usize = 0;
        while out.len() < length && (i < numbers || i < texts || symbols)
            invariant
                numbers == self.numbers_poll@.len(),
                texts == self.text_poll@.len(),
                length == settings.length,
                symbols == settings.symbols,
                i <= out@.len() <= length,
                done.len() == out@.len(),
                forall|k: int|
                    0 <= k < out@.len() ==> bit_from_source(self.numbers_poll@, self.text_poll@, done[k], #[trigger] out@[k]),
                password_plan(*self, *settings) == done + plan_from(
                    i as nat,
                    numbers as nat,
                    texts as nat,
                    symbols,
                    (length - out@.len()) as nat,
                ),
            decreases length - out@.len(),
        {
            let ghost before = out@.len();
            let ghost done_before = done;
            let ghost round = round_sources(i as nat, numbers as nat, texts as nat, symbols);
            let ghost remaining = (length - out@.len()) as nat;
            if i < numbers {
                let b = PasswordBit::number_bit(&self.numbers_poll[i]);
                out.push(b);
                proof {
                    done = done.push(BitSource::Number(i as nat));
                }
            }
            if i < texts && out.len() < length {
                let b = PasswordBit::string_bit(self.text_poll[i].as_str());
                out.push(b);
                proof {
                    done = done.push(BitSource::Text(i as nat));
                }
            }
            if symbols && out.len() < length {
                let b = PasswordBit::symbol_bit();
                out.push(b);
                proof {
                    done = done.push(BitSource::Symbol);
                }
            }
            proof {
                let taken = (out@.len() - before) as nat;
                assert(done =~= done_before + round.take(taken as int));
                if remaining <= round.len() {
                    assert(taken == remaining);
                    assert(plan_from(i as nat, numbers as nat, texts as nat, symbols, remaining)
                        == round.take(remaining as int));
                    assert(plan_from(i as nat + 1, numbers as nat, texts as nat, symbols, 0)
                        =~= seq![]);
                } else {
                    assert(taken == round.len());
                    assert(round.take(taken as int) =~= round);
                }
                assert(password_plan(*self, *settings) =~= done + plan_from(
                    i as nat + 1,
                    numbers as nat,
                    texts as nat,
                    symbols,
                    (length - out@.len()) as nat,
                ));
            }
            i = i + 1;
        }
        proof {
            assert(plan_from(i as nat, numbers as nat, texts as nat, symbols, (length - out@.len()) as nat) =~= seq![]);
            assert(password_plan(*self, *settings) =~= done);
        }
        out
    }
}

} // verus!

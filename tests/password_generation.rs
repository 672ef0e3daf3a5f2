use polybius::password_bits::PasswordBit;
use polybius::password_data::{Number, NumberType, PasswordData};
use polybius::password_generation::GenerationSettings;

const SYMBOLS: [&str; 14] = ["!", "@", "#", "$", "%", "^", "&", "*", "(", ")", "-", "_", "+", "="];

fn labels(p: &[PasswordBit]) -> Vec<String> {
    p.iter().map(|b| b.importance.clone()).collect()
}

fn sample_pool() -> PasswordData {
    PasswordData::new(
        vec![
            Number::new(14, NumberType::BirthDay),
            Number::new(1990, NumberType::BirthYear),
        ],
        vec!["Apples".to_string(), "Cats".to_string(), "Dogs".to_string()],
    )
}

#[test]
fn empty_pool_without_symbols_gives_nothing() {
    let data = PasswordData::default();
    let settings = GenerationSettings { length: 8, symbols: false };
    assert!(data.generate_password(&settings).is_empty());
}

#[test]
fn empty_pool_with_symbols_gives_only_symbols() {
    let data = PasswordData::default();
    let settings = GenerationSettings { length: 5, symbols: true };
    let p = data.generate_password(&settings);
    assert_eq!(p.len(), 5);
    for b in &p {
        assert_eq!(b.importance, "Symbol");
        assert!(SYMBOLS.contains(&b.bits.as_str()));
    }
}

#[test]
fn zero_length_gives_nothing() {
    let settings = GenerationSettings { length: 0, symbols: true };
    assert!(sample_pool().generate_password(&settings).is_empty());
}

#[test]
fn rounds_interleave_numbers_texts_and_symbols() {
    let settings = GenerationSettings { length: 8, symbols: true };
    let p = sample_pool().generate_password(&settings);
    assert_eq!(
        labels(&p),
        vec!["Birth Day", "Apples", "Symbol", "Birth Year", "Cats", "Symbol", "Dogs", "Symbol"]
    );
    assert_eq!(p[0].bits, "14");
    assert!(p[3].bits == "90" || p[3].bits == "1990");
    assert!(["A", "Ap", "App"].contains(&p[1].bits.as_str()));
}

#[test]
fn without_symbols_the_pool_runs_out() {
    let settings = GenerationSettings { length: 20, symbols: false };
    let p = sample_pool().generate_password(&settings);
    assert_eq!(labels(&p), vec!["Birth Day", "Apples", "Birth Year", "Cats", "Dogs"]);
    assert!(p.iter().all(|b| b.importance != "Symbol"));
}

#[test]
fn length_cuts_a_round_short() {
    let settings = GenerationSettings { length: 4, symbols: true };
    let p = sample_pool().generate_password(&settings);
    assert_eq!(labels(&p), vec!["Birth Day", "Apples", "Symbol", "Birth Year"]);
}

#[test]
fn repeated_generation_keeps_the_labels() {
    let data = sample_pool();
    let settings = GenerationSettings { length: 7, symbols: true };
    let first = data.generate_password(&settings);
    for _ in 0..10 {
        let again = data.generate_password(&settings);
        assert_eq!(labels(&again), labels(&first));
        assert!(again.len() <= settings.length);
    }
    assert_eq!(data.numbers_poll.len(), 2);
    assert_eq!(data.text_poll.len(), 3);
}

#[test]
fn add_current_year_goes_first() {
    let mut data = sample_pool();
    data.add_current_year(2024);
    assert_eq!(data.numbers_poll[0], Number::new(2024, NumberType::CurrentYear));
    assert_eq!(data.numbers_poll.len(), 3);
    let settings = GenerationSettings { length: 1, symbols: false };
    let p = data.generate_password(&settings);
    assert_eq!(p[0].importance, "Current Year");
    assert!(p[0].bits == "24" || p[0].bits == "2024");
}

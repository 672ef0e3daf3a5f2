use polybius::password_bits::PasswordBit;
use polybius::password_data::{Number, NumberType};

#[test]
fn test_new_password_bit() {
    let password_bit = PasswordBit::new("ab".to_string(), "abc".to_string());
    assert_eq!(password_bit.bits, "ab");
    assert_eq!(password_bit.importance, "abc");
}

#[test]
fn test_number_bit() {
    let number_1 = Number {
        value: 123,
        num_type: NumberType::BirthDay,
    };
    let number_2 = Number {
        value: 456,
        num_type: NumberType::BirthMonth,
    };
    let number_3 = Number {
        value: 1999,
        num_type: NumberType::BirthYear,
    };
    let number_4 = Number {
        value: 2024,
        num_type: NumberType::CurrentYear,
    };
    let number_5 = Number {
        value: 12345,
        num_type: NumberType::RelevantNumber,
    };

    let password_bit_1 = PasswordBit::number_bit(&number_1);
    let password_bit_2 = PasswordBit::number_bit(&number_2);
    let password_bit_3 = PasswordBit::number_bit(&number_3);
    let password_bit_4 = PasswordBit::number_bit(&number_4);
    let password_bit_5 = PasswordBit::number_bit(&number_5);

    assert_eq!(
        password_bit_1.bits, "23",
        "Expected: 23, got: {}",
        password_bit_1.bits
    );
    assert_eq!(
        password_bit_1.importance, "Birth Day",
        "Expected: Birth Day, got: {}",
        password_bit_1.importance
    );

    assert_eq!(
        password_bit_2.bits, "56",
        "Expected: 56, got: {}",
        password_bit_2.bits
    );
    assert_eq!(
        password_bit_2.importance, "Birth Month",
        "Expected: Birth Month, got: {}",
        password_bit_2.importance
    );

    assert!(
        password_bit_3.bits == "99" || password_bit_3.bits == "1999",
        "Expected: 99 or 1999, got: {}",
        password_bit_3.bits
    );
    assert_eq!(
        password_bit_3.importance, "Birth Year",
        "Expected: Birth Year, got: {}",
        password_bit_3.importance
    );

    assert!(
        password_bit_4.bits == "24" || password_bit_4.bits == "2024",
        "Expected: 24 or 2024, got: {}",
        password_bit_4.bits
    );
    assert_eq!(
        password_bit_4.importance, "Current Year",
        "Expected: Current Year, got: {}",
        password_bit_4.importance
    );

    assert_eq!(
        password_bit_5.bits, "12345",
        "Expected: 12345, got: {}",
        password_bit_5.bits
    );
    assert_eq!(
        password_bit_5.importance, "Relevant Number",
        "Expected: Relevant Number, got: {}",
        password_bit_5.importance
    );
}

#[test]
fn test_truncate_number() {
    assert_eq!(PasswordBit::truncate_number(&0), "00");
    assert_eq!(PasswordBit::truncate_number(&1), "01");
    assert_eq!(PasswordBit::truncate_number(&9), "09");
    assert_eq!(PasswordBit::truncate_number(&10), "10");
    assert_eq!(PasswordBit::truncate_number(&99), "99");
    assert_eq!(PasswordBit::truncate_number(&100), "00");
    assert_eq!(PasswordBit::truncate_number(&2000), "00");
}

#[test]
fn test_string_bit() {
    let password_bit = PasswordBit::string_bit("hello");
    assert!(
        password_bit.bits.len() >= 1 && password_bit.bits.len() <= 3,
        "Expected password bits to be between 1 and 3 characters, got: {}",
        password_bit.bits
    );
    assert!(
        "hello".starts_with(&password_bit.bits),
        "Expected passwords bits to be h/he/hel, got: {}",
        password_bit.bits
    );
    assert_eq!(password_bit.importance, "hello");
}

#[test]
fn test_symbol_bit() {
    let password_bit = PasswordBit::symbol_bit();
    let symbols = vec![
        "!", "@", "#", "$", "%", "^", "&", "*", "(", ")", "-", "_", "+", "=",
    ];
    assert!(symbols.contains(&password_bit.bits.as_str()));
    assert_eq!(password_bit.importance, "Symbol");
}

#[test]
fn number_bit_with_width_picks_year_digits() {
    let year = Number::new(1999, NumberType::BirthYear);
    assert_eq!(PasswordBit::number_bit_with_width(&year, true).bits, "1999");
    assert_eq!(PasswordBit::number_bit_with_width(&year, false).bits, "99");
    let current = Number::new(2024, NumberType::CurrentYear);
    assert_eq!(PasswordBit::number_bit_with_width(&current, true).bits, "2024");
    assert_eq!(PasswordBit::number_bit_with_width(&current, false).bits, "24");
    let day = Number::new(7, NumberType::BirthDay);
    assert_eq!(PasswordBit::number_bit_with_width(&day, true).bits, "07");
    let relevant = Number::new(5, NumberType::RelevantNumber);
    assert_eq!(PasswordBit::number_bit_with_width(&relevant, false).bits, "5");
    assert_eq!(PasswordBit::number_bit_with_width(&relevant, false).importance, "Relevant Number");
}

#[test]
fn number_to_bit_keeps_or_truncates() {
    assert_eq!(PasswordBit::number_to_bit(&0, &NumberType::RelevantNumber, true), "0");
    assert_eq!(PasswordBit::number_to_bit(&65535, &NumberType::RelevantNumber, false), "65535");
    assert_eq!(PasswordBit::number_to_bit(&65535, &NumberType::BirthMonth, true), "35");
    assert_eq!(PasswordBit::number_to_bit(&2000, &NumberType::CurrentYear, false), "00");
}

#[test]
fn truncate_number_is_two_chars() {
    for value in [0u16, 5, 42, 100, 105, 1999, 65535] {
        let s = PasswordBit::truncate_number(&value);
        assert_eq!(s.chars().count(), 2);
        assert_eq!(s, format!("{:02}", value % 100));
    }
}

#[test]
fn string_bit_with_length_takes_a_prefix() {
    let b = PasswordBit::string_bit_with_length("hello", 2);
    assert_eq!(b.bits, "he");
    assert_eq!(b.importance, "hello");
    assert_eq!(PasswordBit::string_bit_with_length("hello", 3).bits, "hel");
    assert_eq!(PasswordBit::string_bit_with_length("hi", 3).bits, "hi");
    assert_eq!(PasswordBit::string_bit_with_length("", 1).bits, "");
    assert_eq!(PasswordBit::string_bit_with_length("ñandú", 2).bits, "ña");
}

#[test]
fn string_bit_on_short_and_empty_text() {
    for _ in 0..20 {
        assert_eq!(PasswordBit::string_bit("a").bits, "a");
        let empty = PasswordBit::string_bit("");
        assert_eq!(empty.bits, "");
        assert_eq!(empty.importance, "");
        let accented = PasswordBit::string_bit("ééé");
        assert!(["é", "éé", "ééé"].contains(&accented.bits.as_str()));
    }
}

#[test]
fn symbol_bit_at_each_index() {
    let expected = ["!", "@", "#", "$", "%", "^", "&", "*", "(", ")", "-", "_", "+", "="];
    for (i, s) in expected.iter().enumerate() {
        let b = PasswordBit::symbol_bit_at(i);
        assert_eq!(b.bits, *s);
        assert_eq!(b.importance, "Symbol");
    }
}

#[test]
fn decimal_string_of_values() {
    assert_eq!(polybius::password_bits::decimal_string(0), "0");
    assert_eq!(polybius::password_bits::decimal_string(9), "9");
    assert_eq!(polybius::password_bits::decimal_string(10), "10");
    assert_eq!(polybius::password_bits::decimal_string(12345), "12345");
    assert_eq!(polybius::password_bits::decimal_string(65535), "65535");
}

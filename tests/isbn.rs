use isbn_gen::digits::{format_padded, is_digit_string, parse_count};
use isbn_gen::isbn::Isbn;

fn s(x: &str) -> String {
    String::from(x)
}

#[test]
fn test_generate_pubalication_code() {
    let country_code_7 = String::from("4");
    let publisher_code_7 = String::from("1");
    let publication_code7: String = Isbn::generate_publication_code(&country_code_7, &publisher_code_7);
    assert!(publication_code7.to_string().len() == 7);

    let country_code_6 = String::from("4");
    let publisher_code_6 = String::from("12");
    let publication_code6 = Isbn::generate_publication_code(&country_code_6, &publisher_code_6);
    assert!(publication_code6.len() == 6);

    let country_code_5 = String::from("4");
    let publisher_code_5 = String::from("123");
    let publication_code5 = Isbn::generate_publication_code(&country_code_5, &publisher_code_5);
    assert!(publication_code5.len() == 5);

    let country_code_4 = String::from("4");
    let publisher_code_4 = String::from("1234");
    let publication_code4 = Isbn::generate_publication_code(&country_code_4, &publisher_code_4);
    assert!(publication_code4.len() == 4);
}

#[test]
fn test_calc_check_digit_10() {
    let country_code = String::from("4");
    let publisher_code = String::from("10");
    let publication_code = String::from("109205");

    let check_digit_10: String = Isbn::calc_check_digit_10(&country_code, &publisher_code, &publication_code);
    assert_eq!(check_digit_10, String::from("2"));
}

#[test]
fn test_calc_check_digit_13() {
    let head_code = String::from("978");
    let country_code = String::from("4");
    let publisher_code = String::from("7981");
    let publication_code = String::from("7154");
    let expected = String::from("8");

    let check_digit_13: String = Isbn::calc_check_digit_13(&head_code, &country_code, &publisher_code, &publication_code);
    assert_eq!(check_digit_13, expected);
}

#[test]
fn test_create_isbn_10() {
    let isbn = Isbn::new(String::from("978"), String::from("4"), String::from("10"));
    assert!(isbn.create_isbn_10().len() == 10);
}

#[test]
fn test_create_isbn_13() {
    let isbn = Isbn::new(String::from("978"), String::from("4"), String::from("10"));
    assert!(isbn.create_isbn_13().len() == 13);
}

#[test]
fn check_digit_10_can_be_x() {
    assert_eq!(Isbn::calc_check_digit_10(&s("0"), &s("8044"), &s("2957")), s("X"));
}

#[test]
fn check_digit_10_can_be_zero() {
    assert_eq!(Isbn::calc_check_digit_10(&s("0"), &s("00"), &s("000000")), s("0"));
    assert_eq!(Isbn::calc_check_digit_10(&s("4"), &s("10"), &s("109206")), s("0"));
}

#[test]
fn check_digit_13_can_be_zero() {
    assert_eq!(Isbn::calc_check_digit_13(&s("000"), &s("0"), &s("00"), &s("000000")), s("0"));
    assert_eq!(Isbn::calc_check_digit_13(&s("978"), &s("4"), &s("10"), &s("109205")), s("8"));
}

#[test]
fn check_digits_are_repeatable() {
    let a = Isbn::calc_check_digit_10(&s("4"), &s("10"), &s("109205"));
    let _ = Isbn::generate_publication_code(&s("4"), &s("10"));
    let b = Isbn::calc_check_digit_10(&s("41"), &s("0"), &s("109205"));
    assert_eq!(a, b);
    let c = Isbn::calc_check_digit_13(&s("978"), &s("4"), &s("7981"), &s("7154"));
    let _ = Isbn::generate_publication_code(&s("4"), &s("7981"));
    let d = Isbn::calc_check_digit_13(&s("978"), &s("4"), &s("7981"), &s("7154"));
    assert_eq!(c, d);
}

#[test]
fn publication_code_width_one_at_the_boundary() {
    for _ in 0..20 {
        let code = Isbn::generate_publication_code(&s("4"), &s("1234567"));
        assert_eq!(code.len(), 1);
        assert!(is_digit_string(&code));
    }
    assert_eq!(Isbn::publication_code_from_draw(&s("4"), &s("1234567"), 9), s("9"));
}

#[test]
fn publication_code_is_zero_padded() {
    assert_eq!(Isbn::publication_code_from_draw(&s("4"), &s("1"), 0), s("0000000"));
    assert_eq!(Isbn::publication_code_from_draw(&s("4"), &s("1"), 42), s("0000042"));
    assert_eq!(Isbn::publication_code_from_draw(&s("4"), &s("10"), 109205), s("109205"));
    assert_eq!(format_padded(1234, 2), s("34"));
    assert_eq!(format_padded(7, 0), s(""));
}

#[test]
fn generated_publication_codes_vary() {
    let mut all_zero = true;
    for _ in 0..50 {
        let code = Isbn::generate_publication_code(&s("4"), &s("1"));
        assert_eq!(code.len(), 7);
        assert!(is_digit_string(&code));
        if code != s("0000000") {
            all_zero = false;
        }
    }
    assert!(!all_zero);
}

#[test]
fn from_parts_assembles_both_forms() {
    let isbn = Isbn::from_parts(s("978"), s("4"), s("10"), s("109205"));
    assert_eq!(isbn.create_isbn_10(), s("4101092052"));
    assert_eq!(isbn.create_isbn_13(), s("9784101092058"));
    let isbn = Isbn::from_parts(s("978"), s("4"), s("7981"), s("7154"));
    assert_eq!(isbn.create_isbn_13(), s("9784798171548"));
}

#[test]
fn generated_identifier_round_trips() {
    for _ in 0..20 {
        let isbn = Isbn::new(s("978"), s("4"), s("7981"));
        let i10 = isbn.create_isbn_10();
        let i13 = isbn.create_isbn_13();
        assert_eq!(i10.len(), 10);
        assert_eq!(i13.len(), 13);
        assert!(i13.starts_with("9784798"));
        let check10 = Isbn::calc_check_digit_10(&s(&i10[0..1]), &s(&i10[1..5]), &s(&i10[5..9]));
        assert_eq!(check10, s(&i10[9..10]));
        let check13 = Isbn::calc_check_digit_13(&s(&i13[0..3]), &s(&i13[3..4]), &s(&i13[4..8]), &s(&i13[8..12]));
        assert_eq!(check13, s(&i13[12..13]));
    }
}

#[test]
fn try_new_rejects_invalid_parts() {
    assert!(Isbn::try_new(s("978"), s("4"), s("10")).is_some());
    assert!(Isbn::try_new(s("978"), s("4"), s("1234567")).is_some());
    assert!(Isbn::try_new(s("978"), s("4"), s("12345678")).is_none());
    assert!(Isbn::try_new(s("978"), s("4"), s("1a")).is_none());
    assert!(Isbn::try_new(s("97"), s("4"), s("10")).is_none());
    assert!(Isbn::try_new(s("978"), s("x"), s("10")).is_none());
    assert!(Isbn::try_new(s("9780"), s("4"), s("10")).is_none());
    assert!(Isbn::try_new(s("978"), s(""), s("10")).is_none());
    assert!(Isbn::try_new(s("978"), s("4"), s("")).is_none());
}

#[test]
fn digit_string_check() {
    assert!(is_digit_string(&s("0123456789")));
    assert!(is_digit_string(&s("")));
    assert!(!is_digit_string(&s("12-3")));
    assert!(!is_digit_string(&s("X")));
}

#[test]
fn count_parsing() {
    assert_eq!(parse_count(&s("0")), Some(0));
    assert_eq!(parse_count(&s("0042")), Some(42));
    assert_eq!(parse_count(&s("18446744073709551615")), Some(u64::MAX));
    assert_eq!(parse_count(&s("18446744073709551616")), None);
    assert_eq!(parse_count(&s("")), None);
    assert_eq!(parse_count(&s("12a")), None);
    assert_eq!(parse_count(&s("-1")), None);
}

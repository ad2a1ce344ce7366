use workout_guide::clock::{round_to_seconds, truncate_to_seconds, AudioTime, Instant};
use workout_guide::decimal::Decimal;
use workout_guide::field::{
    render_count, render_measure, valid_reps, valid_rpe, valid_time, valid_weight, InputField,
};
use workout_guide::text::{parse_i64, parse_u32, render_i64, render_u32, render_u64};

#[test]
fn numbers_are_written_without_leading_zeros() {
    assert_eq!(render_u32(0), "0");
    assert_eq!(render_u32(7), "7");
    assert_eq!(render_u32(120), "120");
    assert_eq!(render_u32(u32::MAX), "4294967295");
    assert_eq!(render_u64(u64::MAX), "18446744073709551615");
    assert_eq!(render_i64(-5), "-5");
    assert_eq!(render_i64(0), "0");
    assert_eq!(render_i64(i64::MIN), "-9223372036854775808");
    assert_eq!(render_i64(i64::MAX), "9223372036854775807");
}

#[test]
fn unsigned_texts_are_read_like_the_standard_library_reads_them() {
    for text in ["0", "12", "+7", "007", "4294967295", "4294967296", "", "+", "-1", " 1", "1 ", "1.0", "abc", "١"] {
        assert_eq!(parse_u32(text), text.parse::<u32>().ok(), "for {:?}", text);
    }
    assert_eq!(parse_u32("12"), Some(12));
    assert_eq!(parse_u32(""), None);
    assert_eq!(parse_u32("99999999999999999999999999"), None);
}

#[test]
fn signed_texts_are_read_like_the_standard_library_reads_them() {
    for text in [
        "0", "-0", "+0", "60", "-60", "+60", "", "-", "+", "--1", "+-1",
        "9223372036854775807", "9223372036854775808", "-9223372036854775808",
        "-9223372036854775809", "1e3", "12a",
    ] {
        assert_eq!(parse_i64(text), text.parse::<i64>().ok(), "for {:?}", text);
    }
    assert_eq!(parse_i64("-60"), Some(-60));
}

#[test]
fn writing_and_reading_a_number_gives_the_number() {
    for n in [0u32, 1, 9, 10, 99, 100, 999, 1000, 65_535, u32::MAX] {
        assert_eq!(parse_u32(&render_u32(n)), Some(n));
    }
    for n in [i64::MIN, -1000, -1, 0, 1, 59, 60, i64::MAX] {
        assert_eq!(parse_i64(&render_i64(n)), Some(n));
    }
}

#[test]
fn decimals_are_written_with_at_most_one_digit_after_the_point() {
    assert_eq!(Decimal::from_tenths(725).render(), "72.5");
    assert_eq!(Decimal::from_tenths(50).render(), "5");
    assert_eq!(Decimal::from_tenths(5).render(), "0.5");
    assert_eq!(Decimal::from_tenths(0).render(), "0");
    assert_eq!(Decimal::from_tenths(1000).render(), "100");
    assert_eq!(Decimal::from_tenths(u32::MAX).render(), "429496729.5");
}

#[test]
fn decimals_are_read_from_digits_with_an_optional_fraction() {
    assert_eq!(Decimal::parse("72.5"), Some(Decimal { tenths: 725 }));
    assert_eq!(Decimal::parse("5"), Some(Decimal { tenths: 50 }));
    assert_eq!(Decimal::parse("+5"), Some(Decimal { tenths: 50 }));
    assert_eq!(Decimal::parse("5.50"), Some(Decimal { tenths: 55 }));
    assert_eq!(Decimal::parse("5.000"), Some(Decimal { tenths: 50 }));
    assert_eq!(Decimal::parse("0.5"), Some(Decimal { tenths: 5 }));
    assert_eq!(Decimal::parse("007.5"), Some(Decimal { tenths: 75 }));
    assert_eq!(Decimal::parse("429496729.5"), Some(Decimal { tenths: u32::MAX }));
    assert_eq!(Decimal::parse("429496729.6"), None);
    assert_eq!(Decimal::parse("4294967296"), None);
    assert_eq!(Decimal::parse("5.55"), None);
    assert_eq!(Decimal::parse("5.05"), None);
    assert_eq!(Decimal::parse(".5"), None);
    assert_eq!(Decimal::parse("5."), None);
    assert_eq!(Decimal::parse("5..5"), None);
    assert_eq!(Decimal::parse("5.5.5"), None);
    assert_eq!(Decimal::parse("-5"), None);
    assert_eq!(Decimal::parse("1e1"), None);
    assert_eq!(Decimal::parse(""), None);
    assert_eq!(Decimal::parse("+"), None);
    assert_eq!(Decimal::parse("kg"), None);
}

#[test]
fn writing_and_reading_a_decimal_gives_the_decimal() {
    for tenths in [0u32, 1, 5, 9, 10, 11, 99, 100, 725, 9999, 10_000, u32::MAX] {
        let decimal = Decimal::from_tenths(tenths);
        assert_eq!(Decimal::parse(&decimal.render()), Some(decimal));
    }
}

#[test]
fn decimal_texts_agree_with_floats_on_values_with_one_digit() {
    for tenths in [0u32, 5, 50, 55, 725, 1000, 9995] {
        let float = tenths as f32 / 10.0;
        assert_eq!(Decimal::from_tenths(tenths).render(), float.to_string());
    }
}

#[test]
fn domains_of_the_four_kinds_of_field() {
    assert!(!valid_reps(0));
    assert!(valid_reps(1));
    assert!(valid_reps(999));
    assert!(!valid_reps(1000));
    assert!(!valid_time(0));
    assert!(valid_time(30));
    assert!(!valid_time(1000));
    assert!(valid_weight(Decimal { tenths: 0 }));
    assert!(valid_weight(Decimal { tenths: 9999 }));
    assert!(!valid_weight(Decimal { tenths: 10_000 }));
    assert!(valid_rpe(Decimal { tenths: 0 }));
    assert!(valid_rpe(Decimal { tenths: 85 }));
    assert!(valid_rpe(Decimal { tenths: 100 }));
    assert!(!valid_rpe(Decimal { tenths: 84 }));
    assert!(!valid_rpe(Decimal { tenths: 105 }));
}

#[test]
fn empty_input_is_valid_and_holds_no_value() {
    let reps = InputField::<u32>::reps_from_input(String::new());
    assert!(reps.valid);
    assert_eq!(reps.parsed, None);
    assert!(reps.changed);
    assert_eq!(reps.input, "");
    let time = InputField::<u32>::time_from_input(String::new());
    assert!(time.valid && time.parsed.is_none());
    let weight = InputField::<Decimal>::weight_from_input(String::new());
    assert!(weight.valid && weight.parsed.is_none());
    let rpe = InputField::<Decimal>::rpe_from_input(String::new());
    assert!(rpe.valid && rpe.parsed.is_none());
}

#[test]
fn input_is_kept_even_when_it_is_not_acceptable() {
    let field = InputField::<u32>::reps_from_input(String::from("12x"));
    assert_eq!(field.input, "12x");
    assert!(!field.valid);
    assert_eq!(field.parsed, None);
    assert!(field.changed);

    let zero = InputField::<u32>::reps_from_input(String::from("0"));
    assert_eq!(zero.input, "0");
    assert!(!zero.valid);
    assert_eq!(zero.parsed, None);

    let huge = InputField::<u32>::time_from_input(String::from("1000"));
    assert!(!huge.valid);
    assert_eq!(huge.parsed, None);

    let odd = InputField::<Decimal>::rpe_from_input(String::from("8.4"));
    assert_eq!(odd.input, "8.4");
    assert!(!odd.valid);
    assert_eq!(odd.parsed, None);

    let heavy = InputField::<Decimal>::weight_from_input(String::from("1000"));
    assert!(!heavy.valid);
    assert_eq!(heavy.parsed, None);
}

#[test]
fn acceptable_input_is_read() {
    let reps = InputField::<u32>::reps_from_input(String::from("12"));
    assert!(reps.valid && reps.changed);
    assert_eq!(reps.parsed, Some(12));
    let time = InputField::<u32>::time_from_input(String::from("999"));
    assert_eq!(time.parsed, Some(999));
    let weight = InputField::<Decimal>::weight_from_input(String::from("72.5"));
    assert!(weight.valid);
    assert_eq!(weight.parsed, Some(Decimal { tenths: 725 }));
    let rpe = InputField::<Decimal>::rpe_from_input(String::from("8.5"));
    assert!(rpe.valid);
    assert_eq!(rpe.parsed, Some(Decimal { tenths: 85 }));
}

#[test]
fn set_from_input_follows_what_the_text_was_read_as() {
    let read = InputField::<u8>::set_from_input(String::from("7"), Some(7), true);
    assert!(read.valid && read.changed);
    assert_eq!(read.parsed, Some(7));
    let outside = InputField::<u8>::set_from_input(String::from("9"), Some(9), false);
    assert!(!outside.valid);
    assert_eq!(outside.parsed, None);
    assert_eq!(outside.input, "9");
    let unreadable = InputField::<u8>::set_from_input(String::from("x"), None, false);
    assert!(!unreadable.valid);
    let empty = InputField::<u8>::set_from_input(String::new(), None, false);
    assert!(empty.valid);
    assert_eq!(empty.parsed, None);
}

#[test]
fn the_default_field_is_blank_and_untouched() {
    let field = InputField::<u32>::default();
    assert_eq!(field.input, "");
    assert!(field.valid);
    assert_eq!(field.parsed, None);
    assert!(!field.changed);
}

#[test]
fn copy_from_fills_in_the_text_of_the_value() {
    let mut field = InputField::<u32>::stored(Some(5));
    assert_eq!(field.input, "5");
    assert!(!field.changed);
    field.copy_from(Some(5));
    assert_eq!(field.input, "5");
    assert_eq!(field.parsed, Some(5));
    assert!(field.valid);
    assert!(!field.changed);
    field.copy_from(Some(8));
    assert_eq!(field.input, "8");
    assert_eq!(field.parsed, Some(8));
    assert!(field.changed);
    field.copy_from(Some(8));
    assert!(field.changed);
    field.copy_from(None);
    assert_eq!(field.input, "");
    assert_eq!(field.parsed, None);
    assert!(field.valid && field.changed);

    let mut weight = InputField::<Decimal>::stored(None);
    assert_eq!(weight.input, "");
    weight.copy_from(None);
    assert!(!weight.changed);
    weight.copy_from(Some(Decimal { tenths: 725 }));
    assert_eq!(weight.input, "72.5");
    assert_eq!(weight.parsed, Some(Decimal { tenths: 725 }));
    assert!(weight.changed);
}

#[test]
fn copy_from_makes_an_invalid_field_valid() {
    let mut field = InputField::<u32>::reps_from_input(String::from("x"));
    assert!(!field.valid);
    field.copy_from(Some(3));
    assert!(field.valid);
    assert_eq!(field.input, "3");
}

#[test]
fn copying_the_value_read_writes_its_canonical_text() {
    for text in ["5", "05", "+5", "005"] {
        let mut field = InputField::<u32>::reps_from_input(String::from(text));
        assert_eq!(field.parsed, Some(5));
        let read = field.parsed;
        field.copy_from(read);
        assert_eq!(field.input, "5");
        let again = InputField::<u32>::reps_from_input(field.input.clone());
        assert_eq!(again.parsed, Some(5));
    }
    for text in ["72.5", "72.50", "+72.5", "072.500"] {
        let mut field = InputField::<Decimal>::weight_from_input(String::from(text));
        assert_eq!(field.parsed, Some(Decimal { tenths: 725 }));
        let read = field.parsed;
        field.copy_from(read);
        assert_eq!(field.input, "72.5");
        let again = InputField::<Decimal>::weight_from_input(field.input.clone());
        assert_eq!(again.parsed, Some(Decimal { tenths: 725 }));
    }
}

#[test]
fn optional_values_are_written_as_empty_text_when_absent() {
    assert_eq!(render_count(None), "");
    assert_eq!(render_count(Some(12)), "12");
    assert_eq!(render_measure(None), "");
    assert_eq!(render_measure(Some(Decimal { tenths: 85 })), "8.5");
}

#[test]
fn spans_are_rounded_half_away_from_zero() {
    assert_eq!(round_to_seconds(0), 0);
    assert_eq!(round_to_seconds(499), 0);
    assert_eq!(round_to_seconds(500), 1);
    assert_eq!(round_to_seconds(1499), 1);
    assert_eq!(round_to_seconds(1500), 2);
    assert_eq!(round_to_seconds(-499), 0);
    assert_eq!(round_to_seconds(-500), -1);
    assert_eq!(round_to_seconds(-1500), -2);
    assert_eq!(round_to_seconds(i64::MAX), 9_223_372_036_854_776);
    assert_eq!(round_to_seconds(i64::MIN), -9_223_372_036_854_776);
    for millis in [-2501i64, -2500, -1, 0, 1, 2499, 2500, 123_456] {
        assert_eq!(round_to_seconds(millis), (millis as f64 / 1000.0).round() as i64);
    }
}

#[test]
fn spans_are_cut_down_towards_zero() {
    assert_eq!(truncate_to_seconds(5999), 5);
    assert_eq!(truncate_to_seconds(6000), 6);
    assert_eq!(truncate_to_seconds(-5999), -5);
    assert_eq!(truncate_to_seconds(-1), 0);
    assert_eq!(truncate_to_seconds(i64::MIN), -9_223_372_036_854_775);
}

#[test]
fn arithmetic_on_instants_stops_at_the_ends_of_the_range() {
    let now = Instant::from_millis(1_000);
    assert_eq!(now.add_millis(500), Instant { millis: 1_500 });
    assert_eq!(now.sub_millis(1_500), Instant { millis: -500 });
    assert_eq!(now.add_seconds(5), Instant { millis: 6_000 });
    assert_eq!(now.add_seconds(-2), Instant { millis: -1_000 });
    assert_eq!(now.add_seconds(i64::MAX), Instant { millis: i64::MAX });
    assert_eq!(now.add_seconds(i64::MIN), Instant { millis: i64::MIN });
    assert_eq!(Instant::from_millis(i64::MAX).add_millis(1), Instant { millis: i64::MAX });
    assert_eq!(Instant::from_millis(i64::MIN).sub_millis(1), Instant { millis: i64::MIN });
    assert_eq!(now.millis_since(Instant::from_millis(400)), 600);
    assert_eq!(Instant::from_millis(i64::MAX).millis_since(Instant::from_millis(-1)), i64::MAX);
    assert_eq!(Instant::from_millis(i64::MIN).millis_since(Instant::from_millis(1)), i64::MIN);
    let audio = AudioTime::from_micros(10);
    assert_eq!(audio.add_micros(5), AudioTime { micros: 15 });
    assert_eq!(AudioTime::from_micros(u64::MAX).add_micros(5), AudioTime { micros: u64::MAX });
}

use hideme::cli::{
    channels_of, log_level_from_number, parse_color_fields, parse_log_level, resolve_color,
    split_on_commas, Color, ColorFields, LevelChoice, LogLevel,
};

fn level(arg: &str) -> LogLevel {
    parse_log_level(arg).level
}

fn read_channel(text: &str) -> Option<f64> {
    text.parse::<f64>().ok()
}

fn read_channels(fields: Option<ColorFields>) -> Option<Color<Option<f64>>> {
    fields.map(|f| Color {
        red: read_channel(&f.red),
        green: read_channel(&f.green),
        blue: read_channel(&f.blue),
        alpha: read_channel(&f.alpha),
    })
}

fn color_of(arg: &str) -> (Color<f64>, bool) {
    resolve_color(read_channels(parse_color_fields(arg)), 0.0, 1.0)
}

#[test]
fn levels_zero_to_three() {
    assert_eq!(parse_log_level("0"), LevelChoice { level: LogLevel::Error, out_of_range: false });
    assert_eq!(parse_log_level("1"), LevelChoice { level: LogLevel::Warn, out_of_range: false });
    assert_eq!(parse_log_level("2"), LevelChoice { level: LogLevel::Info, out_of_range: false });
    assert_eq!(parse_log_level("3"), LevelChoice { level: LogLevel::Debug, out_of_range: false });
}

#[test]
fn level_outside_range_is_error_and_flagged() {
    for arg in [
        "4",
        "-1",
        "10",
        "+7",
        "-003",
        "0004",
        "2147483647",
        "-2147483648",
        "2147483648",
        "-2147483649",
        "99999999999",
        "340282366920938463463374607431768211456",
        "-99999999999999999999999999999999999999999999999999",
        "+00000000000000000000000000000000000000000000000010",
    ] {
        assert_eq!(
            parse_log_level(arg),
            LevelChoice { level: LogLevel::Error, out_of_range: true },
            "{}",
            arg
        );
    }
}

#[test]
fn level_of_text_that_is_no_number_is_error_without_flag() {
    for arg in [
        "", "abc", "1.5", "2.5", " 1", "1 ", "+", "-", "--1", "+-1", "0x1", "1_0", "1e3",
        "99999999999x", "9999999999999999999999999 ", "\u{0663}", "\u{ff11}",
    ] {
        assert_eq!(
            parse_log_level(arg),
            LevelChoice { level: LogLevel::Error, out_of_range: false },
            "{:?}",
            arg
        );
    }
}

#[test]
fn level_accepts_sign_and_leading_zeros() {
    assert_eq!(level("+2"), LogLevel::Info);
    assert_eq!(level("003"), LogLevel::Debug);
    assert_eq!(level("-0"), LogLevel::Error);
    assert!(!parse_log_level("-0").out_of_range);
    assert_eq!(level("00000000000000000000000000000001"), LogLevel::Warn);
}

#[test]
fn level_from_number_matches_table() {
    assert_eq!(log_level_from_number(0).level, LogLevel::Error);
    assert_eq!(log_level_from_number(1).level, LogLevel::Warn);
    assert_eq!(log_level_from_number(2).level, LogLevel::Info);
    assert_eq!(log_level_from_number(3).level, LogLevel::Debug);
    assert!(log_level_from_number(4).out_of_range);
    assert!(log_level_from_number(-1).out_of_range);
    assert!(!log_level_from_number(3).out_of_range);
    assert_eq!(log_level_from_number(i32::MIN).level, LogLevel::Error);
}

#[test]
fn level_agrees_with_the_standard_parser_on_a_wide_integer() {
    let samples = [
        "", "0", "1", "2", "3", "4", "-3", "+3", "+", "-", "+-3", "-+3", "--3", "12a", "a12",
        " 12", "12 ", "007", "-007", "002", "+001", "2147483647", "2147483648", "-2147483648",
        "-2147483649", "4294967296", "00000000002147483647", "99999999999999999999999999",
        "-99999999999999999999999999", "1,2", "1.0", "1e3", "3\u{0}", "+0", "-0", "0000", "-0000",
    ];
    for text in samples {
        let expected = match text.parse::<i128>() {
            Ok(0) => LevelChoice { level: LogLevel::Error, out_of_range: false },
            Ok(1) => LevelChoice { level: LogLevel::Warn, out_of_range: false },
            Ok(2) => LevelChoice { level: LogLevel::Info, out_of_range: false },
            Ok(3) => LevelChoice { level: LogLevel::Debug, out_of_range: false },
            Ok(_) => LevelChoice { level: LogLevel::Error, out_of_range: true },
            Err(_) => LevelChoice { level: LogLevel::Error, out_of_range: false },
        };
        assert_eq!(parse_log_level(text), expected, "{:?}", text);
    }
}

#[test]
fn split_keeps_empty_fields() {
    assert_eq!(split_on_commas(""), vec![String::new()]);
    assert_eq!(split_on_commas(","), vec![String::new(), String::new()]);
    assert_eq!(split_on_commas("a"), vec!["a".to_string()]);
    assert_eq!(
        split_on_commas("1,2,,4"),
        vec!["1".to_string(), "2".to_string(), String::new(), "4".to_string()]
    );
    assert_eq!(split_on_commas("é,ü"), vec!["é".to_string(), "ü".to_string()]);
}

#[test]
fn split_agrees_with_the_standard_split() {
    for text in ["", ",", ",,", "a,b", ",a", "a,", "0.2,0.3,0.4,0.5", "x, y ,z", "日本,語", "a,,b,,"] {
        let expected: Vec<String> = text.split(',').map(|p| p.to_string()).collect();
        assert_eq!(split_on_commas(text), expected, "{:?}", text);
        assert_eq!(split_on_commas(text).join(","), text);
    }
}

#[test]
fn channels_need_exactly_four_fields() {
    for n in 0..8usize {
        let fields: Vec<String> = (0..n).map(|i| format!("f{}", i)).collect();
        let picked = channels_of(fields);
        if n == 4 {
            let c = picked.unwrap();
            assert_eq!(c.red, "f0");
            assert_eq!(c.green, "f1");
            assert_eq!(c.blue, "f2");
            assert_eq!(c.alpha, "f3");
        } else {
            assert!(picked.is_none(), "{}", n);
        }
    }
}

#[test]
fn color_fields_are_taken_in_order() {
    let c = parse_color_fields("0.2,0.3,0.4,0.5").unwrap();
    assert_eq!(c.red, "0.2");
    assert_eq!(c.green, "0.3");
    assert_eq!(c.blue, "0.4");
    assert_eq!(c.alpha, "0.5");
    let empty = parse_color_fields(",,,").unwrap();
    assert_eq!(empty.red, "");
    assert_eq!(empty.alpha, "");
}

#[test]
fn color_of_four_numbers_is_that_tuple() {
    assert_eq!(
        color_of("0.2,0.3,0.4,0.5"),
        (Color { red: 0.2, green: 0.3, blue: 0.4, alpha: 0.5 }, false)
    );
    assert_eq!(
        color_of("1,0,0,1"),
        (Color { red: 1.0, green: 0.0, blue: 0.0, alpha: 1.0 }, false)
    );
    assert_eq!(
        color_of("-1.5,2e3,.25,7"),
        (Color { red: -1.5, green: 2000.0, blue: 0.25, alpha: 7.0 }, false)
    );
}

#[test]
fn malformed_channel_becomes_zero_and_others_stay() {
    assert_eq!(
        color_of("0.2,x,0.4,0.5"),
        (Color { red: 0.2, green: 0.0, blue: 0.4, alpha: 0.5 }, false)
    );
    assert_eq!(
        color_of(",0.3,,0.5"),
        (Color { red: 0.0, green: 0.3, blue: 0.0, alpha: 0.5 }, false)
    );
    assert_eq!(
        color_of("0.2, 0.3,0.4,0.5 "),
        (Color { red: 0.2, green: 0.0, blue: 0.4, alpha: 0.0 }, false)
    );
    assert_eq!(
        color_of(",,,"),
        (Color { red: 0.0, green: 0.0, blue: 0.0, alpha: 0.0 }, false)
    );
}

#[test]
fn wrong_number_of_fields_gives_opaque_red() {
    let red = (Color { red: 1.0, green: 0.0, blue: 0.0, alpha: 1.0 }, true);
    for arg in ["", "0.5", "1,2", "1,2,3", "1,2,3,4,5", "0.2;0.3;0.4;0.5", ",,,,"] {
        assert_eq!(color_of(arg), red, "{:?}", arg);
    }
}

#[test]
fn resolve_color_works_for_any_channel_type() {
    let given = Some(Color { red: Some(7u8), green: None, blue: Some(9u8), alpha: None });
    assert_eq!(
        resolve_color(given, 0u8, 1u8),
        (Color { red: 7, green: 0, blue: 9, alpha: 0 }, false)
    );
    assert_eq!(
        resolve_color(None, 0u8, 1u8),
        (Color { red: 1, green: 0, blue: 0, alpha: 1 }, true)
    );
}

use nmea_parser::ParseError;
use nmea_parser::bitseq::{bits_from_bools, BitSequence};
use nmea_parser::datetime::{
    is_at_most_180_days_before, is_within_180_days, parse_valid_utc, valid_offset, UtcDateTime,
    UtcOffset,
};
use nmea_parser::decimal::{parse_decimal, Decimal};
use nmea_parser::fields::{
    pick_decimal_field, pick_hex_field, pick_string_field, pick_u16_field, pick_u32_field,
    pick_u8_field,
};
use nmea_parser::position::{
    parse_latitude_ddmm_mmm, parse_latitude_m_m, parse_longitude_dddmm_mmm, parse_longitude_m_m,
    Coordinate,
};
use nmea_parser::text::{parse_i32, parse_u64, parse_u8, split_commas};
use nmea_parser::times::{
    nanoseconds, parse_date, parse_hhmmss, parse_hhmmss_ss, parse_time, parse_time_with_fractions,
    parse_yymmdd_hhmmss, pick_date_with_fields, pick_s2, pick_timezone_with_fields,
};
use nmea_parser::util::{
    choose_eta_year, make_fragment_key, parse_payload, pick_bits, pick_eta, pick_eta_with_now,
    pick_flag, pick_i32, pick_i64, pick_string, pick_u64, EtaYear,
};

fn bits(v: &[u8]) -> BitSequence {
    bits_from_bools(&v.iter().map(|b| *b != 0).collect::<Vec<bool>>())
}

fn bools(v: &[u8]) -> Vec<bool> {
    v.iter().map(|b| *b != 0).collect()
}

fn split(s: &str) -> Vec<String> {
    s.split(',').map(String::from).collect()
}

fn utc(year: i32, month: u32, day: u32, hour: u32, minute: u32, second: u32) -> UtcDateTime {
    UtcDateTime { year, month, day, hour, minute, second, nanosecond: 0 }
}

fn number(d: Decimal) -> f64 {
    let v = (d.digits as f64) / 10f64.powi(d.scale as i32);
    if d.negative {
        -v
    } else {
        v
    }
}

fn degrees(c: Coordinate) -> f64 {
    let v = (c.degrees as f64) + number(c.minutes) / 60.0;
    if c.negative {
        -v
    } else {
        v
    }
}

fn close(a: f64, b: f64, eps: f64) {
    assert!((a - b).abs() <= eps, "{} is not within {} of {}", a, eps, b);
}

#[test]
fn test_parse_payload() {
    match parse_payload("w7b0P1") {
        Ok(bv) => {
            assert_eq!(
                pick_bits(&bv, 0, 1000),
                bools(&[
                    1, 1, 1, 1, 1, 1, //
                    0, 0, 0, 1, 1, 1, //
                    1, 0, 1, 0, 1, 0, //
                    0, 0, 0, 0, 0, 0, //
                    1, 0, 0, 0, 0, 0, //
                    0, 0, 0, 0, 0, 1, //
                ])
            );
        }
        Err(e) => {
            assert_eq!(e, "OK");
        }
    }
}

#[test]
fn test_pick_u64() {
    let bv = bits(&[1, 0, 1, 1, 0, 1]);
    assert_eq!(pick_u64(&bv, 0, 2), 2);
    assert_eq!(pick_u64(&bv, 2, 2), 3);
    assert_eq!(pick_u64(&bv, 4, 2), 1);
    assert_eq!(pick_u64(&bv, 0, 6), 45);
    assert_eq!(pick_u64(&bv, 4, 4), 4);
    assert_eq!(pick_u64(&bv, 6, 2), 0);
}

#[test]
fn test_pick_i64() {
    assert_eq!(pick_i64(&bits(&[0, 1, 1, 1, 1, 1]), 0, 6), 31);
    assert_eq!(pick_i64(&bits(&[0, 0, 0, 0, 0, 1]), 0, 6), 1);
    assert_eq!(pick_i64(&bits(&[0, 0, 0, 0, 0, 0]), 0, 6), 0);
    assert_eq!(pick_i64(&bits(&[1, 1, 1, 1, 1, 1]), 0, 6), -1);
    assert_eq!(pick_i64(&bits(&[1, 0, 0, 0, 0, 0]), 0, 6), -32);
}

#[test]
fn test_pick_string() {
    let v = [
        1, 1, 1, 1, 1, 1, // ?
        0, 0, 0, 0, 0, 1, // A
        0, 0, 0, 1, 1, 1, // G
        0, 1, 1, 1, 1, 1, // _
        1, 1, 0, 1, 0, 0, // 4
        1, 1, 1, 0, 1, 0, // :
        1, 0, 0, 0, 0, 1, // !
        0, 0, 0, 0, 0, 0, // @ (end of line char)
        0, 0, 0, 0, 1, 0, // B (rubbish)
    ];
    let bv = bits(&v);
    assert_eq!(pick_string(&bv, 0, v.len() / 6), "?AG_4:!");
}

#[test]
fn test_pick_eta() {
    // Valid case
    let bv = bits(&[
        1, 0, 1, 0, // 10
        0, 1, 0, 1, 1, // 11
        1, 0, 1, 1, 0, // 22
        1, 1, 1, 0, 0, 1, // 57
    ]);
    let eta = pick_eta(&bv, 0).ok().unwrap();
    assert_eq!(eta, Some(utc(eta.unwrap().year, 10, 11, 22, 57, 30)));

    // Invalid month
    let bv = bits(&[
        1, 1, 0, 1, // 13
        0, 1, 0, 1, 1, // 11
        1, 0, 1, 1, 0, // 22
        1, 1, 1, 0, 0, 1, // 57
    ]);
    assert_eq!(pick_eta(&bv, 0).is_ok(), false);

    // Invalid day
    let bv = bits(&[
        0, 0, 1, 0, // 2
        1, 1, 1, 1, 1, // 31
        1, 0, 1, 1, 0, // 22
        1, 1, 1, 0, 0, 1, // 57
    ]);
    assert_eq!(pick_eta(&bv, 0).is_ok(), false);

    // Invalid hour
    let bv = bits(&[
        1, 0, 1, 0, // 10
        0, 1, 0, 1, 1, // 11
        1, 1, 0, 0, 1, // 25
        1, 1, 1, 0, 0, 1, // 57
    ]);
    assert_eq!(pick_eta(&bv, 0).is_ok(), false);

    // Invalid minute
    let bv = bits(&[
        1, 0, 1, 0, // 10
        0, 1, 0, 1, 1, // 11
        1, 0, 1, 1, 0, // 22
        1, 1, 1, 1, 0, 1, // 61
    ]);
    assert_eq!(pick_eta(&bv, 0).is_ok(), false);
}

#[test]
fn test_pick_eta_with_now() {
    // February 28
    let feb28 = bits(&[
        0, 0, 1, 0, // 2
        1, 1, 1, 0, 0, // 28
        0, 0, 0, 0, 0, // 0
        0, 0, 0, 0, 0, 0, // 0
    ]);

    // February 29
    let feb29 = bits(&[
        0, 0, 1, 0, // 2
        1, 1, 1, 0, 1, // 29
        0, 0, 0, 0, 0, // 0
        0, 0, 0, 0, 0, 0, // 0
    ]);

    // Leap day case
    let then = utc(2020, 12, 31, 0, 0, 0);
    assert_eq!(
        pick_eta_with_now(&feb29, 0, then).ok().unwrap(),
        Some(utc(2020, 2, 29, 0, 0, 30))
    );

    // Non leap day case
    let then = utc(2020, 12, 31, 0, 0, 0);
    assert_eq!(
        pick_eta_with_now(&feb28, 0, then).ok().unwrap(),
        Some(utc(2021, 2, 28, 0, 0, 30))
    );

    // Non leap year invalid case
    let then = utc(2021, 12, 31, 0, 0, 0);
    assert_eq!(pick_eta_with_now(&feb29, 0, then).is_ok(), false);

    // Non leap year valid case
    let then = utc(2021, 12, 31, 0, 0, 0);
    assert_eq!(pick_eta_with_now(&feb28, 0, then).is_ok(), true);

    // One day late
    let then = utc(2021, 3, 1, 0, 0, 0);
    assert_eq!(
        pick_eta_with_now(&feb28, 0, then).ok().unwrap(),
        Some(utc(2021, 2, 28, 0, 0, 30))
    );

    // Six months late
    let then = utc(2021, 8, 31, 0, 0, 0);
    assert_eq!(
        pick_eta_with_now(&feb28, 0, then).ok().unwrap(),
        Some(utc(2022, 2, 28, 0, 0, 30))
    );
}

#[test]
fn test_parse_valid_utc() {
    assert_eq!(parse_valid_utc(2020, 2, 29, 0, 0, 0, 0).is_ok(), true);
    assert_eq!(parse_valid_utc(2021, 2, 29, 0, 0, 0, 0).is_ok(), false);
}

#[test]
fn test_pick_number_field() {
    let s = split("128,0,8.0,,xyz");
    assert_eq!(pick_u8_field(&s, 0).ok().unwrap().unwrap(), 128);
    assert_eq!(pick_u8_field(&s, 1).ok().unwrap().unwrap(), 0);
    assert_eq!(number(pick_decimal_field(&s, 2).ok().unwrap().unwrap()), 8.0);
    assert_eq!(pick_u16_field(&s, 3).ok().unwrap(), None);
    assert_eq!(pick_u32_field(&s, 4).is_ok(), false);
    assert_eq!(pick_u32_field(&s, 5).ok().unwrap(), None);
}

#[test]
fn test_pick_hex_field() {
    let s = split("ff,0,,FFFF,8080808080808080");
    assert_eq!(pick_hex_field(&s, 0, 255).unwrap().unwrap(), 255);
    assert_eq!(pick_hex_field(&s, 1, 255).unwrap().unwrap(), 0);
    assert_eq!(pick_hex_field(&s, 2, 255).unwrap(), None);
    assert_eq!(pick_hex_field(&s, 3, 65535).unwrap().unwrap(), 65535);
    assert_eq!(
        pick_hex_field(&s, 4, u64::MAX).unwrap().unwrap(),
        9259542123273814144
    );
}

#[test]
fn test_parse_latitude_m_m() {
    close(
        parse_latitude_m_m("3480", "N").ok().unwrap().map(|d| number(d) / 60.0).unwrap_or(0.0),
        58.0,
        0.1,
    );
    close(
        parse_latitude_m_m("3480", "S").ok().unwrap().map(|d| number(d) / 60.0).unwrap_or(0.0),
        -58.0,
        0.1,
    );
    assert_eq!(parse_latitude_m_m("3480", "X").is_ok(), false);
    assert_eq!(parse_latitude_m_m("ABCD", "N").is_ok(), false);
    assert_eq!(parse_latitude_m_m("", "N").is_ok(), true);
    assert_eq!(parse_latitude_m_m("", "N").ok().unwrap(), None);
}

#[test]
fn test_parse_longitude_m_m() {
    close(
        parse_longitude_m_m("1140", "E").ok().unwrap().map(|d| number(d) / 60.0).unwrap_or(0.0),
        19.0,
        0.1,
    );
    close(
        parse_longitude_m_m("1140", "W").ok().unwrap().map(|d| number(d) / 60.0).unwrap_or(0.0),
        -19.0,
        0.1,
    );
    assert_eq!(parse_longitude_m_m("1140", "X").is_ok(), false);
    assert_eq!(parse_longitude_m_m("ABCD", "E").is_ok(), false);
    assert_eq!(parse_longitude_m_m("", "E").is_ok(), true);
    assert_eq!(parse_longitude_m_m("", "E").ok().unwrap(), None);
}

#[test]
fn test_pick_string_field() {
    let s = split("a,b,,dd,e");
    assert_eq!(pick_string_field(&s, 0), Some("a".into()));
    assert_eq!(pick_string_field(&s, 1), Some("b".into()));
    assert_eq!(pick_string_field(&s, 2), None);
    assert_eq!(pick_string_field(&s, 3), Some("dd".into()));
    assert_eq!(pick_string_field(&s, 4), Some("e".into()));
    assert_eq!(pick_string_field(&s, 5), None);
}

#[test]
fn test_parse_time_with_fractions() {
    assert_eq!(
        parse_time_with_fractions("123456.987").unwrap_or((0, 0, 0, 0)),
        (12, 34, 56, 987000000)
    );
    assert_eq!(
        parse_time_with_fractions("123456").unwrap_or((0, 0, 0, 0)),
        (12, 34, 56, 0)
    );
}

#[test]
fn test_parse_hhmmss_ss() {
    // Valid case with fractions
    let then = utc(2000, 1, 1, 0, 0, 0);
    assert_eq!(
        parse_hhmmss_ss("123456.987", then).ok(),
        Some(UtcDateTime {
            year: 2000,
            month: 1,
            day: 1,
            hour: 12,
            minute: 34,
            second: 56,
            nanosecond: 987000000
        })
    );

    // Valid case without fractions
    let then = utc(2000, 1, 1, 0, 0, 0);
    assert_eq!(parse_hhmmss_ss("123456", then).ok(), Some(utc(2000, 1, 1, 12, 34, 56)));

    // Invalid case
    assert_eq!(parse_hhmmss_ss("123456@", then).ok(), None);
}

#[test]
fn test_pick_date_with_fields() {
    let s = split("$GPZDA,072914.00,31,05,2018,+02,00");
    assert_eq!(
        pick_date_with_fields(&s, 4, 3, 2, 0, 0, 0, 0).ok(),
        Some(utc(2018, 5, 31, 0, 0, 0))
    )
}

#[test]
fn test_pick_timezone_with_fields() {
    // Valid positive time zone
    let s = split(",,,,,+4,30");
    assert_eq!(
        pick_timezone_with_fields(&s, 5, 6).ok(),
        Some(UtcOffset { seconds: 4 * 3600 + 30 * 60 })
    );

    // Valid negative time zone
    let s = split(",,,,,-4,30");
    assert_eq!(
        pick_timezone_with_fields(&s, 5, 6).ok(),
        Some(UtcOffset { seconds: -4 * 3600 - 30 * 60 })
    );

    // Invalid time zone
    let s = split(",,,,,+25,00");
    assert_eq!(pick_timezone_with_fields(&s, 5, 6).is_ok(), false);
}

#[test]
fn armor_decoding_is_the_inverse_of_armoring() {
    // The armoring rule: a value below 40 is the code 48 + value, any other 56 + value.
    let mut text = String::new();
    for v in 0u8..64 {
        text.push(if v < 40 { (48 + v) as char } else { (56 + v) as char });
    }
    let bv = parse_payload(&text).unwrap();
    for v in 0usize..64 {
        assert_eq!(pick_u64(&bv, 6 * v, 6), v as u64);
    }
    assert_eq!(pick_bits(&bv, 0, usize::MAX).len(), 6 * 64);
    // 'W' is the last code before the gap, '`' the first after it.
    let bv = parse_payload("W`").unwrap();
    assert_eq!(pick_u64(&bv, 0, 6), 39);
    assert_eq!(pick_u64(&bv, 6, 6), 40);
    assert_eq!(pick_u64(&bv, 0, 12), 39 * 64 + 40);
    // A character outside the alphabet gives bits all the same.
    let bv = parse_payload(" ").unwrap();
    assert_eq!(pick_u64(&bv, 0, 6), 40);
    assert_eq!(pick_bits(&parse_payload("").unwrap(), 0, 10), Vec::<bool>::new());
}

#[test]
fn signed_extraction_symmetry() {
    for w in 1usize..=64 {
        let zeros = bits(&vec![0u8; w]);
        let ones = bits(&vec![1u8; w]);
        let mut top = vec![0u8; w];
        top[0] = 1;
        let mut rest = vec![1u8; w];
        rest[0] = 0;
        assert_eq!(pick_i64(&zeros, 0, w), 0);
        assert_eq!(pick_i64(&ones, 0, w), -1);
        let half: i128 = 1i128 << (w - 1);
        assert_eq!(pick_i64(&bits(&top), 0, w) as i128, -half);
        assert_eq!(pick_i64(&bits(&rest), 0, w) as i128, half - 1);
    }
    assert_eq!(pick_i32(&bits(&[1, 0, 1]), 0, 3), -3);
    assert_eq!(pick_i32(&bits(&[0, 1, 0, 1]), 1, 3), -3);
}

#[test]
fn reads_past_the_end_are_zero() {
    let bv = bits(&[1, 1, 1]);
    assert_eq!(pick_u64(&bv, 0, 5), 0b11100);
    assert_eq!(pick_u64(&bv, 3, 64), 0);
    assert_eq!(pick_u64(&bv, 100, 7), 0);
    assert_eq!(pick_i64(&bv, 2, 3), -4);
    assert!(pick_flag(&bv, 2));
    assert!(!pick_flag(&bv, 3));
    assert_eq!(pick_string(&bv, 0, 4), "8");
    assert_eq!(pick_bits(&bv, 1, 9), vec![true, true]);
    assert_eq!(pick_bits(&bv, 5, 9), Vec::<bool>::new());
    assert_eq!(pick_bits(&bv, 2, 1), Vec::<bool>::new());
    // A field wider than 64 bits keeps its low 64.
    let wide = bits(&vec![1u8; 70]);
    assert_eq!(pick_u64(&wide, 0, 70), u64::MAX);
}

#[test]
fn text_fields_end_at_zero_and_lose_trailing_spaces() {
    // "AB  " then a zero group, then rubbish.
    let bv = parse_payload("12PP03").unwrap();
    assert_eq!(pick_string(&bv, 0, 6), "AB");
    assert_eq!(pick_string(&bv, 0, 3), "AB");
    assert_eq!(pick_string(&bv, 0, 1), "A");
    assert_eq!(pick_string(&bv, 0, 0), "");
    // Spaces inside stay.
    let bv = parse_payload("1P2").unwrap();
    assert_eq!(pick_string(&bv, 0, 3), "A B");
    // 31 is '_', 32 is ' ', 63 is '?'.
    let bv = parse_payload("OPw").unwrap();
    assert_eq!(pick_string(&bv, 0, 1), "_");
    assert_eq!(pick_string(&bv, 12, 1), "?");
    assert_eq!(pick_string(&bv, 6, 1), "");
}

#[test]
fn fragment_keys() {
    assert_eq!(make_fragment_key("!VDM", 7, 2, 1, "A"), "!VDM,2,1,7,A");
    assert_eq!(make_fragment_key("!VDO", 18446744073709551615, 2, 2, ""), "!VDO,2,2,18446744073709551615,");
    assert_eq!(make_fragment_key("", 0, 0, 0, ""), ",0,0,0,");
}

#[test]
fn eta_year_choice() {
    assert_eq!(choose_eta_year(false, false, false), EtaYear::Neither);
    assert_eq!(choose_eta_year(false, false, true), EtaYear::Neither);
    assert_eq!(choose_eta_year(false, true, true), EtaYear::Next);
    assert_eq!(choose_eta_year(true, false, false), EtaYear::This);
    assert_eq!(choose_eta_year(true, true, true), EtaYear::This);
    assert_eq!(choose_eta_year(true, true, false), EtaYear::Next);
}

#[test]
fn eta_special_values() {
    // Month 0, day 0, hour 24, minute 60: no time given.
    let bv = bits(&[0, 0, 0, 0, 0, 0, 0, 0, 0, 1, 1, 0, 0, 0, 1, 1, 1, 1, 0, 0]);
    assert_eq!(pick_eta(&bv, 0), Ok(None));
    // Month and day from the reference time, hour 24 read as 23:59.
    let bv = bits(&[0, 0, 0, 0, 0, 0, 0, 0, 0, 1, 1, 0, 0, 0, 0, 0, 0, 1, 1, 1]);
    assert_eq!(
        pick_eta_with_now(&bv, 0, utc(2021, 6, 15, 12, 0, 0)),
        Ok(Some(utc(2021, 6, 15, 23, 59, 30)))
    );
    // Minute 60 read as 59.
    let bv = bits(&[0, 0, 1, 1, 0, 0, 1, 0, 1, 0, 0, 1, 1, 1, 1, 1, 1, 1, 0, 0]);
    assert_eq!(
        pick_eta_with_now(&bv, 0, utc(2021, 1, 1, 0, 0, 0)),
        Ok(Some(utc(2021, 3, 5, 7, 59, 30)))
    );
    // Exactly 180 days back is still this year: 2021-06-30 00:00:30 less 180 days is
    // 2021-01-01 00:00:30.
    let jan1 = bits(&[0, 0, 0, 1, 0, 0, 0, 0, 1, 0, 0, 0, 0, 0, 0, 0, 0, 0, 0, 0]);
    assert_eq!(
        pick_eta_with_now(&jan1, 0, utc(2021, 6, 30, 0, 0, 30)),
        Ok(Some(utc(2021, 1, 1, 0, 0, 30)))
    );
    assert_eq!(
        pick_eta_with_now(&jan1, 0, utc(2021, 6, 30, 0, 0, 31)),
        Ok(Some(utc(2022, 1, 1, 0, 0, 30)))
    );
    match pick_eta_with_now(&bits(&[1, 1, 1, 1]), 0, utc(2021, 1, 1, 0, 0, 0)) {
        Err(ParseError::InvalidSentence(msg)) => {
            assert_eq!(msg, "Failed to parse Utc Date from y:2021 m:15 d:1 h:0 m:0 s:30")
        }
        other => panic!("unexpected result: {:?}", other),
    }
}

#[test]
fn dates_and_times_that_exist() {
    assert!(parse_valid_utc(2000, 2, 29, 23, 59, 59, 999_999_999).is_ok());
    assert!(parse_valid_utc(1900, 2, 29, 0, 0, 0, 0).is_err());
    assert!(parse_valid_utc(2023, 4, 31, 0, 0, 0, 0).is_err());
    assert!(parse_valid_utc(2023, 0, 1, 0, 0, 0, 0).is_err());
    assert!(parse_valid_utc(2023, 13, 1, 0, 0, 0, 0).is_err());
    assert!(parse_valid_utc(2023, 1, 0, 0, 0, 0, 0).is_err());
    assert!(parse_valid_utc(-4, 2, 29, 0, 0, 0, 0).is_ok());
    assert!(parse_valid_utc(262142, 12, 31, 0, 0, 0, 0).is_ok());
    assert!(parse_valid_utc(262143, 1, 1, 0, 0, 0, 0).is_err());
    assert!(parse_valid_utc(-262143, 1, 1, 0, 0, 0, 0).is_ok());
    assert!(parse_valid_utc(-262144, 12, 31, 0, 0, 0, 0).is_err());
    assert!(parse_valid_utc(2023, 1, 1, 24, 0, 0, 0).is_err());
    assert!(parse_valid_utc(2023, 1, 1, 0, 60, 0, 0).is_err());
    assert!(parse_valid_utc(2023, 1, 1, 0, 0, 60, 0).is_err());
    assert!(parse_valid_utc(2023, 1, 1, 23, 59, 59, 1_999_999_999).is_ok());
    assert!(parse_valid_utc(2023, 1, 1, 23, 59, 58, 1_000_000_000).is_err());
    assert!(parse_valid_utc(2023, 1, 1, 23, 59, 59, 2_000_000_000).is_err());
    assert_eq!(
        parse_valid_utc(-5, 13, 1, 2, 3, 4, 0),
        Err(ParseError::InvalidSentence(
            "Failed to parse Utc Date from y:-5 m:13 d:1 h:2 m:3 s:4".to_string()
        ))
    );
    assert_eq!(utc(1970, 1, 1, 0, 0, 0).seconds(), 719_163 * 86400);
    assert_eq!(utc(1, 1, 1, 1, 1, 1).seconds(), 86400 + 3661);
}

#[test]
fn whole_numbers() {
    assert_eq!(parse_u8("255"), Some(255));
    assert_eq!(parse_u8("256"), None);
    assert_eq!(parse_u8("+7"), Some(7));
    assert_eq!(parse_u8("007"), Some(7));
    assert_eq!(parse_u8(""), None);
    assert_eq!(parse_u8("+"), None);
    assert_eq!(parse_u8("-1"), None);
    assert_eq!(parse_u8("1 "), None);
    assert_eq!(parse_u64("18446744073709551615"), Some(u64::MAX));
    assert_eq!(parse_u64("18446744073709551616"), None);
    assert_eq!(parse_u64("99999999999999999999999"), None);
    assert_eq!(parse_i32("-2147483648"), Some(i32::MIN));
    assert_eq!(parse_i32("2147483647"), Some(i32::MAX));
    assert_eq!(parse_i32("2147483648"), None);
    assert_eq!(parse_i32("-2147483649"), None);
    assert_eq!(parse_i32("-0"), Some(0));
    assert_eq!(parse_i32("-"), None);
    assert_eq!(parse_i32("+-1"), None);
    assert_eq!(split_commas("a,,b,"), vec!["a", "", "b", ""]);
    assert_eq!(split_commas(""), vec![""]);
}

#[test]
fn decimal_numbers() {
    assert_eq!(parse_decimal("8.0"), Some(Decimal { negative: false, digits: 80, scale: 1 }));
    assert_eq!(parse_decimal("-0.50"), Some(Decimal { negative: true, digits: 50, scale: 2 }));
    assert_eq!(parse_decimal("+12"), Some(Decimal { negative: false, digits: 12, scale: 0 }));
    assert_eq!(parse_decimal("5."), Some(Decimal { negative: false, digits: 5, scale: 0 }));
    assert_eq!(parse_decimal(".5"), Some(Decimal { negative: false, digits: 5, scale: 1 }));
    assert_eq!(parse_decimal("-0"), Some(Decimal { negative: true, digits: 0, scale: 0 }));
    assert_eq!(parse_decimal(""), None);
    assert_eq!(parse_decimal("."), None);
    assert_eq!(parse_decimal("-"), None);
    assert_eq!(parse_decimal("1.2.3"), None);
    assert_eq!(parse_decimal("1e5"), None);
    assert_eq!(parse_decimal("--1"), None);
    assert_eq!(parse_decimal("184467440737095516.16"), None);
    assert_eq!(
        parse_decimal("1844674407370955.1615"),
        Some(Decimal { negative: false, digits: u64::MAX, scale: 4 })
    );
    assert_eq!(number(parse_decimal("-12.75").unwrap()), -12.75);
    assert_eq!(
        Decimal { negative: false, digits: 3, scale: 1 }.negated(),
        Decimal { negative: true, digits: 3, scale: 1 }
    );
}

#[test]
fn nanoseconds_of_a_fraction() {
    let d = |digits: u64, scale: u8| Decimal { negative: false, digits, scale };
    assert_eq!(nanoseconds(d(987, 3)), 987_000_000);
    assert_eq!(nanoseconds(d(0, 0)), 0);
    assert_eq!(nanoseconds(d(1, 9)), 1);
    assert_eq!(nanoseconds(d(4, 10)), 0);
    assert_eq!(nanoseconds(d(5, 10)), 1);
    assert_eq!(nanoseconds(d(14, 10)), 1);
    assert_eq!(nanoseconds(d(15, 10)), 2);
    assert_eq!(nanoseconds(d(9_999_999_995, 10)), 1_000_000_000);
    assert_eq!(nanoseconds(d(5, 0)), u32::MAX);
    assert_eq!(nanoseconds(d(4, 0)), 4_000_000_000);
    assert_eq!(nanoseconds(d(u64::MAX, 28)), 2);
    assert_eq!(nanoseconds(d(u64::MAX, 29)), 0);
    assert_eq!(nanoseconds(Decimal { negative: true, digits: 5, scale: 1 }), 0);
}

#[test]
fn positions_in_degrees_and_minutes() {
    let lat = parse_latitude_ddmm_mmm("4807.038", "N").unwrap().unwrap();
    assert_eq!(
        lat,
        Coordinate {
            negative: false,
            degrees: 48,
            minutes: Decimal { negative: false, digits: 7038, scale: 3 }
        }
    );
    close(degrees(lat), 48.1173, 0.00001);
    let lon = parse_longitude_dddmm_mmm("01131.000", "W").unwrap().unwrap();
    assert_eq!(
        lon,
        Coordinate {
            negative: true,
            degrees: 11,
            minutes: Decimal { negative: false, digits: 31000, scale: 3 }
        }
    );
    // The hemisphere of a latitude is south only for "S".
    assert!(!parse_latitude_ddmm_mmm("4807.0", "W").unwrap().unwrap().negative);
    assert!(parse_latitude_ddmm_mmm("4807.0", "S").unwrap().unwrap().negative);
    assert!(!parse_latitude_ddmm_mmm("4807.0", "").unwrap().unwrap().negative);
    // What follows the digits is passed over.
    assert_eq!(
        parse_latitude_ddmm_mmm("4807.03xyz", "N").unwrap().unwrap().minutes,
        Decimal { negative: false, digits: 703, scale: 2 }
    );
    assert_eq!(parse_latitude_ddmm_mmm("", "N"), Ok(None));
    assert_eq!(
        parse_latitude_ddmm_mmm("480.038", "N"),
        Err(ParseError::InvalidSentence(
            "Failed to parse latitude (DDMM.MMM) from 480.038".to_string()
        ))
    );
    assert!(parse_latitude_ddmm_mmm("4807.", "N").is_err());
    assert!(parse_latitude_ddmm_mmm("4807", "N").is_err());
    assert!(parse_latitude_ddmm_mmm("48a7.0", "N").is_err());
    assert_eq!(
        parse_longitude_dddmm_mmm("1131.000", "E"),
        Err(ParseError::InvalidSentence(
            "Failed to parse longitude (DDDMM.MMM) from 1131.000".to_string()
        ))
    );
    assert_eq!(
        parse_latitude_m_m("1.5", "X"),
        Err(ParseError::InvalidSentence("Bad hemispehre: X".to_string()))
    );
    assert_eq!(
        parse_longitude_m_m("x", "E"),
        Err(ParseError::InvalidSentence("Failed to parse float: x".to_string()))
    );
}

#[test]
fn times_and_dates_of_text_fields() {
    assert_eq!(pick_s2("123456", 2), "34");
    assert_eq!(pick_s2("123456", 5), "");
    assert_eq!(pick_s2("", 0), "");
    assert_eq!(parse_time("225446"), Ok((22, 54, 46)));
    assert_eq!(parse_time("225446.00"), Ok((22, 54, 46)));
    assert_eq!(
        parse_time("2254"),
        Err(ParseError::InvalidSentence("cannot parse integer from empty string".to_string()))
    );
    assert_eq!(
        parse_time("22x446"),
        Err(ParseError::InvalidSentence("invalid digit found in string".to_string()))
    );
    assert_eq!(parse_date("191120"), Ok((19, 11, 20)));
    assert_eq!(parse_date("1911-5"), Ok((19, 11, -5)));
    assert_eq!(
        parse_hhmmss("225446", utc(2020, 11, 19, 1, 2, 3)),
        Ok(utc(2020, 11, 19, 22, 54, 46))
    );
    assert_eq!(
        parse_hhmmss("2254", utc(2020, 11, 19, 1, 2, 3)),
        Err(ParseError::InvalidSentence("Invalid time format: 2254".to_string()))
    );
    assert_eq!(
        parse_hhmmss("256060", utc(2020, 11, 19, 1, 2, 3)),
        Err(ParseError::InvalidSentence(
            "Failed to parse Utc Date from y:2020 m:11 d:19 h:25 m:60 s:60".to_string()
        ))
    );
    assert_eq!(parse_yymmdd_hhmmss("191120", "225446"), Ok(utc(2020, 11, 19, 22, 54, 46)));
    assert_eq!(
        parse_yymmdd_hhmmss("1911", "225446"),
        Err(ParseError::InvalidSentence("Invalid date format: 1911".to_string()))
    );
    assert_eq!(
        parse_yymmdd_hhmmss("191120", "x"),
        Err(ParseError::InvalidSentence("Invalid time format: x".to_string()))
    );
    assert_eq!(
        parse_time_with_fractions("123456x"),
        Err(ParseError::InvalidSentence("invalid float literal".to_string()))
    );
    let s = split("a,2018,x,31");
    assert_eq!(
        pick_date_with_fields(&s, 1, 2, 3, 0, 0, 0, 0),
        Err(ParseError::InvalidSentence("invalid digit found in string".to_string()))
    );
    assert_eq!(
        pick_date_with_fields(&s, 9, 2, 3, 0, 0, 0, 0),
        Err(ParseError::InvalidSentence("cannot parse integer from empty string".to_string()))
    );
    let s = split("99999999999,13,31");
    assert_eq!(
        pick_date_with_fields(&s, 0, 1, 2, 0, 0, 0, 0),
        Err(ParseError::InvalidSentence("number too large to fit in target type".to_string()))
    );
    assert_eq!(
        pick_date_with_fields(&s, 1, 1, 2, 0, 0, 0, 0),
        Err(ParseError::InvalidSentence(
            "Failed to parse Utc Date from y:13 m:13 d:31 h:0 m:0 s:0".to_string()
        ))
    );
    let s = split("-99999999999");
    assert_eq!(
        pick_date_with_fields(&s, 0, 1, 2, 0, 0, 0, 0),
        Err(ParseError::InvalidSentence("number too small to fit in target type".to_string()))
    );
    // A time zone without a minute field counts no minutes.
    let s = split("-5");
    assert_eq!(pick_timezone_with_fields(&s, 0, 1), Ok(UtcOffset { seconds: -18000 }));
    let s = split("0,30");
    assert_eq!(pick_timezone_with_fields(&s, 0, 1), Ok(UtcOffset { seconds: 0 }));
    let s = split("24,00");
    assert_eq!(
        pick_timezone_with_fields(&s, 0, 1),
        Err(ParseError::InvalidSentence("Time zone offset out of bounds: 24:0".to_string()))
    );
    let s = split("23,59");
    assert_eq!(pick_timezone_with_fields(&s, 0, 1), Ok(UtcOffset { seconds: 86340 }));
}

#[test]
fn a_hundred_and_eighty_days() {
    let span: i64 = 180 * 86400;
    assert!(is_at_most_180_days_before(span, 0, 0, 0));
    assert!(is_at_most_180_days_before(span, 5, 0, 5));
    assert!(!is_at_most_180_days_before(span, 6, 0, 5));
    assert!(!is_at_most_180_days_before(span + 1, 0, 0, 999_999_999));
    assert!(is_at_most_180_days_before(span - 1, 999_999_999, 0, 0));
    assert!(is_at_most_180_days_before(-5, 0, -5, 0));
    assert!(is_within_180_days(&utc(2021, 6, 30, 0, 0, 0), &utc(2021, 1, 1, 0, 0, 0)));
    assert!(!is_within_180_days(&utc(2021, 6, 30, 0, 0, 1), &utc(2021, 1, 1, 0, 0, 0)));
    // A leap day lies between: 180 days before 2020-06-29 is 2020-01-01.
    assert!(is_within_180_days(&utc(2020, 6, 29, 0, 0, 0), &utc(2020, 1, 1, 0, 0, 0)));
    assert!(!is_within_180_days(&utc(2020, 6, 30, 0, 0, 0), &utc(2020, 1, 1, 0, 0, 0)));
    assert_eq!(valid_offset(86399), Some(UtcOffset { seconds: 86399 }));
    assert_eq!(valid_offset(-86399), Some(UtcOffset { seconds: -86399 }));
    assert_eq!(valid_offset(86400), None);
    assert_eq!(valid_offset(-86400), None);
}

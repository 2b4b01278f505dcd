use nmea_parser::{NmeaParser, ParsedMessage, ParseError};
use nmea_parser::ais::{Station, VesselStaticData};
use nmea_parser::gnss::NavigationSystem;
use nmea_parser::sentence::frame;

#[test]
fn test_parse_corrupted() {
    let mut p = NmeaParser::new();
    assert!(p
        .parse_sentence("!AIVDM,1,1,,A,38Id705000rRVJhE7cl9n;160000,0*41")
        .ok()
        .is_none());
}

#[test]
fn test_parse_missing_checksum() {
    let mut p = NmeaParser::new();
    assert!(p
        .parse_sentence("!AIVDM,1,1,,A,38Id705000rRVJhE7cl9n;160000,0")
        .ok()
        .is_some());
}

#[test]
fn test_parse_invalid_utc() {
    let mut p = NmeaParser::new();
    assert_eq!(
        p.parse_sentence("!AIVDM,1,1,,B,4028iqT47wP00wGiNbH8H0700`2H,0*13"),
        Err(ParseError::InvalidSentence(String::from(
            "Failed to parse Utc Date from y:4161 m:15 d:31 h:0 m:0 s:0"
        )))
    );
}

#[test]
fn test_parse_proprietary() {
    let mut p = NmeaParser::new();
    assert_eq!(
        p.parse_sentence("$PGRME,15.0,M,45.0,M,25.0,M*1C"),
        Err(ParseError::UnsupportedSentenceType(String::from(
            "Unsupported sentence type: $RME"
        )))
    );
    assert_eq!(
        p.parse_sentence("$PGRM,00,1,,,*15"),
        Err(ParseError::UnsupportedSentenceType(String::from(
            "Unsupported sentence type: $PGRM"
        )))
    );
}

#[test]
fn test_parse_invalid_talker() {
    let mut p = NmeaParser::new();
    assert_eq!(
        p.parse_sentence("$QQ,*2C"),
        Err(ParseError::UnsupportedSentenceType(String::from(
            "Unsupported sentence type: $QQ"
        )))
    );
    assert_eq!(
        p.parse_sentence("$A,a0,*10"),
        Err(ParseError::InvalidSentence(String::from(
            "Invalid talker identifier"
        )))
    );
    assert_eq!(
        p.parse_sentence("$,0a,*51"),
        Err(ParseError::InvalidSentence(String::from(
            "Invalid talker identifier"
        )))
    );
}

#[test]
fn test_nmea_parser() {
    let mut p = NmeaParser::new();

    p.push_string("a".into(), "b".into());
    assert_eq!(p.strings_count(), 1);
    p.push_string("c".into(), "d".into());
    assert_eq!(p.strings_count(), 2);
    p.pull_string("a".into());
    assert_eq!(p.strings_count(), 1);
    p.pull_string("c".into());
    assert_eq!(p.strings_count(), 0);

    p.push_vsd(1, Default::default());
    assert_eq!(p.vsds_count(), 1);
    p.push_vsd(2, Default::default());
    assert_eq!(p.vsds_count(), 2);
    p.pull_vsd(1);
    assert_eq!(p.vsds_count(), 1);
    p.pull_vsd(2);
    assert_eq!(p.vsds_count(), 0);
}

fn vsd(mmsi: u32) -> VesselStaticData {
    let mut vsd = VesselStaticData::default();
    vsd.mmsi = mmsi;
    vsd
}

#[test]
fn test_country() {
    assert_eq!(vsd(230992580).country().unwrap(), "FI");
    assert_eq!(vsd(276009860).country().unwrap(), "EE");
    assert_eq!(vsd(265803690).country().unwrap(), "SE");
    assert_eq!(vsd(273353180).country().unwrap(), "RU");
    assert_eq!(vsd(211805060).country().unwrap(), "DE");
    assert_eq!(vsd(257037270).country().unwrap(), "NO");
    assert_eq!(vsd(227232370).country().unwrap(), "FR");
    assert_eq!(vsd(248221000).country().unwrap(), "MT");
    assert_eq!(vsd(374190000).country().unwrap(), "PA");
    assert_eq!(vsd(412511368).country().unwrap(), "CN");
    assert_eq!(vsd(512003200).country().unwrap(), "NZ");
    assert_eq!(vsd(995126020).country(), None);
    assert_eq!(vsd(2300049).country(), None);
    assert_eq!(vsd(0).country(), None);
}

#[test]
fn reset_drops_pending_parts() {
    let mut p = NmeaParser::new();
    assert_eq!(
        p.parse_sentence("!AIVDM,2,2,1,A,88888888880,2*25"),
        Ok(ParsedMessage::Incomplete)
    );
    assert_eq!(
        p.parse_sentence("!AIVDM,1,1,,A,H42O55i18tMET00000000000000,2*6D"),
        Ok(ParsedMessage::Incomplete)
    );
    assert_eq!(p.strings_count(), 1);
    assert_eq!(p.vsds_count(), 1);
    p.reset();
    assert_eq!(p.strings_count(), 0);
    assert_eq!(p.vsds_count(), 0);
    assert!(p.contains_key("!VDM,2,2,1,A".into()) == false);
}

#[test]
fn fragments_are_kept_under_their_keys() {
    let mut p = NmeaParser::new();
    assert_eq!(
        p.parse_sentence("!AIVDM,2,2,1,A,88888888880,2*25"),
        Ok(ParsedMessage::Incomplete)
    );
    assert!(p.contains_key("!VDM,2,2,1,A".into()));
    assert!(!p.contains_key("!VDM,2,1,1,A".into()));
    assert_eq!(p.pull_string("!VDM,2,2,1,A".into()), Some("88888888880".to_string()));
}

#[test]
fn fragment_number_out_of_range_changes_nothing() {
    let mut p = NmeaParser::new();
    assert_eq!(
        p.parse_sentence("!AIVDM,2,3,1,A,88888888880,2"),
        Ok(ParsedMessage::Incomplete)
    );
    assert_eq!(p.strings_count(), 0);
    assert_eq!(
        p.parse_sentence("!AIVDM,3,1,1,A,88888888880,2"),
        Ok(ParsedMessage::Incomplete)
    );
    assert_eq!(p.strings_count(), 0);
    assert_eq!(
        p.parse_sentence("!AIVDM,2,1,,A,88888888880,2"),
        Ok(ParsedMessage::Incomplete)
    );
    assert_eq!(p.strings_count(), 0);
}

#[test]
fn fragment_count_must_be_a_number() {
    let mut p = NmeaParser::new();
    assert_eq!(
        p.parse_sentence("!AIVDM,x,1,,A,15RTgt0PAso;90TKcjM8h6g208CQ,0"),
        Err(ParseError::InvalidSentence("Failed to parse fragment count: x".to_string()))
    );
    assert_eq!(
        p.parse_sentence("!AIVDM,1,256,,A,15RTgt0PAso;90TKcjM8h6g208CQ,0"),
        Err(ParseError::InvalidSentence("Failed to parse fragment count: 256".to_string()))
    );
}

#[test]
fn unsupported_message_types() {
    let mut p = NmeaParser::new();
    // Type 7 starts with the armored character '7'.
    assert_eq!(
        p.parse_sentence("!AIVDM,1,1,,A,702R5`hwCjq8,0"),
        Err(ParseError::UnsupportedSentenceType(
            "Unsupported !VDM message type: 7".to_string()
        ))
    );
    // Type 19 starts with 'C'.
    assert_eq!(
        p.parse_sentence("!AIVDO,1,1,,A,C5N3SRgPEnJGEBT>NhWAwwo862PaLELTBJ:V00000000S0D:R220,0"),
        Err(ParseError::UnsupportedSentenceType(
            "Unsupported AIVDM message type: 19".to_string()
        ))
    );
}

#[test]
fn own_vessel_is_told_by_vdo() {
    let mut p = NmeaParser::new();
    match p.parse_sentence("!AIVDO,1,1,,A,15RTgt0PAso;90TKcjM8h6g208CQ,0") {
        Ok(ParsedMessage::VesselDynamicData(vdd)) => {
            assert!(vdd.own_vessel);
            assert_eq!(vdd.station, Station::MobileStation);
        }
        other => panic!("unexpected result: {:?}", other),
    }
    match p.parse_sentence("!ABVDM,1,1,,A,15RTgt0PAso;90TKcjM8h6g208CQ,0") {
        Ok(ParsedMessage::VesselDynamicData(vdd)) => {
            assert!(!vdd.own_vessel);
            assert_eq!(vdd.station, Station::BaseStation);
        }
        other => panic!("unexpected result: {:?}", other),
    }
}

#[test]
fn checksum_round_trip_and_corruption() {
    let body = "!AIVDM,1,1,,A,15RTgt0PAso;90TKcjM8h6g208CQ,0";
    let mut sum: u8 = 0;
    for b in body.bytes().skip(1) {
        sum ^= b;
    }
    assert_eq!(sum, 0x4A);
    let line = format!("{}*{:02X}", body, sum);
    assert!(frame(&line).is_ok());

    // Any single changed character of the body is found out.
    let bytes = line.as_bytes();
    for i in 1..body.len() {
        let mut changed = bytes.to_vec();
        changed[i] = if changed[i] == b'0' { b'1' } else { b'0' };
        let changed = String::from_utf8(changed).unwrap();
        match frame(&changed) {
            Err(ParseError::CorruptedSentence(_)) => {}
            other => panic!("position {}: {:?}", i, other),
        }
    }
    assert_eq!(
        frame("!AIVDM,1,1,,A,15RTgt0PAso;90TKcjM8h6g208CQ,0*4B"),
        Err(ParseError::CorruptedSentence(
            "Corrupted NMEA sentence: \"4A\" != \"4B\"".to_string()
        ))
    );
    // A checksum in lower case is not the one computed.
    assert!(frame("!AIVDM,1,1,,A,15RTgt0PAso;90TKcjM8h6g208CQ,0*4a").is_err());
    // A checksum of one character is not checked.
    assert!(frame("!AIVDM,1,1,,A,15RTgt0PAso;90TKcjM8h6g208CQ,0*4").is_ok());
}

#[test]
fn frame_tells_talker_and_type() {
    let s = frame("$GPGGA,123519,4807.038,N,01131.000,E,1,08,0.9,545.4,M,46.9,M,,*47").unwrap();
    assert_eq!(s.sentence_type, "$GGA");
    assert_eq!(s.nav_system, NavigationSystem::Gps);
    assert_eq!(s.station, Station::Other);
    assert_eq!(s.fields.len(), 15);
    assert_eq!(s.fields[0], "$GPGGA");
    assert_eq!(s.fields[14], "");
    assert_eq!(s.body, "$GPGGA,123519,4807.038,N,01131.000,E,1,08,0.9,545.4,M,46.9,M,,");
    assert_eq!(s.trailing, "47");
    assert_eq!(frame("!AIVDM,1,1,,B,;4R33:1uUK2F`q?mOt@@GoQ00000,0*5D,s28089,d-103").unwrap().trailing, "5D,s28089,d-103");
    assert_eq!(frame("$GPSTN,23").unwrap().trailing, "");

    let s = frame("!XXVDM,1,1,,A,15RTgt0PAso;90TKcjM8h6g208CQ,0").unwrap();
    assert_eq!(s.sentence_type, "!VDM");
    assert_eq!(s.station, Station::Other);
    assert_eq!(s.nav_system, NavigationSystem::Other);

    let s = frame("$QZGGA,").unwrap();
    assert_eq!(s.nav_system, NavigationSystem::Qzss);
    let s = frame("$XXGGA,").unwrap();
    assert_eq!(s.nav_system, NavigationSystem::Other);
    let s = frame("$PXYZ,").unwrap();
    assert_eq!(s.nav_system, NavigationSystem::Proprietary);
    assert_eq!(s.sentence_type, "$PXYZ");

    assert_eq!(
        frame("no comma at all"),
        Err(ParseError::InvalidSentence("Invalid NMEA sentence: no comma at all".to_string()))
    );
    assert_eq!(
        frame("!A,1"),
        Err(ParseError::InvalidSentence("Invalid station identifier".to_string()))
    );
    // A line without a marker is framed, and of no known type.
    let s = frame(",1,2").unwrap();
    assert_eq!(s.sentence_type, "");
    let mut p = NmeaParser::new();
    assert_eq!(
        p.parse_sentence(",1,2"),
        Err(ParseError::UnsupportedSentenceType("Unsupported sentence type: ".to_string()))
    );
}

#[test]
fn error_messages_name_their_kind() {
    assert_eq!(
        ParseError::UnsupportedSentenceType("x".to_string()).message(),
        "Unsupported NMEA sentence type: x"
    );
    assert_eq!(
        ParseError::CorruptedSentence("x".to_string()).message(),
        "Corrupted NMEA sentence: x"
    );
    assert_eq!(
        ParseError::InvalidSentence("x".to_string()).message(),
        "Invalid NMEA sentence: x"
    );
    assert_eq!(
        ParseError::from("x".to_string()),
        ParseError::InvalidSentence("x".to_string())
    );
}

#[test]
fn degenerate_lines() {
    let mut p = NmeaParser::new();
    assert_eq!(
        p.parse_sentence(""),
        Err(ParseError::InvalidSentence("Invalid NMEA sentence: ".to_string()))
    );
    assert_eq!(
        p.parse_sentence("*"),
        Err(ParseError::InvalidSentence("Invalid NMEA sentence: ".to_string()))
    );
    assert_eq!(
        p.parse_sentence("$"),
        Err(ParseError::InvalidSentence("Invalid NMEA sentence: $".to_string()))
    );
    assert_eq!(
        p.parse_sentence(","),
        Err(ParseError::UnsupportedSentenceType("Unsupported sentence type: ".to_string()))
    );
    assert_eq!(
        p.parse_sentence("$,"),
        Err(ParseError::InvalidSentence("Invalid talker identifier".to_string()))
    );
    assert_eq!(
        p.parse_sentence("!,"),
        Err(ParseError::InvalidSentence("Invalid station identifier".to_string()))
    );
    assert_eq!(
        p.parse_sentence("!AIVDM,"),
        Err(ParseError::InvalidSentence("Failed to parse fragment count: ".to_string()))
    );
    assert_eq!(
        p.parse_sentence("!AIVDM,1"),
        Err(ParseError::UnsupportedSentenceType(
            "Unsupported !VDM message type: 0".to_string()
        ))
    );
    assert_eq!(
        p.parse_sentence("!AIVDM,1,"),
        Err(ParseError::InvalidSentence("Failed to parse fragment count: ".to_string()))
    );
    // The last `*` counts, and the checksum is of what stands before it.
    assert!(matches!(
        p.parse_sentence("$GP*GA,1*00"),
        Err(ParseError::CorruptedSentence(_))
    ));
    assert_eq!(
        p.parse_sentence("**"),
        Err(ParseError::InvalidSentence("Invalid NMEA sentence: *".to_string()))
    );
    assert_eq!(p.strings_count(), 0);
    assert_eq!(p.vsds_count(), 0);
}

/// A small generator of numbers, the same on every run.
fn next(state: &mut u64) -> u64 {
    *state = state
        .wrapping_mul(6364136223846793005)
        .wrapping_add(1442695040888963407);
    *state >> 33
}

#[test]
fn no_line_makes_the_parser_panic() {
    let heads = [
        "!AIVDM", "!AIVDO", "$GPGGA", "$GPRMC", "$GNGNS", "$GPGSA", "$GPGSV", "$GPVTG", "$GPGLL",
        "$GPALM", "$GPDTM", "$GPMSS", "$GPSTN", "$GPVBW", "$GPZDA", "$SDDPT", "$SDDBS", "$INMTW",
        "$IIVHW", "$IIHDT", "$WIMWV", "$PXYZ", "!", "$", "",
    ];
    let pieces = [
        "", "1", "2", "3", "A", "B", "V", "N", "S", "E", "W", "M", "K", "T", "R", "0.5", "-1.25",
        "4807.038", "01131.000", "123519", "123519.25", "191120", "311299", "ff", "FFFF", "+",
        "-", ".", "x", "999999999999999999999", "15RTgt0PAso;90TKcjM8h6g208CQ",
        "55?MbV02;H;s<HtKR20EHE:0@T4@Dn2222222216L961O5Gf0NSQEp6ClRp8", "88888888880",
        "H42O55i18tMET00000000000000", "H42O55lti4hhhilD3nink000?050", "403OviQuMGCqWrRO9>E6fE700@GO",
        "w", "wwwwwwwwwwwwwwwwwwwwwwwwwwwwwwwwwwwwwwwwwwwwwwwwwwwwwwwwwwww", " ", "~", "\u{1}",
    ];
    let mut state: u64 = 2024;
    let mut p = NmeaParser::new();
    let mut results = [0usize; 3];
    for round in 0..20000 {
        let mut line = String::from(heads[(next(&mut state) % heads.len() as u64) as usize]);
        let fields = next(&mut state) % 20;
        for _ in 0..fields {
            line.push(',');
            // The first armored character of a payload picks the message type.
            if next(&mut state) % 8 == 0 {
                line.push((48 + (next(&mut state) % 40) as u8) as char);
            }
            line.push_str(pieces[(next(&mut state) % pieces.len() as u64) as usize]);
        }
        match next(&mut state) % 4 {
            0 => {
                let mut sum: u8 = 0;
                for b in line.bytes().skip(1) {
                    sum ^= b;
                }
                line.push_str(&format!("*{:02X}", sum));
            }
            1 => line.push_str("*00"),
            2 => line.push('*'),
            _ => {}
        }
        assert!(line.is_ascii());
        match p.parse_sentence(&line) {
            Ok(ParsedMessage::Incomplete) => results[0] += 1,
            Ok(_) => results[1] += 1,
            Err(e) => {
                results[2] += 1;
                assert!(!e.message().is_empty());
            }
        }
        if round % 997 == 0 {
            p.reset();
        }
    }
    assert!(results[0] > 0 && results[1] > 0 && results[2] > 0, "{:?}", results);
}

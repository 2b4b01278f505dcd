use nmea_parser::{NmeaParser, ParsedMessage, ParseError};
use nmea_parser::datetime::{UtcDateTime, UtcOffset};
use nmea_parser::decimal::Decimal;
use nmea_parser::gnss::{
    FaaMode, GgaQualityIndicator, GnsModeIndicator, GsaFixMode, NavigationSystem, SpeedUnit,
};
use nmea_parser::position::Coordinate;

fn parse(p: &mut NmeaParser, s: &str) -> ParsedMessage {
    match p.parse_sentence(s) {
        Ok(m) => m,
        Err(e) => panic!("{}", e.message()),
    }
}

fn close(a: f64, b: f64, eps: f64) {
    assert!((a - b).abs() <= eps, "{} is not within {} of {}", a, eps, b);
}

fn utc(year: i32, month: u32, day: u32, hour: u32, minute: u32, second: u32) -> UtcDateTime {
    UtcDateTime { year, month, day, hour, minute, second, nanosecond: 0 }
}

fn number(d: Decimal) -> f64 {
    let v = (d.digits as f64) / 10f64.powi(d.scale as i32);
    if d.negative {
        -v
    } else {
        v
    }
}

fn num(d: Option<Decimal>) -> Option<f64> {
    d.map(number)
}

fn degrees(c: Option<Coordinate>) -> Option<f64> {
    c.map(|c| {
        let v = (c.degrees as f64) + number(c.minutes) / 60.0;
        if c.negative {
            -v
        } else {
            v
        }
    })
}

#[test]
fn test_parse_cpalm() {
    match parse(
        &mut NmeaParser::new(),
        "$GPALM,31,1,02,1617,00,50F6,0F,FD98,FD39,A10CF3,81389B,423632,BD913C,148,001*",
    ) {
        ParsedMessage::Alm(alm) => {
            assert_eq!(alm.source, NavigationSystem::Gps);
            assert_eq!(alm.prn, Some(2));
            assert_eq!(alm.week_number, Some(535));
            assert_eq!(alm.health_bits, Some(0));
            assert_eq!(alm.eccentricity, Some(0x50F6));
            assert_eq!(alm.reference_time, Some(0x0f));
            assert_eq!(alm.sigma, Some(0xfd98));
            assert_eq!(alm.omega_dot, Some(0xfd39));
            assert_eq!(alm.root_a, Some(0xa10cf3));
            assert_eq!(alm.omega, Some(0x81389b));
            assert_eq!(alm.omega_o, Some(0x423632));
            assert_eq!(alm.mo, Some(0xbd913c));
            assert_eq!(alm.af0, Some(0x148));
            assert_eq!(alm.af1, Some(0x001));
        }
        other => panic!("unexpected result: {:?}", other),
    }
}

#[test]
fn dbs_test_parse_dpt() {
    match parse(&mut NmeaParser::new(), "$SDDBS,16.9,f,5.2,M,2.8,F*32") {
        ParsedMessage::Dbs(dbs) => {
            assert_eq!(num(dbs.depth_meters), Some(5.2));
            assert_eq!(num(dbs.depth_feet), Some(16.9));
            assert_eq!(num(dbs.depth_fathoms), Some(2.8))
        }
        other => panic!("unexpected result: {:?}", other),
    }
}

#[test]
fn dpt_test_parse_dpt() {
    match parse(&mut NmeaParser::new(), "$SDDPT,17.5,0.3*67") {
        ParsedMessage::Dpt(dpt) => {
            assert_eq!(num(dpt.depth_relative_to_transducer), Some(17.5));
            assert_eq!(num(dpt.transducer_offset), Some(0.3));
        }
        other => panic!("unexpected result: {:?}", other),
    }
}

#[test]
fn test_parse_cpdtm() {
    match parse(&mut NmeaParser::new(), "$GPDTM,999,,0.002,S,0.005,E,005.8,W84*1A") {
        ParsedMessage::Dtm(dtm) => {
            assert_eq!(dtm.source, NavigationSystem::Gps);
            assert_eq!(dtm.datum_id, Some("999".into()));
            assert_eq!(dtm.datum_sub_id, None);
            close(num(dtm.lat_offset).map(|m| m / 60.0).unwrap_or(0.0), -0.000033, 0.000001);
            close(num(dtm.lon_offset).map(|m| m / 60.0).unwrap_or(0.0), 0.000083, 0.000001);
            assert_eq!(num(dtm.alt_offset), Some(5.8));
            assert_eq!(dtm.ref_datum_id, Some("W84".into()));
        }
        other => panic!("unexpected result: {:?}", other),
    }
}

fn check_gga_fix(m: ParsedMessage) {
    match m {
        ParsedMessage::Gga(gga) => {
            assert_eq!(gga.timestamp, Some(utc(2000, 1, 1, 12, 35, 19)));
            close(degrees(gga.latitude).unwrap_or(0.0), 48.117, 0.001);
            close(degrees(gga.longitude).unwrap_or(0.0), 11.517, 0.001);
            assert_eq!(gga.quality, GgaQualityIndicator::GpsFix);
            assert_eq!(gga.satellite_count.unwrap_or(0), 8);
            close(num(gga.hdop).unwrap_or(0.0), 0.9, 0.1);
            close(num(gga.altitude).unwrap_or(0.0), 545.4, 0.1);
            close(num(gga.geoid_separation).unwrap_or(0.0), 46.9, 0.1);
            assert_eq!(gga.age_of_dgps, None);
            assert_eq!(gga.ref_station_id, None);
        }
        other => panic!("unexpected result: {:?}", other),
    }
}

fn check_gga_southwest(m: ParsedMessage) {
    match m {
        ParsedMessage::Gga(gga) => {
            assert_eq!((degrees(gga.latitude).unwrap_or(0.0) * 1000.0).round() as i32, -48117);
            assert_eq!((degrees(gga.longitude).unwrap_or(0.0) * 1000.0).round() as i32, -11517);
        }
        other => panic!("unexpected result: {:?}", other),
    }
}

fn check_gga_empty(m: ParsedMessage) {
    match m {
        ParsedMessage::Gga(gga) => {
            assert_eq!(gga.timestamp, Some(utc(2000, 1, 1, 12, 35, 19)));
            assert_eq!(gga.latitude, None);
            assert_eq!(gga.longitude, None);
            assert_eq!(gga.quality, GgaQualityIndicator::Invalid);
            assert_eq!(gga.satellite_count, None);
            assert_eq!(gga.hdop, None);
            assert_eq!(gga.altitude, None);
            assert_eq!(gga.geoid_separation, None);
            assert_eq!(gga.age_of_dgps, None);
            assert_eq!(gga.ref_station_id, None);
        }
        other => panic!("unexpected result: {:?}", other),
    }
}

#[test]
fn gga_test_parse_cpgga() {
    let mut p = NmeaParser::new();
    check_gga_fix(parse(
        &mut p,
        "$GPGGA,123519,4807.038,N,01131.000,E,1,08,0.9,545.4,M,46.9,M,,*47",
    ));
    check_gga_southwest(parse(
        &mut p,
        "$GPGGA,123519,4807.0,S,01131.0,W,1,08,0.9,545.4,M,46.9,M,,",
    ));
    check_gga_empty(parse(&mut p, "$GPGGA,123519,,,,,,,,,,,,,*5B"));
}

#[test]
fn gnss_gga_test_parse_cpgga() {
    check_gga_fix(parse(
        &mut NmeaParser::new(),
        "$GPGGA,123519,4807.038,N,01131.000,E,1,08,0.9,545.4,M,46.9,M,,*47",
    ));
}

#[test]
fn test_parse_cpgga_southwest() {
    check_gga_southwest(parse(
        &mut NmeaParser::new(),
        "$GPGGA,123519,4807.0,S,01131.0,W,1,08,0.9,545.4,M,46.9,M,,",
    ));
}

#[test]
fn test_parse_cpgga_empty_fields() {
    check_gga_empty(parse(&mut NmeaParser::new(), "$GPGGA,123519,,,,,,,,,,,,,*5B"));
}

#[test]
fn test_parse_gagll() {
    let mut p = NmeaParser::new();
    match parse(&mut p, "$GAGLL,4916.45,N,12311.12,W,225444,A,D*48") {
        ParsedMessage::Gll(gll) => {
            assert_eq!(gll.source, NavigationSystem::Galileo);
            close(degrees(gll.latitude).unwrap_or(0.0), 49.3, 0.1);
            close(degrees(gll.longitude).unwrap_or(0.0), -123.2, 0.1);
            assert_eq!(gll.timestamp, Some(utc(2000, 1, 1, 22, 54, 44)));
            assert_eq!(gll.data_valid, Some(true));
            assert_eq!(gll.faa_mode, Some(FaaMode::Differential));
        }
        other => panic!("unexpected result: {:?}", other),
    }
}

#[test]
fn test_parse_cpgns() {
    let mut p = NmeaParser::new();
    match parse(
        &mut p,
        "$GNGNS,090310.00,4806.891632,N,01134.134167,E,AAN,10,1.0,532.4,47.0,,,V*68",
    ) {
        ParsedMessage::Gns(gns) => {
            assert_eq!(gns.timestamp, Some(utc(2000, 1, 1, 9, 3, 10)));
            close(degrees(gns.latitude).unwrap_or(0.0), 48.114, 0.001);
            close(degrees(gns.longitude).unwrap_or(0.0), 11.569, 0.001);
            assert_eq!(gns.gps_mode, GnsModeIndicator::Autonomous);
            assert_eq!(gns.glonass_mode, GnsModeIndicator::Autonomous);
            assert_eq!(gns.other_modes[0], GnsModeIndicator::Invalid);
            assert_eq!(gns.satellite_count.unwrap_or(0), 10);
            close(num(gns.hdop).unwrap_or(0.0), 0.9, 0.1);
            close(num(gns.altitude).unwrap_or(0.0), 532.4, 0.1);
            close(num(gns.geoid_separation).unwrap_or(0.0), 47.0, 0.1);
            assert_eq!(gns.age_of_dgps, None);
            assert_eq!(gns.ref_station_id, None);
        }
        other => panic!("unexpected result: {:?}", other),
    }
    match parse(&mut p, "$GPGNS,123519,,,,,,,,,,,,,*40") {
        ParsedMessage::Gns(gns) => {
            assert_eq!(gns.timestamp, Some(utc(2000, 1, 1, 12, 35, 19)));
            assert_eq!(gns.latitude, None);
            assert_eq!(gns.longitude, None);
            assert_eq!(gns.gps_mode, GnsModeIndicator::Invalid);
            assert_eq!(gns.glonass_mode, GnsModeIndicator::Invalid);
            assert!(gns.other_modes.is_empty());
            assert_eq!(gns.satellite_count, None);
            assert_eq!(gns.hdop, None);
            assert_eq!(gns.altitude, None);
            assert_eq!(gns.geoid_separation, None);
            assert_eq!(gns.age_of_dgps, None);
            assert_eq!(gns.ref_station_id, None);
        }
        other => panic!("unexpected result: {:?}", other),
    }
}

fn check_gsa(m: ParsedMessage) {
    match m {
        ParsedMessage::Gsa(gsa) => {
            assert_eq!(gsa.mode1_automatic, Some(true));
            assert_eq!(gsa.mode2_3d, Some(GsaFixMode::Fix3D));
            assert_eq!(gsa.prn_numbers, vec![19, 28, 14, 18, 27, 22, 31, 39]);
            assert_eq!(num(gsa.pdop), Some(1.7));
            assert_eq!(num(gsa.hdop), Some(1.0));
            assert_eq!(num(gsa.vdop), Some(1.3));
        }
        other => panic!("unexpected result: {:?}", other),
    }
}

#[test]
fn gsa_test_parse_gpgsa() {
    check_gsa(parse(
        &mut NmeaParser::new(),
        "$GPGSA,A,3,19,28,14,18,27,22,31,39,,,,,1.7,1.0,1.3*34",
    ));
}

#[test]
fn gnss_gsa_test_parse_gpgsa() {
    check_gsa(parse(
        &mut NmeaParser::new(),
        "$GPGSA,A,3,19,28,14,18,27,22,31,39,,,,,1.7,1.0,1.3*34",
    ));
}

#[test]
fn test_parse_cpgsv() {
    let mut p = NmeaParser::new();

    assert_eq!(
        parse(&mut p, "$GPGSV,3,1,11,03,03,111,00,04,15,270,00,06,01,010,00,13,06,292,00*74"),
        ParsedMessage::Incomplete
    );
    assert_eq!(p.strings_count(), 1);

    assert_eq!(
        parse(&mut p, "$GPGSV,3,2,11,14,25,170,00,16,57,208,39,18,67,296,40,19,40,246,00*74"),
        ParsedMessage::Incomplete
    );
    assert_eq!(p.strings_count(), 2);

    match parse(&mut p, "$GPGSV,3,3,11,22,42,067,42,24,14,311,43,27,05,244,00,,,,*4D") {
        ParsedMessage::Gsv(v) => {
            assert_eq!(v.len(), 11);

            // 2nd satellite
            let s2 = v.get(1).unwrap();
            assert_eq!(s2.elevation, Some(15));
            assert_eq!(s2.azimuth, Some(270));
            assert_eq!(s2.snr, Some(0));

            // 5th satellite
            let s5 = v.get(4).unwrap();
            assert_eq!(s5.elevation, Some(25));
            assert_eq!(s5.azimuth, Some(170));
            assert_eq!(s5.snr, Some(0));

            // 11th satellite
            let s11 = v.get(10).unwrap();
            assert_eq!(s11.elevation, Some(5));
            assert_eq!(s11.azimuth, Some(244));
            assert_eq!(s11.snr, Some(0));
        }
        other => {
            assert_eq!(p.strings_count(), 3);
            panic!("unexpected result: {:?}", other);
        }
    }
    assert_eq!(p.strings_count(), 0);
}

#[test]
fn test_parse_hdt() {
    match parse(&mut NmeaParser::new(), "$IIHDT,15.0,T*16") {
        ParsedMessage::Hdt(hdt) => {
            assert_eq!(num(hdt.heading_true), Some(15.0))
        }
        other => panic!("unexpected result: {:?}", other),
    }
}

#[test]
fn test_parse_cpmss() {
    match parse(&mut NmeaParser::new(), "$GPMSS,55,27,318.0,100,1*57") {
        ParsedMessage::Mss(mss) => {
            assert_eq!(mss.source, NavigationSystem::Gps);
            assert_eq!(mss.ss, Some(55));
            assert_eq!(mss.snr, Some(27));
            assert_eq!(num(mss.frequency), Some(318.0));
            assert_eq!(mss.bit_rate, Some(100));
            assert_eq!(mss.channel, Some(1));
        }
        other => panic!("unexpected result: {:?}", other),
    }
}

#[test]
fn mtw_test_parse_dpt() {
    match parse(&mut NmeaParser::new(), "$INMTW,17.9,C*1B") {
        ParsedMessage::Mtw(mtw) => {
            assert_eq!(num(mtw.temperature), Some(17.9))
        }
        other => panic!("unexpected result: {:?}", other),
    }
}

/// Wind speed in knots, of the speed and the unit it is given in.
fn knots(speed: Option<Decimal>, unit: Option<SpeedUnit>) -> Option<f64> {
    match unit {
        Some(SpeedUnit::Knots) => num(speed),
        Some(SpeedUnit::MetersPerSecond) => Some(num(speed).unwrap() * 1.943844),
        Some(SpeedUnit::KilometersPerHour) => Some(num(speed).unwrap() * 0.539957),
        None => None,
    }
}

/// Wind speed in kilometres an hour, of the speed and the unit it is given in.
fn kmh(speed: Option<Decimal>, unit: Option<SpeedUnit>) -> Option<f64> {
    match unit {
        Some(SpeedUnit::Knots) => Some(num(speed).unwrap() * 1.852),
        Some(SpeedUnit::MetersPerSecond) => Some(num(speed).unwrap() * 3.6),
        Some(SpeedUnit::KilometersPerHour) => num(speed),
        None => None,
    }
}

#[test]
fn test_parse_mwv() {
    match parse(&mut NmeaParser::new(), "$WIMWV,295.4,T,33.3,N,A*1C") {
        ParsedMessage::Mwv(mwv) => {
            assert_eq!(num(mwv.wind_angle), Some(295.4));
            assert_eq!(mwv.relative, Some(false));
            assert_eq!(knots(mwv.wind_speed, mwv.wind_speed_unit), Some(33.3));
            assert_eq!(kmh(mwv.wind_speed, mwv.wind_speed_unit), Some(33.3 * 1.852));
        }
        other => panic!("unexpected result: {:?}", other),
    }
}

#[test]
fn test_parse_cprmc() {
    match parse(
        &mut NmeaParser::new(),
        "$GPRMC,225446,A,4916.45,N,12311.12,W,000.5,054.7,191120,020.3,E*67",
    ) {
        ParsedMessage::Rmc(rmc) => {
            assert_eq!(rmc.status_active, Some(true));
            assert_eq!(rmc.timestamp, Some(utc(2020, 11, 19, 22, 54, 46)));
            assert_eq!(num(rmc.speed_knots).unwrap(), 0.5);
            close(num(rmc.bearing).unwrap_or(0.0), 54.7, 0.1);
            assert_eq!(num(rmc.variation).unwrap(), 20.3);
        }
        other => panic!("unexpected result: {:?}", other),
    }
}

#[test]
fn test_parse_cprmc_empty_fields() {
    match parse(&mut NmeaParser::new(), "$GPRMC,225446,A,,,,,,,070809,,*23") {
        ParsedMessage::Rmc(rmc) => {
            assert_eq!(rmc.status_active, Some(true));
            assert_eq!(rmc.timestamp, Some(utc(2009, 8, 7, 22, 54, 46)));
            assert_eq!(rmc.speed_knots, None);
            assert_eq!(rmc.bearing, None);
            assert_eq!(rmc.variation, None);
        }
        other => panic!("unexpected result: {:?}", other),
    }
}

#[test]
fn test_parse_cpstn() {
    match parse(&mut NmeaParser::new(), "$GPSTN,23") {
        ParsedMessage::Stn(stn) => {
            assert_eq!(stn.source, NavigationSystem::Gps);
            assert_eq!(stn.talker_id, Some(23));
        }
        other => panic!("unexpected result: {:?}", other),
    }
}

#[test]
fn test_parse_cpvbw() {
    match parse(&mut NmeaParser::new(), "$GPVBW,2.0,1.5,A,2.1,1.6,X") {
        ParsedMessage::Vbw(vbw) => {
            assert_eq!(vbw.source, NavigationSystem::Gps);
            close(num(vbw.lon_water_speed_knots).unwrap_or(0.0), 2.0, 0.1);
            close(num(vbw.tr_water_speed_knots).unwrap_or(0.0), 1.5, 0.1);
            assert_eq!(vbw.water_speed_valid, Some(true));
            close(num(vbw.lon_ground_speed_knots).unwrap_or(0.0), 2.1, 0.1);
            close(num(vbw.tr_ground_speed_knots).unwrap_or(0.0), 1.6, 0.1);
            assert_eq!(vbw.ground_speed_valid, Some(false));
        }
        other => panic!("unexpected result: {:?}", other),
    }
}

#[test]
fn test_parse_vhw() {
    match parse(&mut NmeaParser::new(), "$IIVHW,15.0,T,15.0,M,6.3,N,11.8,K*68") {
        ParsedMessage::Vhw(vhw) => {
            assert_eq!(num(vhw.heading_true), Some(15.0));
            assert_eq!(num(vhw.heading_magnetic), Some(15.0));
            assert_eq!(num(vhw.speed_through_water_knots), Some(6.3));
            assert_eq!(num(vhw.speed_through_water_kmh), Some(11.8));
        }
        other => panic!("unexpected result: {:?}", other),
    }
}

fn check_vtg(m: ParsedMessage) {
    match m {
        ParsedMessage::Vtg(vtg) => {
            assert_eq!(vtg.source, NavigationSystem::Beidou);
            close(num(vtg.cog_true).unwrap_or(0.0), 54.7, 0.1);
            close(num(vtg.cog_magnetic).unwrap_or(0.0), 34.4, 0.1);
            close(num(vtg.sog_knots).unwrap_or(0.0), 5.5, 0.1);
            close(num(vtg.sog_kph).unwrap_or(0.0), 10.2, 0.1);
            assert_eq!(vtg.faa_mode, Some(FaaMode::Differential));
        }
        other => panic!("unexpected result: {:?}", other),
    }
}

#[test]
fn vtg_test_parse_bdvtg() {
    check_vtg(parse(&mut NmeaParser::new(), "$BDVTG,054.7,T,034.4,M,005.5,N,010.2,K,D*31"));
}

#[test]
fn gnss_vtg_test_parse_bdvtg() {
    check_vtg(parse(&mut NmeaParser::new(), "$BDVTG,054.7,T,034.4,M,005.5,N,010.2,K,D*31"));
}

#[test]
fn test_parse_cpzda() {
    match parse(&mut NmeaParser::new(), "$GPZDA,072914.00,31,05,2018,-03,00") {
        ParsedMessage::Zda(zda) => {
            assert_eq!(zda.source, NavigationSystem::Gps);
            assert_eq!(zda.timestamp_utc, Some(utc(2018, 5, 31, 7, 29, 14)));
            assert_eq!(zda.timezone_local, Some(UtcOffset { seconds: -3 * 3600 }));
        }
        other => panic!("unexpected result: {:?}", other),
    }
}

#[test]
fn gnss_fields_that_cannot_be_read() {
    let mut p = NmeaParser::new();
    assert_eq!(
        p.parse_sentence("$GPGGA,123519,4807.038,N,01131.000,E,1,x8,0.9,545.4,M,46.9,M,,"),
        Err(ParseError::InvalidSentence("Failed to parse field 7: x8".to_string()))
    );
    assert_eq!(
        p.parse_sentence("$GPGGA,123519,48.038,N,01131.000,E,1,08,0.9,545.4,M,46.9,M,,"),
        Err(ParseError::InvalidSentence(
            "Failed to parse latitude (DDMM.MMM) from 48.038".to_string()
        ))
    );
    assert_eq!(
        p.parse_sentence("$GPRMC,225446,X,,,,,,,070809,,"),
        Err(ParseError::InvalidSentence(
            "Invalid RMC navigation receiver status: X".to_string()
        ))
    );
    assert_eq!(
        p.parse_sentence("$GPRMC,225446,A,,,,,,,070809,1.5,Q"),
        Err(ParseError::InvalidSentence("Invalid RMC variation side: Q".to_string()))
    );
    match p.parse_sentence("$GPRMC,225446,V,,,,,,,070809,1.5,W") {
        Ok(ParsedMessage::Rmc(rmc)) => {
            assert_eq!(rmc.status_active, Some(false));
            assert_eq!(num(rmc.variation), Some(-1.5));
        }
        other => panic!("unexpected result: {:?}", other),
    }
    assert_eq!(
        p.parse_sentence("$GPGSA,X,3"),
        Err(ParseError::InvalidSentence("Invalid GPGSA mode: X".to_string()))
    );
    assert_eq!(
        p.parse_sentence("$GPGSA,M,4"),
        Err(ParseError::InvalidSentence("Invalid GPGSA fix type: 4".to_string()))
    );
    assert_eq!(
        p.parse_sentence("$GPGSA,M,1,1,2,300"),
        Err(ParseError::InvalidSentence("Failed to parse field 5: 300".to_string()))
    );
    assert_eq!(
        p.parse_sentence("$GPALM,31,1,0G"),
        Err(ParseError::InvalidSentence("Failed to parse hex field 3: 0G".to_string()))
    );
    assert_eq!(
        p.parse_sentence("$GPALM,31,1,100"),
        Err(ParseError::InvalidSentence("Failed to parse hex field 3: 100".to_string()))
    );
    assert_eq!(
        p.parse_sentence("$GPZDA,072914.00,31,02,2018,-03,00"),
        Err(ParseError::InvalidSentence(
            "Failed to parse Utc Date from y:2018 m:2 d:31 h:0 m:0 s:0".to_string()
        ))
    );
    assert_eq!(
        p.parse_sentence("$GPGSV,x,1"),
        Err(ParseError::InvalidSentence("Failed to parse field 1: x".to_string()))
    );
    assert_eq!(p.strings_count(), 0);
    assert_eq!(FaaMode::new("E"), Ok(FaaMode::Estimated));
    assert_eq!(
        FaaMode::new("S"),
        Err("Unrecognized FAA information value: S".to_string())
    );
    assert_eq!(GgaQualityIndicator::new(8), GgaQualityIndicator::SimulationMode);
    assert_eq!(GgaQualityIndicator::new(9), GgaQualityIndicator::Invalid);
    assert_eq!(GnsModeIndicator::new('F'), GnsModeIndicator::RealTimeKinematicFloat);
    assert_eq!(GnsModeIndicator::new('x'), GnsModeIndicator::Invalid);
}

#[test]
fn wind_speed_is_read_where_its_unit_is_known() {
    let mut p = NmeaParser::new();
    match p.parse_sentence("$WIMWV,,R,x,Q,A") {
        Ok(ParsedMessage::Mwv(mwv)) => {
            assert_eq!(mwv.wind_angle, None);
            assert_eq!(mwv.relative, Some(true));
            assert_eq!(mwv.wind_speed, None);
            assert_eq!(mwv.wind_speed_unit, None);
        }
        other => panic!("unexpected result: {:?}", other),
    }
    match p.parse_sentence("$WIMWV,1,X,2.5,K,A") {
        Ok(ParsedMessage::Mwv(mwv)) => {
            assert_eq!(mwv.relative, None);
            assert_eq!(mwv.wind_speed_unit, Some(SpeedUnit::KilometersPerHour));
            assert_eq!(num(mwv.wind_speed), Some(2.5));
        }
        other => panic!("unexpected result: {:?}", other),
    }
    assert_eq!(
        p.parse_sentence("$WIMWV,1,R,x,M,A"),
        Err(ParseError::InvalidSentence("Failed to parse field 3: x".to_string()))
    );
}

#[test]
fn satellites_of_single_sentence_series() {
    let mut p = NmeaParser::new();
    match p.parse_sentence("$GLGSV,1,1,02,65,,,,70,45,300,") {
        Ok(ParsedMessage::Gsv(v)) => {
            assert_eq!(v.len(), 2);
            assert_eq!(v[0].source, NavigationSystem::Glonass);
            assert_eq!(v[0].prn_number, 65);
            assert_eq!(v[0].elevation, None);
            assert_eq!(v[0].azimuth, None);
            assert_eq!(v[0].snr, None);
            assert_eq!(v[1].prn_number, 70);
            assert_eq!(v[1].elevation, Some(45));
            assert_eq!(v[1].azimuth, Some(300));
            assert_eq!(v[1].snr, None);
        }
        other => panic!("unexpected result: {:?}", other),
    }
    assert_eq!(p.strings_count(), 0);
}

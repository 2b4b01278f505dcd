use nmea_parser::{NmeaParser, ParsedMessage};
use nmea_parser::ais::{
    AisClass, CargoType, NavAidType, NavigationStatus, PositionFixType, PositioningSystemMeta,
    RotDirection, ShipType,
};
use nmea_parser::datetime::UtcDateTime;

fn parse(p: &mut NmeaParser, s: &str) -> ParsedMessage {
    match p.parse_sentence(s) {
        Ok(m) => m,
        Err(e) => panic!("{}", e.message()),
    }
}

fn close(a: f64, b: f64, eps: f64) {
    assert!((a - b).abs() <= eps, "{} is not within {} of {}", a, eps, b);
}

/// Degrees of a position held in 1/10000 minute.
fn deg(v: Option<i32>) -> Option<f64> {
    v.map(|raw| (raw as f64) / 600000.0)
}

/// A quantity held in tenths.
fn tenths_u16(v: Option<u16>) -> Option<f64> {
    v.map(|raw| (raw as f64) * 0.1)
}

fn tenths_u32(v: Option<u32>) -> Option<f64> {
    v.map(|raw| (raw as f64) * 0.1)
}

/// Rate of turn in degrees a minute, of the sensor's indicator.
fn rot(v: Option<i8>) -> Option<f64> {
    v.map(|raw| {
        let r = raw as f64;
        if r < 0.0 {
            -((-r * 708.0 / 126.0) / 4.733).powi(2)
        } else {
            ((r * 708.0 / 126.0) / 4.733).powi(2)
        }
    })
}

fn utc(year: i32, month: u32, day: u32, hour: u32, minute: u32, second: u32) -> UtcDateTime {
    UtcDateTime { year, month, day, hour, minute, second, nanosecond: 0 }
}

#[test]
fn test_parse_vdm_type1() {
    let mut p = NmeaParser::new();
    match parse(&mut p, "!AIVDM,1,1,,A,15RTgt0PAso;90TKcjM8h6g208CQ,0*4A") {
        ParsedMessage::VesselDynamicData(vdd) => {
            assert_eq!(vdd.mmsi, 371798000);
            assert_eq!(vdd.nav_status, NavigationStatus::UnderWayUsingEngine);
            assert_eq!(rot(vdd.rot_indicator), None);
            assert_eq!(vdd.rot_direction, Some(RotDirection::Port));
            assert_eq!(tenths_u16(vdd.sog_knots10), Some(12.3));
            assert_eq!(vdd.high_position_accuracy, true);
            assert_eq!((deg(vdd.latitude_min10000).unwrap_or(0.0) * 10.0).round() as i32, 484);
            assert_eq!((deg(vdd.longitude_min10000).unwrap_or(0.0) * 10.0).round() as i32, -1234);
            assert_eq!(tenths_u32(vdd.cog10), Some(224.0));
            assert_eq!(vdd.heading_true.map(|h| h as f64), Some(215.0));
            assert_eq!(vdd.timestamp_seconds, 33);
            assert_eq!(vdd.positioning_system_meta, Some(PositioningSystemMeta::Operative));
            assert_eq!(vdd.special_manoeuvre, None);
            assert_eq!(vdd.raim_flag, false);
        }
        other => panic!("unexpected result: {:?}", other),
    }
}

#[test]
fn test_parse_vdm_type2() {
    let mut p = NmeaParser::new();
    match parse(&mut p, "!AIVDM,1,1,,A,16SteH0P00Jt63hHaa6SagvJ087r,0*42") {
        ParsedMessage::VesselDynamicData(vdd) => {
            assert_eq!(vdd.mmsi, 440348000);
            assert_eq!(vdd.nav_status, NavigationStatus::UnderWayUsingEngine);
            assert_eq!(rot(vdd.rot_indicator), None);
            assert_eq!(vdd.rot_direction, None);
            assert_eq!(tenths_u16(vdd.sog_knots10), Some(0.0));
            assert_eq!(vdd.high_position_accuracy, false);
            assert_eq!((deg(vdd.latitude_min10000).unwrap_or(0.0) * 10.0).round() as i32, 431);
            assert_eq!((deg(vdd.longitude_min10000).unwrap_or(0.0) * 10.0).round() as i32, -708);
            assert_eq!(tenths_u32(vdd.cog10), Some(93.4));
            assert_eq!(vdd.heading_true, None);
            assert_eq!(vdd.timestamp_seconds, 13);
            assert_eq!(vdd.positioning_system_meta, Some(PositioningSystemMeta::Operative));
            assert_eq!(vdd.special_manoeuvre, None);
            assert_eq!(vdd.raim_flag, false);
        }
        other => panic!("unexpected result: {:?}", other),
    }
}

#[test]
fn test_parse_vdm_type3() {
    let mut p = NmeaParser::new();
    match parse(&mut p, "!AIVDM,1,1,,A,38Id705000rRVJhE7cl9n;160000,0*40") {
        ParsedMessage::VesselDynamicData(vdd) => {
            assert_eq!(vdd.mmsi, 563808000);
            assert_eq!(vdd.nav_status, NavigationStatus::Moored);
            assert_eq!(rot(vdd.rot_indicator), Some(0.0));
            assert_eq!(vdd.rot_direction, Some(RotDirection::Center));
            assert_eq!(tenths_u16(vdd.sog_knots10), Some(0.0));
            assert_eq!(vdd.high_position_accuracy, true);
            close(deg(vdd.latitude_min10000).unwrap_or(0.0), 36.91, 0.01);
            close(deg(vdd.longitude_min10000).unwrap_or(0.0), -76.33, 0.01);
            assert_eq!(tenths_u32(vdd.cog10), Some(252.0));
            assert_eq!(vdd.heading_true.map(|h| h as f64), Some(352.0));
            assert_eq!(vdd.timestamp_seconds, 35);
            assert_eq!(vdd.positioning_system_meta, Some(PositioningSystemMeta::Operative));
            assert_eq!(vdd.special_manoeuvre, None);
            assert_eq!(vdd.raim_flag, false);
        }
        other => panic!("unexpected result: {:?}", other),
    }
}

#[test]
fn test_parse_vdm_type4() {
    let mut p = NmeaParser::new();
    match parse(&mut p, "!AIVDM,1,1,,A,403OviQuMGCqWrRO9>E6fE700@GO,0*4D") {
        ParsedMessage::BaseStationReport(bsr) => {
            assert_eq!(bsr.mmsi, 3669702);
            assert_eq!(bsr.timestamp, Some(utc(2007, 5, 14, 19, 57, 39)));
            assert_eq!(bsr.high_position_accuracy, true);
            close(deg(bsr.latitude_min10000).unwrap_or(0.0), 36.884, 0.001);
            close(deg(bsr.longitude_min10000).unwrap_or(0.0), -76.352, 0.001);
            assert_eq!(bsr.position_fix_type, Some(PositionFixType::Surveyed));
            assert_eq!(bsr.raim_flag, false);
            assert_eq!(bsr.radio_status, 67039);
        }
        other => panic!("unexpected result: {:?}", other),
    }
}

fn check_static_voyage_data(m: ParsedMessage) {
    match m {
        ParsedMessage::VesselStaticData(vsd) => {
            assert_eq!(vsd.mmsi, 351759000);
            assert_eq!(vsd.ais_version_indicator, 0);
            assert_eq!(vsd.imo_number, Some(9134270));
            assert_eq!(vsd.call_sign, Some("3FOF8".into()));
            assert_eq!(
                {
                    let callsign = vsd.call_sign.clone().unwrap_or("".into());
                    callsign.len()
                },
                5
            );
            assert_eq!(vsd.name, Some("EVER DIADEM".into()));
            assert_eq!(vsd.ship_type, ShipType::Cargo);
            assert_eq!(vsd.cargo_type, CargoType::Undefined);
            assert_eq!(vsd.dimension_to_bow, Some(225));
            assert_eq!(vsd.dimension_to_stern, Some(70));
            assert_eq!(vsd.dimension_to_port, Some(1));
            assert_eq!(vsd.dimension_to_starboard, Some(31));
            assert_eq!(vsd.position_fix_type, Some(PositionFixType::GPS));
            assert_eq!(vsd.eta, {
                if let Some(dt) = vsd.eta {
                    Some(utc(dt.year, 5, 15, 14, 0, 30))
                } else {
                    None
                }
            });
            assert!(vsd.eta.is_some());
            assert_eq!(vsd.draught10, Some(122));
            assert_eq!(vsd.destination, Some("NEW YORK".into()));
        }
        other => panic!("unexpected result: {:?}", other),
    }
}

#[test]
fn vdm_t5_test_parse_vdm_type5() {
    let mut store = NmeaParser::new();
    let s1 = "!AIVDM,2,1,1,A,55?MbV02;H;s<HtKR20EHE:0@T4@Dn2222222216L961O5Gf0NSQEp6ClRp8,0*1C";
    let s2 = "!AIVDM,2,2,1,A,88888888880,2*25";

    assert_eq!(parse(&mut store, s1), ParsedMessage::Incomplete);
    assert_eq!(store.strings_count(), 1);
    check_static_voyage_data(parse(&mut store, s2));
    assert_eq!(store.strings_count(), 0);

    assert_eq!(parse(&mut store, s2), ParsedMessage::Incomplete);
    assert_eq!(store.strings_count(), 1);
    check_static_voyage_data(parse(&mut store, s1));
    assert_eq!(store.strings_count(), 0);
}

#[test]
fn vdm_t6_test_parse_vdm_type5() {
    let mut p = NmeaParser::new();
    match parse(&mut p, "!AIVDM,1,1,,B,6B?n;be:cbapalgc;i6?Ow4,2*4A") {
        ParsedMessage::BinaryAddressedMessage(bam) => {
            assert_eq!(bam.mmsi, 150834090);
            assert_eq!(bam.sequence_number, 3);
            assert_eq!(bam.destination_mmsi, 313240222);
            assert_eq!(bam.retransmit_flag, false);
            assert_eq!(bam.dac, 669);
            assert_eq!(bam.fid, 11);
        }
        other => panic!("unexpected result: {:?}", other),
    }
}

#[test]
fn vdm_t9_test_parse_vdm_type9() {
    let mut p = NmeaParser::new();
    match parse(&mut p, "!AIVDM,1,1,,B,91b55wi;hbOS@OdQAC062Ch2089h,0*30") {
        ParsedMessage::StandardSarAircraftPositionReport(sapr) => {
            assert_eq!(sapr.mmsi, 111232511);
            assert_eq!(sapr.altitude, Some(303));
            assert_eq!(sapr.sog_knots, Some(42));
            assert!(!sapr.high_position_accuracy);
            close(deg(sapr.longitude_min10000).unwrap_or(0.0), -6.27884, 0.00001);
            close(deg(sapr.latitude_min10000).unwrap_or(0.0), 58.144, 0.00001);
            assert_eq!(tenths_u32(sapr.cog10), Some(154.5));
            assert_eq!(sapr.timestamp_seconds, 15);
            assert_eq!(sapr.regional, 0);
            assert!(!sapr.dte);
            assert!(!sapr.assigned);
            assert!(!sapr.raim_flag);
            assert_eq!(sapr.radio_status, 33392);
        }
        other => panic!("unexpected result: {:?}", other),
    }
}

#[test]
fn vdm_t10_test_parse_vdm_type9() {
    let mut p = NmeaParser::new();
    match parse(&mut p, "!AIVDM,1,1,,B,:5MlU41GMK6@,0*6C") {
        ParsedMessage::UtcDateInquiry(udi) => {
            assert_eq!(udi.source_mmsi, 366814480);
            assert_eq!(udi.destination_mmsi, 366832740);
        }
        other => panic!("unexpected result: {:?}", other),
    }
}

#[test]
fn test_parse_vdm_type11() {
    let mut p = NmeaParser::new();
    match parse(
        &mut p,
        "!AIVDM,1,1,,B,;4R33:1uUK2F`q?mOt@@GoQ00000,0*5D,s28089,d-103,T39.44353985,x147521,r08TPHI1,1242958962",
    ) {
        ParsedMessage::UtcDateResponse(bsr) => {
            assert_eq!(bsr.mmsi, 304137000);
            assert_eq!(bsr.timestamp, Some(utc(2009, 5, 22, 2, 22, 40)));
            assert_eq!(bsr.high_position_accuracy, true);
            close(deg(bsr.latitude_min10000).unwrap_or(0.0), 28.409, 0.001);
            close(deg(bsr.longitude_min10000).unwrap_or(0.0), -94.407, 0.001);
            assert_eq!(bsr.position_fix_type, Some(PositionFixType::GPS));
            assert_eq!(bsr.raim_flag, false);
            assert_eq!(bsr.radio_status, 0);
        }
        other => panic!("unexpected result: {:?}", other),
    }
}

#[test]
fn test_parse_vdm_type12() {
    let mut p = NmeaParser::new();
    match parse(
        &mut p,
        "!AIVDM,1,1,,A,<02:oP0kKcv0@<51C5PB5@?BDPD?P:?2?EB7PDB16693P381>>5<PikP,0*37",
    ) {
        ParsedMessage::AddressedSafetyRelatedMessage(asrm) => {
            assert_eq!(asrm.source_mmsi, 2275200);
            assert_eq!(asrm.sequence_number, 0);
            assert_eq!(asrm.destination_mmsi, 215724000);
            assert_eq!(asrm.retransmit_flag, false);
            assert_eq!(asrm.text, "PLEASE REPORT TO JOBOURG TRAFFIC CHANNEL 13");
        }
        other => panic!("unexpected result: {:?}", other),
    }
    match parse(
        &mut p,
        "!AIVDM,1,1,,A,<CR3B@<0TO3j5@PmkiP31BCPphPDB13;CPihkP=?D?PmP3B5GPpn,0*3A",
    ) {
        ParsedMessage::AddressedSafetyRelatedMessage(asrm) => {
            assert_eq!(asrm.source_mmsi, 237032000);
            assert_eq!(asrm.sequence_number, 3);
            assert_eq!(asrm.destination_mmsi, 2391100);
            assert_eq!(asrm.retransmit_flag, true);
            assert_eq!(asrm.text, "EP 531 CARS 80 TRACKS 103 MOTO 5 CREW 86");
        }
        other => panic!("unexpected result: {:?}", other),
    }
}

#[test]
fn test_parse_vdm_type13() {
    let mut p = NmeaParser::new();
    match parse(&mut p, "!AIVDM,1,1,,A,=39UOj0jFs9R,0*65") {
        ParsedMessage::SafetyRelatedAcknowledgement(sra) => {
            assert_eq!(sra.source_mmsi, 211378120);
            assert_eq!(sra.mmsi1, 211217560);
            assert_eq!(sra.mmsi1_seq, 2);
            assert_eq!(sra.mmsi2, 0);
            assert_eq!(sra.mmsi2_seq, 0);
            assert_eq!(sra.mmsi3, 0);
            assert_eq!(sra.mmsi3_seq, 0);
            assert_eq!(sra.mmsi4, 0);
            assert_eq!(sra.mmsi4_seq, 0);
        }
        other => panic!("unexpected result: {:?}", other),
    }
}

#[test]
fn test_parse_vdm_type14() {
    let mut p = NmeaParser::new();
    match parse(&mut p, "!AIVDM,1,1,,A,>5?Per18=HB1U:1@E=B0m<L,2*51") {
        ParsedMessage::SafetyRelatedBroadcastMessage(srbm) => {
            assert_eq!(srbm.mmsi, 351809000);
            assert_eq!(srbm.text, "RCVD YR TEST MSG");
        }
        other => panic!("unexpected result: {:?}", other),
    }
    match parse(&mut p, "!AIVDM,1,1,,A,>3R1p10E3;;R0USCR0HO>0@gN10kGJp,2*7F") {
        ParsedMessage::SafetyRelatedBroadcastMessage(srbm) => {
            assert_eq!(srbm.mmsi, 237008900);
            assert_eq!(srbm.text, "EP228 IX48 FG3 DK7 PL56.");
        }
        other => panic!("unexpected result: {:?}", other),
    }
    match parse(&mut p, "!AIVDM,1,1,,A,>4aDT81@E=@,2*2E") {
        ParsedMessage::SafetyRelatedBroadcastMessage(srbm) => {
            assert_eq!(srbm.mmsi, 311764000);
            assert_eq!(srbm.text, "TEST");
        }
        other => panic!("unexpected result: {:?}", other),
    }
}

#[test]
fn test_parse_vdm_type15() {
    let mut p = NmeaParser::new();
    match parse(&mut p, "!AIVDM,1,1,,B,?h3Ovn1GP<K0<P@59a0,2*04") {
        ParsedMessage::Interrogation(i) => {
            assert_eq!(i.mmsi, 3669720);
            assert_eq!(i.mmsi1, 367014320);
            assert_eq!(i.type1_1, 3);
            assert_eq!(i.offset1_1, 516);
            assert_eq!(i.type1_2, Some(5));
            assert_eq!(i.offset1_2, Some(617));
            assert_eq!(i.mmsi2, None);
            assert_eq!(i.type2_1, None);
            assert_eq!(i.offset2_1, None);
        }
        other => panic!("unexpected result: {:?}", other),
    }
}

#[test]
fn test_parse_vdm_type16() {
    let mut p = NmeaParser::new();
    match parse(&mut p, "!AIVDM,1,1,,A,@01uEO@mMk7P<P00,0*18") {
        ParsedMessage::AssignmentModeCommand(i) => {
            assert_eq!(i.mmsi, 2053501);
            assert_eq!(i.mmsi1, 224251000);
            assert_eq!(i.offset1, 200);
            assert_eq!(i.increment1, 0);
            assert_eq!(i.mmsi2, None);
            assert_eq!(i.offset2, None);
            assert_eq!(i.increment2, None);
        }
        other => panic!("unexpected result: {:?}", other),
    }
}

#[test]
fn test_parse_vdm_type17() {
    let mut p = NmeaParser::new();
    assert_eq!(
        parse(
            &mut p,
            "!AIVDM,2,1,5,A,A02VqLPA4I6C07h5Ed1h<OrsuBTTwS?r:C?w`?la<gno1RTRwSP9:BcurA8a,0*3A",
        ),
        ParsedMessage::Incomplete
    );
    match parse(&mut p, "!AIVDM,2,2,5,A,:Oko02TSwu8<:Jbb,0*11") {
        ParsedMessage::DgnssBroadcastBinaryMessage(i) => {
            assert_eq!(i.mmsi, 2734450);
            close(deg(i.latitude_min10000).unwrap_or(0.0), 59.987, 0.001);
            close(deg(i.longitude_min10000).unwrap_or(0.0), 29.130, 0.001);
            assert_eq!(i.payload.len(), 376);
        }
        other => panic!("unexpected result: {:?}", other),
    }
}

#[test]
fn test_parse_avidm_type18() {
    let mut p = NmeaParser::new();
    match parse(&mut p, "!AIVDM,1,1,,A,B52K>;h00Fc>jpUlNV@ikwpUoP06,0*4C") {
        ParsedMessage::VesselDynamicData(vdd) => {
            assert_eq!(vdd.mmsi, 338087471);
            assert_eq!(vdd.ais_type, AisClass::ClassB);
            assert_eq!(vdd.nav_status, NavigationStatus::NotDefined);
            assert_eq!(rot(vdd.rot_indicator), None);
            assert_eq!(vdd.rot_direction, None);
            assert_eq!(tenths_u16(vdd.sog_knots10), Some(0.1));
            assert_eq!(vdd.high_position_accuracy, false);
            close(deg(vdd.latitude_min10000).unwrap_or(0.0), 40.7, 0.1);
            close(deg(vdd.longitude_min10000).unwrap_or(0.0), -74.1, 0.1);
            close(tenths_u32(vdd.cog10).unwrap_or(0.0), 79.6, 0.1);
            assert_eq!(vdd.heading_true, None);
            assert_eq!(vdd.timestamp_seconds, 49);
            assert_eq!(vdd.positioning_system_meta, None);
            assert_eq!(vdd.special_manoeuvre, None);
            assert_eq!(vdd.raim_flag, true);
        }
        other => panic!("unexpected result: {:?}", other),
    }
}

#[test]
fn test_parse_vdm_type20() {
    let mut p = NmeaParser::new();
    match parse(&mut p, "!AIVDM,1,1,,A,Dh3OvjB8IN>4,0*1D") {
        ParsedMessage::DataLinkManagementMessage(dlmm) => {
            assert_eq!(dlmm.mmsi, 3669705);
            assert_eq!(dlmm.offset1, 2182);
            assert_eq!(dlmm.number1, 5);
            assert_eq!(dlmm.timeout1, 7);
            assert_eq!(dlmm.increment1, 225);
        }
        other => panic!("unexpected result: {:?}", other),
    }
}

#[test]
fn test_parse_vdm_type21() {
    let mut p = NmeaParser::new();
    assert_eq!(
        parse(&mut p, "!AIVDM,2,1,5,B,E1mg=5J1T4W0h97aRh6ba84<h2d;W:Te=eLvH50```q,0*46"),
        ParsedMessage::Incomplete
    );
    match parse(&mut p, "!AIVDM,2,2,5,B,:D44QDlp0C1DU00,2*36") {
        ParsedMessage::AidToNavigationReport(atnr) => {
            assert_eq!(atnr.mmsi, 123456789);
            assert_eq!(atnr.aid_type, NavAidType::CardinalMarkNorth);
            assert_eq!(atnr.name, "CHINA ROSE MURPHY EXPRESS ALERT");
            assert_eq!(atnr.high_position_accuracy, false);
            close(deg(atnr.latitude_min10000).unwrap_or(0.0), 47.9206183333, 0.00000001);
            close(deg(atnr.longitude_min10000).unwrap_or(0.0), -122.698591667, 0.00000001);
            assert_eq!(atnr.dimension_to_bow, Some(5));
            assert_eq!(atnr.dimension_to_stern, Some(5));
            assert_eq!(atnr.dimension_to_port, Some(5));
            assert_eq!(atnr.dimension_to_starboard, Some(5));
            assert_eq!(atnr.position_fix_type, Some(PositionFixType::GPS));
            assert_eq!(atnr.timestamp_seconds, 50);
            assert_eq!(atnr.off_position_indicator, false);
            assert_eq!(atnr.regional, 165);
            assert_eq!(atnr.raim_flag, false);
            assert_eq!(atnr.virtual_aid_flag, false);
            assert_eq!(atnr.assigned_mode_flag, false);
        }
        other => panic!("unexpected result: {:?}", other),
    }
}

#[test]
fn test_parse_vdm_type22() {
    let mut p = NmeaParser::new();
    match parse(&mut p, "!AIVDM,1,1,,A,F030ot22N2P6aoQbhe4736L20000,0*1A") {
        ParsedMessage::ChannelManagement(cm) => {
            assert_eq!(cm.mmsi, 3160048);
            assert_eq!(cm.channel_a, 2087);
            assert_eq!(cm.channel_b, 2088);
            assert_eq!(cm.txrx, 0);
            assert_eq!(cm.power, false);
            close(deg(cm.ne_lat_min10000).unwrap_or(0.0), 45.55, 0.01);
            close(deg(cm.ne_lon_min10000).unwrap_or(0.0), -73.50, 0.01);
            close(deg(cm.sw_lat_min10000).unwrap_or(0.0), 42.33, 0.01);
            close(deg(cm.sw_lon_min10000).unwrap_or(0.0), -80.17, 0.01);
            assert_eq!(cm.addressed, false);
            assert_eq!(cm.channel_a_band, false);
            assert_eq!(cm.channel_b_band, false);
            assert_eq!(cm.zonesize, 4);
        }
        other => panic!("unexpected result: {:?}", other),
    }
}

#[test]
fn test_parse_vdm_type23() {
    let mut p = NmeaParser::new();
    match parse(&mut p, "!AIVDM,1,1,,B,G02:Kn01R`sn@291nj600000900,2*12") {
        ParsedMessage::GroupAssignmentCommand(gac) => {
            assert_eq!(gac.mmsi, 2268120);
        }
        other => panic!("unexpected result: {:?}", other),
    }
}

#[test]
fn test_parse_vdm_type24() {
    let mut p = NmeaParser::new();

    let s1 = "!AIVDM,1,1,,A,H42O55i18tMET00000000000000,2*6D";
    assert_eq!(parse(&mut p, s1), ParsedMessage::Incomplete);

    let s2 = "!AIVDM,1,1,,A,H42O55lti4hhhilD3nink000?050,0*40";
    match parse(&mut p, s2) {
        ParsedMessage::VesselStaticData(vsd) => {
            assert_eq!(vsd.mmsi, 271041815);
            assert_eq!(vsd.ais_version_indicator, 0);
            assert_eq!(vsd.imo_number, None);
            assert_eq!(vsd.call_sign, Some("TC6163".into()));
            assert_eq!(vsd.name, Some("PROGUY".into()));
            assert_eq!(vsd.ship_type, ShipType::Passenger);
            assert_eq!(vsd.cargo_type, CargoType::Undefined);
            assert_eq!(vsd.equipment_vendor_id, Some("1D0".into()));
            assert_eq!(vsd.dimension_to_bow, Some(0));
            assert_eq!(vsd.dimension_to_stern, Some(15));
            assert_eq!(vsd.dimension_to_port, Some(0));
            assert_eq!(vsd.dimension_to_starboard, Some(5));
            assert_eq!(vsd.position_fix_type, None);
            assert_eq!(vsd.eta, None);
            assert_eq!(vsd.draught10, None);
            assert_eq!(vsd.destination, None);
        }
        other => panic!("unexpected result: {:?}", other),
    }
}

#[test]
fn test_parse_vdm_type25() {
    let mut p = NmeaParser::new();
    match parse(&mut p, "!AIVDM,1,1,,A,I6SWo?8P00a3PKpEKEVj0?vNP<65,0*73") {
        ParsedMessage::SingleSlotBinaryMessage(ssbm) => {
            assert_eq!(ssbm.mmsi, 440006460);
            assert_eq!(ssbm.dest_mmsi, Some(134218384));
            assert_eq!(ssbm.app_id, None);
        }
        other => panic!("unexpected result: {:?}", other),
    }
    match parse(&mut p, "!AIVDM,1,1,,A,I8IRGB40QPPa0:<HP::V=gwv0l48,0*0E") {
        ParsedMessage::SingleSlotBinaryMessage(ssbm) => {
            assert_eq!(ssbm.mmsi, 563648328);
            assert_eq!(ssbm.dest_mmsi, None);
            assert_eq!(ssbm.app_id, Some(16424));
        }
        other => panic!("unexpected result: {:?}", other),
    }
    match parse(&mut p, "!AIVDM,1,1,,A,I6SWVNP001a3P8FEKNf=Qb0@00S8,0*6B") {
        ParsedMessage::SingleSlotBinaryMessage(ssbm) => {
            assert_eq!(ssbm.mmsi, 440002170);
            assert_eq!(ssbm.dest_mmsi, None);
            assert_eq!(ssbm.app_id, None);
        }
        other => panic!("unexpected result: {:?}", other),
    }
}

#[test]
fn test_parse_vdm_type26() {
    let mut p = NmeaParser::new();
    match parse(&mut p, "!AIVDM,1,1,,A,JB3R0GO7p>vQL8tjw0b5hqpd0706kh9d3lR2vbl0400,2*40") {
        ParsedMessage::MultipleSlotBinaryMessage(msbm) => {
            assert_eq!(msbm.mmsi, 137920605);
            assert_eq!(msbm.dest_mmsi, Some(838351848));
            assert_eq!(msbm.app_id, None);
        }
        other => panic!("unexpected result: {:?}", other),
    }
    match parse(&mut p, "!AIVDM,1,1,,,Jl@bhbmCU`:lwOd0,0*48") {
        ParsedMessage::MultipleSlotBinaryMessage(msbm) => {
            assert_eq!(msbm.mmsi, 285913259);
            assert_eq!(msbm.dest_mmsi, None);
            assert_eq!(msbm.app_id, Some(16254));
        }
        other => panic!("unexpected result: {:?}", other),
    }
}

#[test]
fn test_parse_vdm_type27() {
    let mut p = NmeaParser::new();
    match parse(&mut p, "!AIVDM,1,1,,B,KC5E2b@U19PFdLbMuc5=ROv62<7m,0*16") {
        ParsedMessage::VesselDynamicData(vdd) => {
            assert_eq!(vdd.mmsi, 206914217);
            assert_eq!(vdd.nav_status, NavigationStatus::NotUnderCommand);
            assert_eq!(rot(vdd.rot_indicator), None);
            assert_eq!(vdd.rot_direction, None);
            assert_eq!(tenths_u16(vdd.sog_knots10), Some(1.0));
            assert_eq!(vdd.high_position_accuracy, false);
            close(deg(vdd.latitude_min10000).unwrap_or(0.0), 137.0, 0.1);
            close(deg(vdd.longitude_min10000).unwrap_or(0.0), 4.8, 0.1);
            close(tenths_u32(vdd.cog10).unwrap_or(0.0), 290.0, 1.0);
            assert_eq!(vdd.timestamp_seconds, 0);
            assert_eq!(vdd.current_gnss_position, Some(true));
            assert_eq!(vdd.raim_flag, false);
        }
        other => panic!("unexpected result: {:?}", other),
    }
}

use nmea_parser::{NmeaParser, ParsedMessage, ParseError};
use nmea_parser::ais::{
    AisClass, CargoType, InterrogationCase, NavAidType, NavigationStatus, PositionFixType,
    PositioningSystemMeta, RotDirection, ShipType, Station, StationInterval, StationType,
    VesselStaticData,
};
use nmea_parser::ais::vdm_t24::{choose_some, choose_some_string};
use nmea_parser::bitseq::bits_from_bools;
use nmea_parser::gnss::{
    FaaMode, GgaQualityIndicator, GnsModeIndicator, GsaFixMode, NavigationSystem,
};
use nmea_parser::kind::{sentence_kind, SentenceKind};
use nmea_parser::util::parse_payload;

const PART_A: &str = "!AIVDM,1,1,,A,H42O55i18tMET00000000000000,2*6D";
const PART_B: &str = "!AIVDM,1,1,,A,H42O55lti4hhhilD3nink000?050,0*40";

#[test]
fn static_data_parts_merge_the_same_in_either_order() {
    let mut p = NmeaParser::new();
    assert_eq!(p.parse_sentence(PART_A), Ok(ParsedMessage::Incomplete));
    assert_eq!(p.vsds_count(), 1);
    let ab = p.parse_sentence(PART_B);
    assert_eq!(p.vsds_count(), 0);

    assert_eq!(p.parse_sentence(PART_B), Ok(ParsedMessage::Incomplete));
    assert_eq!(p.vsds_count(), 1);
    let ba = p.parse_sentence(PART_A);
    assert_eq!(p.vsds_count(), 0);

    assert_eq!(ab, ba);
    match ab {
        Ok(ParsedMessage::VesselStaticData(vsd)) => {
            assert_eq!(vsd.mmsi, 271041815);
            assert_eq!(vsd.ais_type, AisClass::ClassB);
            assert_eq!(vsd.name, Some("PROGUY".to_string()));
            assert_eq!(vsd.call_sign, Some("TC6163".to_string()));
            assert_eq!(vsd.equipment_model, Some(12));
            assert!(vsd.mothership_mmsi.is_some());
            assert!(!vsd.own_vessel);
        }
        other => panic!("unexpected result: {:?}", other),
    }
}

#[test]
fn static_data_part_number_must_be_0_or_1() {
    // The part number is the two bits from bit 38: here 2.
    let mut p = NmeaParser::new();
    assert_eq!(
        p.parse_sentence("!AIVDM,1,1,,A,H42O55p0000000000000000000000,0"),
        Err(ParseError::InvalidSentence(
            "AIVDM type 24 part number has unexpected value: 2".to_string()
        ))
    );
    assert_eq!(p.vsds_count(), 0);
}

fn part(mmsi: u32) -> VesselStaticData {
    let mut v = VesselStaticData::default();
    v.mmsi = mmsi;
    v.ais_type = AisClass::ClassB;
    v
}

#[test]
fn parts_that_disagree_do_not_merge() {
    assert_eq!(
        part(1).merge(&part(2)),
        Err("Mismatching MMSI numbers: 1 != 2".to_string())
    );
    let mut a = part(7);
    a.ais_type = AisClass::ClassA;
    assert_eq!(
        a.merge(&part(7)),
        Err("Mismatching AIS types: Class A != Class B".to_string())
    );
    let mut a = part(7);
    a.imo_number = Some(5);
    assert_eq!(
        a.merge(&part(7)),
        Err("Mismatching MMSI numbers: 7 != 7".to_string())
    );
    let mut a = part(7);
    a.ais_version_indicator = 1;
    assert_eq!(
        a.merge(&part(7)),
        Err("Mismatching AIS version indicators: 1 != 0".to_string())
    );
}

#[test]
fn merge_takes_what_is_given_and_prefers_the_first() {
    let mut a = part(7);
    a.own_vessel = true;
    a.name = Some("A".to_string());
    a.ship_type = ShipType::Tug;
    a.draught10 = Some(3);
    let mut b = part(7);
    b.name = Some("B".to_string());
    b.call_sign = Some("CALL".to_string());
    b.ship_type = ShipType::Cargo;
    b.cargo_type = CargoType::HazardousCategoryB;
    b.draught10 = Some(4);
    b.dimension_to_bow = Some(9);

    let ab = a.merge(&b).unwrap();
    assert!(ab.own_vessel);
    assert_eq!(ab.name, Some("A".to_string()));
    assert_eq!(ab.call_sign, Some("CALL".to_string()));
    assert_eq!(ab.ship_type, ShipType::Tug);
    assert_eq!(ab.cargo_type, CargoType::HazardousCategoryB);
    assert_eq!(ab.draught10, Some(3));
    assert_eq!(ab.dimension_to_bow, Some(9));

    let ba = b.merge(&a).unwrap();
    assert!(!ba.own_vessel);
    assert_eq!(ba.name, Some("B".to_string()));
    assert_eq!(ba.ship_type, ShipType::Cargo);
    assert_eq!(ba.draught10, Some(4));

    assert_eq!(choose_some(Some(1), Some(2)), Some(1));
    assert_eq!(choose_some(None, Some(2)), Some(2));
    assert_eq!(choose_some::<u8>(None, None), None);
    assert_eq!(choose_some_string(&None, &Some("x".to_string())), Some("x".to_string()));
    assert_eq!(
        choose_some_string(&Some("y".to_string()), &Some("x".to_string())),
        Some("y".to_string())
    );
}

#[test]
fn numbers_of_enumerations() {
    for v in 0u8..=255 {
        assert_eq!(NavigationStatus::new(v).to_value(), if v <= 15 { v } else { 15 });
        assert_eq!(PositionFixType::new(v).to_value(), if v <= 8 { v } else { 0 });
        let ship = if v >= 100 {
            0
        } else if (30..40).contains(&v) || (50..60).contains(&v) {
            v
        } else {
            v / 10 * 10
        };
        assert_eq!(ShipType::new(v).to_value(), ship);
        let cargo = if (10..100).contains(&v) && !(30..40).contains(&v) && !(50..60).contains(&v) {
            10 + v % 10
        } else {
            10
        };
        assert_eq!(CargoType::new(v).to_value(), cargo);
        assert_eq!(NavAidType::new(v).is_ok(), v < 32);
        assert_eq!(StationType::new(v).is_ok(), v < 16);
        assert_eq!(StationInterval::new(v).is_ok(), v < 16);
    }
    assert_eq!(NavigationStatus::new(5), NavigationStatus::Moored);
    assert_eq!(ShipType::new(37), ShipType::PleasureCraft);
    assert_eq!(ShipType::new(74), ShipType::Cargo);
    assert_eq!(CargoType::new(74), CargoType::HazardousCategoryD);
    assert_eq!(CargoType::new(34), CargoType::Undefined);
    assert_eq!(PositionFixType::new(8), PositionFixType::Galileo);
    assert_eq!(NavAidType::new(31), Ok(NavAidType::LightVessel));
    assert_eq!(
        NavAidType::new(32),
        Err(ParseError::InvalidSentence("Unrecognized Nav aid type code: 32".to_string()))
    );
    assert_eq!(StationType::new(5), Ok(StationType::ClassBShipBorneMobile));
    assert_eq!(StationType::new(16), Err("Station type value out of range: 16".to_string()));
    assert_eq!(StationInterval::new(8), Ok(StationInterval::Time5sec));
    assert_eq!(
        StationInterval::new(200),
        Err("Station interval value out of range: 200".to_string())
    );
    assert_eq!(Station::default(), Station::Other);
    assert_eq!(AisClass::default(), AisClass::Unknown);
    assert_eq!(NavigationStatus::default(), NavigationStatus::NotDefined);
    assert_eq!(RotDirection::default(), RotDirection::Center);
    assert_eq!(ShipType::default(), ShipType::NotAvailable);
    assert_eq!(CargoType::default(), CargoType::Undefined);
    assert_eq!(NavAidType::default(), NavAidType::NotSpecified);
    assert_eq!(StationType::default(), StationType::AllTypes);
    assert_eq!(StationInterval::default(), StationInterval::Autonomous);
}

#[test]
fn labels_of_enumerations() {
    assert_eq!(Station::MobileStation.label(), "mobile station");
    assert_eq!(AisClass::ClassB.label(), "Class B");
    assert_eq!(NavigationStatus::AtAnchor.label(), "at anchor");
    assert_eq!(PositioningSystemMeta::DeadReckoningMode.label(), "dead reckoning mode");
    assert_eq!(RotDirection::Starboard.label(), "starboard");
    assert_eq!(ShipType::TowingLong.label(), "towing, long");
    assert_eq!(CargoType::HazardousCategoryA.label(), "hazardous category A");
    assert_eq!(PositionFixType::GPSGLONASS.label(), "GPS/GLONASS");
    assert_eq!(
        NavAidType::BeaconLateralPreferredChannelPort.label(),
        "lateral beacon, preferred channel, port side"
    );
    assert_eq!(NavigationSystem::Beidou.label(), "BeiDou");
    assert_eq!(FaaMode::NotValid.label(), "N");
    assert_eq!(FaaMode::Simulator.label(), "?");
    assert_eq!(GgaQualityIndicator::DGpsFix.label(), "DGPS fix");
    assert_eq!(
        GnsModeIndicator::RealTimeKinematicFloat.label(),
        "Real-Time Kinematic (floating point)"
    );
    assert_eq!(GsaFixMode::Fix2D.label(), "2D fix");
}

#[test]
fn talkers() {
    assert_eq!(Station::from_talker("AB"), Ok(Station::BaseStation));
    assert_eq!(Station::from_talker("ADVDM"), Ok(Station::DependentAisBaseStation));
    assert_eq!(Station::from_talker("AN"), Ok(Station::AidToNavigationStation));
    assert_eq!(Station::from_talker("AR"), Ok(Station::AisReceivingStation));
    assert_eq!(Station::from_talker("AS"), Ok(Station::LimitedBaseStation));
    assert_eq!(Station::from_talker("AT"), Ok(Station::AisTransmittingStation));
    assert_eq!(Station::from_talker("AX"), Ok(Station::RepeaterStation));
    assert_eq!(Station::from_talker("BI"), Ok(Station::Other));
    assert_eq!(Station::from_talker("AQ"), Ok(Station::Other));
    assert_eq!(
        Station::from_talker("A"),
        Err(ParseError::InvalidSentence("Invalid station identifier".to_string()))
    );
    assert_eq!(NavigationSystem::from_talker("GN"), Ok(NavigationSystem::Combination));
    assert_eq!(NavigationSystem::from_talker("GPGGA"), Ok(NavigationSystem::Gps));
    assert_eq!(NavigationSystem::from_talker("GL"), Ok(NavigationSystem::Glonass));
    assert_eq!(NavigationSystem::from_talker("GA"), Ok(NavigationSystem::Galileo));
    assert_eq!(NavigationSystem::from_talker("BD"), Ok(NavigationSystem::Beidou));
    assert_eq!(NavigationSystem::from_talker("GI"), Ok(NavigationSystem::Navic));
    assert_eq!(NavigationSystem::from_talker("QZ"), Ok(NavigationSystem::Qzss));
    assert_eq!(NavigationSystem::from_talker("P"), Ok(NavigationSystem::Proprietary));
    assert_eq!(NavigationSystem::from_talker("GX"), Ok(NavigationSystem::Other));
    assert_eq!(
        NavigationSystem::from_talker("G"),
        Err(ParseError::InvalidSentence("Invalid talker identifier".to_string()))
    );
}

#[test]
fn sentence_kinds() {
    assert_eq!(sentence_kind("$GGA"), SentenceKind::Gga);
    assert_eq!(sentence_kind("$MWV"), SentenceKind::Mwv);
    assert_eq!(sentence_kind("!VDM"), SentenceKind::Vdm);
    assert_eq!(sentence_kind("!VDO"), SentenceKind::Vdo);
    assert_eq!(sentence_kind("$VDM"), SentenceKind::Unknown);
    assert_eq!(sentence_kind("!GGA"), SentenceKind::Unknown);
    assert_eq!(sentence_kind("$GGAA"), SentenceKind::Unknown);
    assert_eq!(sentence_kind(""), SentenceKind::Unknown);
}

#[test]
fn interrogation_layouts() {
    let of_len = |n: usize, ones: bool| InterrogationCase::new(&bits_from_bools(&vec![ones; n]));
    assert_eq!(of_len(0, false), InterrogationCase::Case1);
    assert_eq!(of_len(109, true), InterrogationCase::Case1);
    assert_eq!(of_len(110, true), InterrogationCase::Case2);
    assert_eq!(of_len(159, false), InterrogationCase::Case2);
    assert_eq!(of_len(160, false), InterrogationCase::Case3);
    assert_eq!(of_len(160, true), InterrogationCase::Case4);
    assert_eq!(
        InterrogationCase::new(&parse_payload("?h3Ovn1GP<K0<P@59a0").unwrap()),
        InterrogationCase::Case2
    );
}

#[test]
fn the_part_kept_first_wins_where_both_give_a_field() {
    // Part A twice for one MMSI, "PROGUY" and "ELLER": the name that came first stays.
    let first = "!AIVDM,1,1,,A,H42O55i18tMET00000000000000,2";
    let second = "!AIVDO,1,1,,A,H42O55hDhhE800000000000000000,2";
    let mut p = NmeaParser::new();
    assert_eq!(p.parse_sentence(first), Ok(ParsedMessage::Incomplete));
    match p.parse_sentence(second) {
        Ok(ParsedMessage::VesselStaticData(vsd)) => {
            assert_eq!(vsd.mmsi, 271041815);
            assert_eq!(vsd.name, Some("PROGUY".to_string()));
            assert!(!vsd.own_vessel);
        }
        other => panic!("unexpected result: {:?}", other),
    }
    assert_eq!(p.vsds_count(), 0);
    assert_eq!(p.parse_sentence(second), Ok(ParsedMessage::Incomplete));
    match p.parse_sentence(first) {
        Ok(ParsedMessage::VesselStaticData(vsd)) => {
            assert_eq!(vsd.name, Some("ELLER".to_string()));
            assert!(vsd.own_vessel);
        }
        other => panic!("unexpected result: {:?}", other),
    }
}

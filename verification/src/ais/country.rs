//! The country that an MMSI belongs to, told by its first three digits.

use crate::ais::VesselStaticData;
use vstd::prelude::*;

verus! {

/// The ISO 3166 code of the country that a maritime identification digit
/// triple is allotted to.
pub open spec fn country_code(mid: u32) -> Option<Seq<char>> {
    match mid {
        201 => Some("AL"@),
        202 => Some("AD"@),
        203 => Some("AT"@),
        204 => Some("PT"@),
        205 => Some("BE"@),
        206 => Some("BY"@),
        207 => Some("BG"@),
        208 => Some("VA"@),
        209 => Some("CY"@),
        210 => Some("CY"@),
        211 => Some("DE"@),
        212 => Some("CY"@),
        213 => Some("GE"@),
        214 => Some("MD"@),
        215 => Some("MT"@),
        216 => Some("AM"@),
        218 => Some("DE"@),
        219 => Some("DK"@),
        220 => Some("DK"@),
        224 => Some("ES"@),
        225 => Some("ES"@),
        226 => Some("FR"@),
        227 => Some("FR"@),
        228 => Some("FR"@),
        229 => Some("MT"@),
        230 => Some("FI"@),
        231 => Some("FO"@),
        232 => Some("GB"@),
        233 => Some("GB"@),
        234 => Some("GB"@),
        235 => Some("GB"@),
        236 => Some("GI"@),
        237 => Some("GR"@),
        238 => Some("HR"@),
        239 => Some("GR"@),
        240 => Some("GR"@),
        241 => Some("GR"@),
        242 => Some("MA"@),
        243 => Some("HU"@),
        244 => Some("NL"@),
        245 => Some("NL"@),
        246 => Some("NL"@),
        247 => Some("IT"@),
        248 => Some("MT"@),
        249 => Some("MT"@),
        250 => Some("IE"@),
        251 => Some("IS"@),
        252 => Some("LI"@),
        253 => Some("LU"@),
        254 => Some("MC"@),
        255 => Some("PT"@),
        256 => Some("MT"@),
        257 => Some("NO"@),
        258 => Some("NO"@),
        259 => Some("NO"@),
        261 => Some("PL"@),
        262 => Some("ME"@),
        263 => Some("PT"@),
        264 => Some("RO"@),
        265 => Some("SE"@),
        266 => Some("SE"@),
        267 => Some("SK"@),
        268 => Some("SM"@),
        269 => Some("CH"@),
        270 => Some("CZ"@),
        271 => Some("TR"@),
        272 => Some("UA"@),
        273 => Some("RU"@),
        274 => Some("MK"@),
        275 => Some("LV"@),
        276 => Some("EE"@),
        277 => Some("LT"@),
        278 => Some("SI"@),
        279 => Some("RS"@),
        301 => Some("AI"@),
        303 => Some("US"@),
        304 => Some("AG"@),
        305 => Some("AG"@),
        306 => Some("BQ"@),
        307 => Some("AW"@),
        308 => Some("BS"@),
        309 => Some("BS"@),
        310 => Some("BM"@),
        311 => Some("BS"@),
        312 => Some("BZ"@),
        314 => Some("BB"@),
        316 => Some("CA"@),
        319 => Some("KY"@),
        321 => Some("CR"@),
        323 => Some("CU"@),
        325 => Some("DM"@),
        327 => Some("DO"@),
        329 => Some("GP"@),
        330 => Some("GD"@),
        331 => Some("GL"@),
        332 => Some("GT"@),
        334 => Some("HN"@),
        336 => Some("HT"@),
        338 => Some("US"@),
        339 => Some("JM"@),
        341 => Some("KN"@),
        343 => Some("LC"@),
        345 => Some("MX"@),
        347 => Some("MQ"@),
        348 => Some("MS"@),
        350 => Some("NI"@),
        351 => Some("PA"@),
        352 => Some("PA"@),
        353 => Some("PA"@),
        354 => Some("PA"@),
        355 => Some("PA"@),
        356 => Some("PA"@),
        357 => Some("PA"@),
        358 => Some("PR"@),
        359 => Some("SV"@),
        361 => Some("PM"@),
        362 => Some("TT"@),
        364 => Some("TC"@),
        366 => Some("US"@),
        367 => Some("US"@),
        368 => Some("US"@),
        369 => Some("US"@),
        370 => Some("PA"@),
        371 => Some("PA"@),
        372 => Some("PA"@),
        373 => Some("PA"@),
        374 => Some("PA"@),
        375 => Some("VC"@),
        376 => Some("VC"@),
        377 => Some("VC"@),
        378 => Some("VG"@),
        379 => Some("VI"@),
        401 => Some("AF"@),
        403 => Some("SA"@),
        405 => Some("BD"@),
        408 => Some("BH"@),
        410 => Some("BT"@),
        412 => Some("CN"@),
        413 => Some("CN"@),
        414 => Some("CN"@),
        416 => Some("TW"@),
        417 => Some("LK"@),
        419 => Some("IN"@),
        422 => Some("IR"@),
        423 => Some("AZ"@),
        425 => Some("IQ"@),
        428 => Some("IL"@),
        431 => Some("JP"@),
        432 => Some("JP"@),
        434 => Some("TM"@),
        436 => Some("KZ"@),
        437 => Some("UZ"@),
        438 => Some("JO"@),
        440 => Some("KR"@),
        441 => Some("KR"@),
        443 => Some("PS"@),
        445 => Some("KR"@),
        447 => Some("KW"@),
        450 => Some("LB"@),
        451 => Some("KG"@),
        453 => Some("MO"@),
        455 => Some("MV"@),
        457 => Some("MN"@),
        459 => Some("NP"@),
        461 => Some("OM"@),
        463 => Some("PK"@),
        466 => Some("QA"@),
        468 => Some("SY"@),
        470 => Some("AE"@),
        471 => Some("AE"@),
        472 => Some("TJ"@),
        473 => Some("YE"@),
        475 => Some("YE"@),
        477 => Some("HK"@),
        478 => Some("BA"@),
        501 => Some("TF"@),
        503 => Some("AU"@),
        506 => Some("MM"@),
        508 => Some("BN"@),
        510 => Some("FM"@),
        511 => Some("PW"@),
        512 => Some("NZ"@),
        514 => Some("KH"@),
        515 => Some("KH"@),
        516 => Some("CX"@),
        518 => Some("CK"@),
        520 => Some("FJ"@),
        523 => Some("CC"@),
        525 => Some("ID"@),
        529 => Some("KI"@),
        531 => Some("LA"@),
        533 => Some("MY"@),
        536 => Some("MP"@),
        538 => Some("MH"@),
        540 => Some("NC"@),
        542 => Some("NU"@),
        544 => Some("NR"@),
        546 => Some("PF"@),
        548 => Some("PH"@),
        550 => Some("TL"@),
        553 => Some("PG"@),
        555 => Some("PN"@),
        557 => Some("SB"@),
        559 => Some("AS"@),
        561 => Some("WS"@),
        563 => Some("SG"@),
        564 => Some("SG"@),
        565 => Some("SG"@),
        566 => Some("SG"@),
        567 => Some("TH"@),
        570 => Some("TO"@),
        572 => Some("TV"@),
        574 => Some("VN"@),
        576 => Some("VU"@),
        577 => Some("VU"@),
        578 => Some("WF"@),
        601 => Some("ZA"@),
        603 => Some("AO"@),
        605 => Some("DZ"@),
        607 => Some("TF"@),
        608 => Some("SH"@),
        609 => Some("BI"@),
        610 => Some("BJ"@),
        611 => Some("BW"@),
        612 => Some("CF"@),
        613 => Some("CM"@),
        615 => Some("CG"@),
        616 => Some("KM"@),
        617 => Some("CV"@),
        618 => Some("TF"@),
        619 => Some("CI"@),
        620 => Some("KM"@),
        621 => Some("DJ"@),
        622 => Some("EG"@),
        624 => Some("ET"@),
        625 => Some("ER"@),
        626 => Some("GA"@),
        627 => Some("GH"@),
        629 => Some("GM"@),
        630 => Some("GW"@),
        631 => Some("GQ"@),
        632 => Some("GN"@),
        633 => Some("BF"@),
        634 => Some("KE"@),
        635 => Some("TF"@),
        636 => Some("LR"@),
        637 => Some("LR"@),
        638 => Some("SS"@),
        642 => Some("LY"@),
        644 => Some("LS"@),
        645 => Some("MU"@),
        647 => Some("MG"@),
        649 => Some("ML"@),
        650 => Some("MZ"@),
        654 => Some("MR"@),
        655 => Some("MW"@),
        656 => Some("NE"@),
        657 => Some("NG"@),
        659 => Some("NA"@),
        660 => Some("TF"@),
        661 => Some("RW"@),
        662 => Some("SD"@),
        663 => Some("SN"@),
        664 => Some("SC"@),
        665 => Some("SH"@),
        666 => Some("SO"@),
        667 => Some("SL"@),
        668 => Some("ST"@),
        669 => Some("SZ"@),
        670 => Some("TD"@),
        671 => Some("TG"@),
        672 => Some("TN"@),
        674 => Some("TZ"@),
        675 => Some("UG"@),
        676 => Some("CG"@),
        677 => Some("TZ"@),
        678 => Some("ZM"@),
        679 => Some("ZW"@),
        701 => Some("AR"@),
        710 => Some("BR"@),
        720 => Some("BO"@),
        725 => Some("CL"@),
        730 => Some("CO"@),
        735 => Some("EC"@),
        740 => Some("FK"@),
        745 => Some("GF"@),
        750 => Some("GY"@),
        755 => Some("PY"@),
        760 => Some("PE"@),
        765 => Some("SR"@),
        770 => Some("UY"@),
        775 => Some("VE"@),
        _ => None,
    }
}

/// The characters of a string literal that may be absent.
pub open spec fn str_view(s: Option<&'static str>) -> Option<Seq<char>> {
    match s {
        Some(t) => Some(t@),
        None => None,
    }
}

impl VesselStaticData {
    /// The ISO 3166 code of the country whose maritime identification
    /// digits the MMSI starts with.
    pub fn country(&self) -> (r: Option<&'static str>)
        ensures
            str_view(r) == country_code(self.mmsi / 1000000),
    {
        match self.mmsi / 1000000 {
            201 => Some("AL"),
            202 => Some("AD"),
            203 => Some("AT"),
            204 => Some("PT"),
            205 => Some("BE"),
            206 => Some("BY"),
            207 => Some("BG"),
            208 => Some("VA"),
            209 => Some("CY"),
            210 => Some("CY"),
            211 => Some("DE"),
            212 => Some("CY"),
            213 => Some("GE"),
            214 => Some("MD"),
            215 => Some("MT"),
            216 => Some("AM"),
            218 => Some("DE"),
            219 => Some("DK"),
            220 => Some("DK"),
            224 => Some("ES"),
            225 => Some("ES"),
            226 => Some("FR"),
            227 => Some("FR"),
            228 => Some("FR"),
            229 => Some("MT"),
            230 => Some("FI"),
            231 => Some("FO"),
            232 => Some("GB"),
            233 => Some("GB"),
            234 => Some("GB"),
            235 => Some("GB"),
            236 => Some("GI"),
            237 => Some("GR"),
            238 => Some("HR"),
            239 => Some("GR"),
            240 => Some("GR"),
            241 => Some("GR"),
            242 => Some("MA"),
            243 => Some("HU"),
            244 => Some("NL"),
            245 => Some("NL"),
            246 => Some("NL"),
            247 => Some("IT"),
            248 => Some("MT"),
            249 => Some("MT"),
            250 => Some("IE"),
            251 => Some("IS"),
            252 => Some("LI"),
            253 => Some("LU"),
            254 => Some("MC"),
            255 => Some("PT"),
            256 => Some("MT"),
            257 => Some("NO"),
            258 => Some("NO"),
            259 => Some("NO"),
            261 => Some("PL"),
            262 => Some("ME"),
            263 => Some("PT"),
            264 => Some("RO"),
            265 => Some("SE"),
            266 => Some("SE"),
            267 => Some("SK"),
            268 => Some("SM"),
            269 => Some("CH"),
            270 => Some("CZ"),
            271 => Some("TR"),
            272 => Some("UA"),
            273 => Some("RU"),
            274 => Some("MK"),
            275 => Some("LV"),
            276 => Some("EE"),
            277 => Some("LT"),
            278 => Some("SI"),
            279 => Some("RS"),
            301 => Some("AI"),
            303 => Some("US"),
            304 => Some("AG"),
            305 => Some("AG"),
            306 => Some("BQ"),
            307 => Some("AW"),
            308 => Some("BS"),
            309 => Some("BS"),
            310 => Some("BM"),
            311 => Some("BS"),
            312 => Some("BZ"),
            314 => Some("BB"),
            316 => Some("CA"),
            319 => Some("KY"),
            321 => Some("CR"),
            323 => Some("CU"),
            325 => Some("DM"),
            327 => Some("DO"),
            329 => Some("GP"),
            330 => Some("GD"),
            331 => Some("GL"),
            332 => Some("GT"),
            334 => Some("HN"),
            336 => Some("HT"),
            338 => Some("US"),
            339 => Some("JM"),
            341 => Some("KN"),
            343 => Some("LC"),
            345 => Some("MX"),
            347 => Some("MQ"),
            348 => Some("MS"),
            350 => Some("NI"),
            351 => Some("PA"),
            352 => Some("PA"),
            353 => Some("PA"),
            354 => Some("PA"),
            355 => Some("PA"),
            356 => Some("PA"),
            357 => Some("PA"),
            358 => Some("PR"),
            359 => Some("SV"),
            361 => Some("PM"),
            362 => Some("TT"),
            364 => Some("TC"),
            366 => Some("US"),
            367 => Some("US"),
            368 => Some("US"),
            369 => Some("US"),
            370 => Some("PA"),
            371 => Some("PA"),
            372 => Some("PA"),
            373 => Some("PA"),
            374 => Some("PA"),
            375 => Some("VC"),
            376 => Some("VC"),
            377 => Some("VC"),
            378 => Some("VG"),
            379 => Some("VI"),
            401 => Some("AF"),
            403 => Some("SA"),
            405 => Some("BD"),
            408 => Some("BH"),
            410 => Some("BT"),
            412 => Some("CN"),
            413 => Some("CN"),
            414 => Some("CN"),
            416 => Some("TW"),
            417 => Some("LK"),
            419 => Some("IN"),
            422 => Some("IR"),
            423 => Some("AZ"),
            425 => Some("IQ"),
            428 => Some("IL"),
            431 => Some("JP"),
            432 => Some("JP"),
            434 => Some("TM"),
            436 => Some("KZ"),
            437 => Some("UZ"),
            438 => Some("JO"),
            440 => Some("KR"),
            441 => Some("KR"),
            443 => Some("PS"),
            445 => Some("KR"),
            447 => Some("KW"),
            450 => Some("LB"),
            451 => Some("KG"),
            453 => Some("MO"),
            455 => Some("MV"),
            457 => Some("MN"),
            459 => Some("NP"),
            461 => Some("OM"),
            463 => Some("PK"),
            466 => Some("QA"),
            468 => Some("SY"),
            470 => Some("AE"),
            471 => Some("AE"),
            472 => Some("TJ"),
            473 => Some("YE"),
            475 => Some("YE"),
            477 => Some("HK"),
            478 => Some("BA"),
            501 => Some("TF"),
            503 => Some("AU"),
            506 => Some("MM"),
            508 => Some("BN"),
            510 => Some("FM"),
            511 => Some("PW"),
            512 => Some("NZ"),
            514 => Some("KH"),
            515 => Some("KH"),
            516 => Some("CX"),
            518 => Some("CK"),
            520 => Some("FJ"),
            523 => Some("CC"),
            525 => Some("ID"),
            529 => Some("KI"),
            531 => Some("LA"),
            533 => Some("MY"),
            536 => Some("MP"),
            538 => Some("MH"),
            540 => Some("NC"),
            542 => Some("NU"),
            544 => Some("NR"),
            546 => Some("PF"),
            548 => Some("PH"),
            550 => Some("TL"),
            553 => Some("PG"),
            555 => Some("PN"),
            557 => Some("SB"),
            559 => Some("AS"),
            561 => Some("WS"),
            563 => Some("SG"),
            564 => Some("SG"),
            565 => Some("SG"),
            566 => Some("SG"),
            567 => Some("TH"),
            570 => Some("TO"),
            572 => Some("TV"),
            574 => Some("VN"),
            576 => Some("VU"),
            577 => Some("VU"),
            578 => Some("WF"),
            601 => Some("ZA"),
            603 => Some("AO"),
            605 => Some("DZ"),
            607 => Some("TF"),
            608 => Some("SH"),
            609 => Some("BI"),
            610 => Some("BJ"),
            611 => Some("BW"),
            612 => Some("CF"),
            613 => Some("CM"),
            615 => Some("CG"),
            616 => Some("KM"),
            617 => Some("CV"),
            618 => Some("TF"),
            619 => Some("CI"),
            620 => Some("KM"),
            621 => Some("DJ"),
            622 => Some("EG"),
            624 => Some("ET"),
            625 => Some("ER"),
            626 => Some("GA"),
            627 => Some("GH"),
            629 => Some("GM"),
            630 => Some("GW"),
            631 => Some("GQ"),
            632 => Some("GN"),
            633 => Some("BF"),
            634 => Some("KE"),
            635 => Some("TF"),
            636 => Some("LR"),
            637 => Some("LR"),
            638 => Some("SS"),
            642 => Some("LY"),
            644 => Some("LS"),
            645 => Some("MU"),
            647 => Some("MG"),
            649 => Some("ML"),
            650 => Some("MZ"),
            654 => Some("MR"),
            655 => Some("MW"),
            656 => Some("NE"),
            657 => Some("NG"),
            659 => Some("NA"),
            660 => Some("TF"),
            661 => Some("RW"),
            662 => Some("SD"),
            663 => Some("SN"),
            664 => Some("SC"),
            665 => Some("SH"),
            666 => Some("SO"),
            667 => Some("SL"),
            668 => Some("ST"),
            669 => Some("SZ"),
            670 => Some("TD"),
            671 => Some("TG"),
            672 => Some("TN"),
            674 => Some("TZ"),
            675 => Some("UG"),
            676 => Some("CG"),
            677 => Some("TZ"),
            678 => Some("ZM"),
            679 => Some("ZW"),
            701 => Some("AR"),
            710 => Some("BR"),
            720 => Some("BO"),
            725 => Some("CL"),
            730 => Some("CO"),
            735 => Some("EC"),
            740 => Some("FK"),
            745 => Some("GF"),
            750 => Some("GY"),
            755 => Some("PY"),
            760 => Some("PE"),
            765 => Some("SR"),
            770 => Some("UY"),
            775 => Some("VE"),
            _ => None,
        }
    }
}

} // verus!

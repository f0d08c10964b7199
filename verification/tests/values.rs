use ofx_parse::datetime::OfxDateTime;
use ofx_parse::de::decode_signon_response;
use ofx_parse::element::parse_element;
use ofx_parse::ofx::{parse_severity, Severity};

#[test]
fn severity_tokens_round_trip() {
    for v in [Severity::Info, Severity::Warn, Severity::Error] {
        assert_eq!(parse_severity(v.token()), Some(v));
    }
    assert_eq!(parse_severity("INFOS"), None);
    assert_eq!(parse_severity("info"), None);
}

#[test]
fn unix_epoch_has_its_known_day_number() {
    // 719528 days separate 0000-01-01 and 1970-01-01 in the proleptic
    // Gregorian calendar.
    let epoch = OfxDateTime::from_parts(1970, 1, 1, 0, 0, 0, 0, 0).unwrap();
    assert_eq!(epoch.instant_ms, 719528i64 * 86400000);
}

#[test]
fn offset_is_folded_into_the_instant() {
    let utc = OfxDateTime::from_parts(1970, 1, 1, 1, 0, 0, 0, 0).unwrap();
    let plus_one = OfxDateTime::from_parts(1970, 1, 1, 2, 0, 0, 0, 1).unwrap();
    assert_eq!(utc, plus_one);
}

#[test]
fn calendar_rejects_out_of_range_fields() {
    assert!(OfxDateTime::from_parts(2025, 13, 1, 0, 0, 0, 0, 0).is_none());
    assert!(OfxDateTime::from_parts(2025, 2, 29, 0, 0, 0, 0, 0).is_none());
    assert!(OfxDateTime::from_parts(2025, 1, 1, 24, 0, 0, 0, 0).is_none());
    assert!(OfxDateTime::from_parts(2025, 1, 1, 0, 60, 0, 0, 0).is_none());
    assert!(OfxDateTime::from_parts(2025, 1, 1, 0, 0, 0, 1000, 0).is_none());
    assert!(OfxDateTime::from_parts(2025, 1, 1, 0, 0, 0, 0, 15).is_none());
}

#[test]
fn catch_all_keys_are_unique_and_later_values_shadow_earlier_ones() {
    let text = "<SONRS>\n\
<STATUS>\n\
<CODE>0\n\
<SEVERITY>INFO\n\
<MESSAGE>OK\n\
</STATUS>\n\
<DTSERVER>20220717164144\n\
<LANGUAGE>ENG\n\
<A>first\n\
<A>second\n\
</SONRS>";
    let e = parse_element(text, 0).unwrap().0;
    let sonrs = decode_signon_response(&e).unwrap();
    assert_eq!(sonrs.unknown.get("A").unwrap().as_str(), "second");
}

use chrono::{Datelike, NaiveDate, NaiveDateTime, NaiveTime, SecondsFormat, Timelike, Utc};
use ojp_rs::{PersonalMode, RequestBuilder, RequestError, RequestType, UtcDateTime};

fn utc(year: i32, month: u32, day: u32, hour: u32, minute: u32, second: u32, nanosecond: u32) -> UtcDateTime {
    UtcDateTime { year, month, day, hour, minute, second, nanosecond }
}

fn noon() -> UtcDateTime {
    utc(2025, 7, 15, 12, 30, 5, 0)
}

fn chrono_utc(t: &UtcDateTime) -> chrono::DateTime<Utc> {
    NaiveDate::from_ymd_opt(t.year, t.month, t.day)
        .unwrap()
        .and_hms_nano_opt(t.hour, t.minute, t.second, t.nanosecond)
        .unwrap()
        .and_utc()
}

fn expected_location(now: &str, requestor_ref: &str, name: &str, number_results: u32) -> String {
    format!("<?xml version=\"1.0\" encoding=\"UTF-8\"?>
                            <OJP xmlns=\"http://www.vdv.de/ojp\" xmlns:siri=\"http://www.siri.org.uk/siri\" version=\"2.0\">
                             	<OJPRequest>
                                    <siri:ServiceRequest>
                                        <siri:RequestTimestamp>{now}</siri:RequestTimestamp>
                                        <siri:RequestorRef>{requestor_ref}</siri:RequestorRef>
                                        <OJPLocationInformationRequest>
                                        <siri:RequestTimestamp>{now}</siri:RequestTimestamp>
                                        <siri:MessageIdentifier>LIR-1a</siri:MessageIdentifier>
                                        <InitialInput>
                                            <Name>{name}</Name>
                                        </InitialInput>
                                        <Restrictions>
                                            <Type>stop</Type>
                                            <NumberOfResults>{number_results}</NumberOfResults>
                                        </Restrictions>
                                    </OJPLocationInformationRequest>
                                    </siri:ServiceRequest>
                                </OJPRequest>
                            </OJP>")
}

fn expected_trip(now: &str, requestor_ref: &str, from: i32, date_time: &str, to: i32, number_results: u32, it_modes: &str) -> String {
    format!("<?xml version=\"1.0\" encoding=\"UTF-8\"?>
                            <OJP xmlns=\"http://www.vdv.de/ojp\" xmlns:siri=\"http://www.siri.org.uk/siri\" version=\"2.0\">
                             	<OJPRequest>
                                    <siri:ServiceRequest>
                                        <siri:RequestTimestamp>{now}</siri:RequestTimestamp>
                                        <siri:RequestorRef>{requestor_ref}</siri:RequestorRef>
                                        <OJPTripRequest>
                                            <siri:RequestTimestamp>{now}</siri:RequestTimestamp>
                                            <siri:MessageIdentifier>TR-1r1</siri:MessageIdentifier>
                                            <Origin>
                                                <PlaceRef>
                                                    <siri:StopPointRef>{from}</siri:StopPointRef>
                                                </PlaceRef>
                                                <DepArrTime>{date_time}</DepArrTime>
                                            </Origin>
                                            <Destination>
                                                <PlaceRef>
                                                    <siri:StopPointRef>{to}</siri:StopPointRef>
                                                </PlaceRef>
                                            </Destination>
                                            <Params>
                                                <NumberOfResults>{number_results}</NumberOfResults>
                                                {it_modes}
                                            </Params>
                                        </OJPTripRequest>
                                    </siri:ServiceRequest>
                                </OJPRequest>
                            </OJP>")
}

fn trip_builder() -> RequestBuilder {
    RequestBuilder::from_utc(utc(2025, 7, 15, 8, 0, 0, 0))
        .set_request_type(RequestType::Trip)
        .set_from(8503000)
        .set_to(8503006)
        .set_number_results(3)
}

#[test]
fn location_document_is_exact() {
    let body = RequestBuilder::from_utc(noon())
        .set_request_type(RequestType::LocationInformation)
        .set_requestor_ref("OJP-Example")
        .set_name("Zürich & <Bern>")
        .set_number_results(12)
        .request_body_at(&noon())
        .unwrap();
    let expected = expected_location(
        "2025-07-15T12:30:05.000Z",
        "OJP-Example",
        "Zürich &amp; &lt;Bern&gt;",
        12,
    );
    assert_eq!(body, expected);
}

#[test]
fn trip_document_is_exact() {
    let body = trip_builder()
        .set_requestor_ref("ref\r")
        .set_it_modes(&[PersonalMode::Foot])
        .request_body_at(&noon())
        .unwrap();
    let expected = expected_trip(
        "2025-07-15T12:30:05.000Z",
        "ref&#13;",
        8503000,
        "2025-07-15T08:00:00.000Z",
        8503006,
        3,
        "<ItModeToCover><PersonalMode>foot</PersonalMode></ItModeToCover>",
    );
    assert_eq!(body, expected);
}

#[test]
fn trip_document_prints_negative_stop_references() {
    let body = RequestBuilder::from_utc(noon())
        .set_request_type(RequestType::Trip)
        .set_from(i32::MIN)
        .set_to(-7)
        .set_number_results(u32::MAX)
        .request_body_at(&noon())
        .unwrap();
    assert!(body.contains("<siri:StopPointRef>-2147483648</siri:StopPointRef>"));
    assert!(body.contains("<siri:StopPointRef>-7</siri:StopPointRef>"));
    assert!(body.contains("<NumberOfResults>4294967295</NumberOfResults>"));
}

#[test]
fn rfc3339_text_matches_chrono() {
    let instants = [
        noon(),
        utc(2016, 12, 31, 23, 59, 59, 1_500_000_000),
        utc(-44, 3, 15, 1, 2, 3, 999_999_999),
        utc(12345, 1, 2, 3, 4, 5, 123_456_789),
        utc(0, 2, 29, 0, 0, 0, 7_000_000),
        utc(262142, 12, 31, 23, 59, 59, 0),
        utc(-262143, 1, 1, 0, 0, 0, 0),
    ];
    for now in instants {
        let body = trip_builder().request_body_at(&now).unwrap();
        let expected = chrono_utc(&now).to_rfc3339_opts(SecondsFormat::Millis, true);
        assert!(
            body.contains(&format!("<siri:RequestTimestamp>{expected}</siri:RequestTimestamp>")),
            "{expected}"
        );
    }
    let body = trip_builder().request_body_at(&utc(2016, 12, 31, 23, 59, 59, 1_500_000_000)).unwrap();
    assert!(body.contains("<siri:RequestTimestamp>2016-12-31T23:59:60.500Z</siri:RequestTimestamp>"));
    let body = trip_builder().request_body_at(&utc(-44, 3, 15, 1, 2, 3, 999_999_999)).unwrap();
    assert!(body.contains("-0044-03-15T01:02:03.999Z"));
    let body = trip_builder().request_body_at(&utc(12345, 1, 2, 3, 4, 5, 123_456_789)).unwrap();
    assert!(body.contains("+12345-01-02T03:04:05.123Z"));
}

#[test]
fn description_date_time_matches_chrono() {
    let instants = [
        (utc(2025, 7, 15, 8, 0, 0, 0), "2025-07-15 08:00:00 UTC"),
        (utc(2025, 7, 15, 8, 0, 0, 500_000_000), "2025-07-15 08:00:00.500 UTC"),
        (utc(2025, 7, 15, 8, 0, 0, 123_456_000), "2025-07-15 08:00:00.123456 UTC"),
        (utc(2025, 7, 15, 8, 0, 0, 1), "2025-07-15 08:00:00.000000001 UTC"),
        (utc(2016, 12, 31, 23, 59, 59, 1_000_000_000), "2016-12-31 23:59:60 UTC"),
        (utc(-5, 1, 1, 0, 0, 0, 0), "-0005-01-01 00:00:00 UTC"),
    ];
    for (date_time, expected) in instants {
        assert_eq!(chrono_utc(&date_time).to_string(), expected);
        let text = RequestBuilder::from_utc(date_time).to_string();
        assert!(text.contains(&format!(", DateTime: {expected}, ")), "{text}");
    }
}

#[test]
fn description_of_each_request_type() {
    let date_time = utc(2025, 7, 15, 8, 0, 0, 0);
    let location = RequestBuilder::from_utc(date_time)
        .set_request_type(RequestType::LocationInformation)
        .set_name("Bern")
        .set_number_results(2)
        .set_requestor_ref("me");
    assert_eq!(
        location.to_string(),
        "Location Information Request: Location: Bern, NumberResults: 2, DateTime: 2025-07-15 08:00:00 UTC, RequestorRef: me, Token: Undefined"
    );
    let trip = RequestBuilder::from_utc(date_time)
        .set_request_type(RequestType::Trip)
        .set_from(-1)
        .set_it_modes(&[PersonalMode::Bicycle, PersonalMode::Car]);
    assert_eq!(
        trip.to_string(),
        "Trip Request: From: -1, To: Undefined, ItModes: [Bicycle, Car], NumberResults: 0, DateTime: 2025-07-15 08:00:00 UTC, RequestorRef: , Token: Undefined"
    );
    assert!(trip.to_string().contains(&format!("ItModes: {:?}, ", [PersonalMode::Bicycle, PersonalMode::Car])));
    let stop = RequestBuilder::from_utc(date_time).set_request_type(RequestType::StopEvent);
    assert!(stop.to_string().starts_with("Stop Envent Request Not Implement. NumberResults: 0"));
    let unknown = RequestBuilder::from_utc(date_time);
    assert!(unknown.to_string().starts_with("RequestType is unknown. NumberResults: 0"));
    let location_without_name = RequestBuilder::from_utc(date_time)
        .set_request_type(RequestType::LocationInformation);
    assert!(location_without_name.to_string().starts_with("Location Information Request: Location: Undefined, "));
}

#[test]
fn description_redacts_the_token() {
    let builder = trip_builder().set_token("very-secret-token".to_string());
    let text = builder.to_string();
    assert!(text.ends_with("Token: SecretBox<str>([REDACTED])"), "{text}");
    assert!(!text.contains("very-secret-token"));
}

#[test]
fn every_error_of_a_request_body() {
    let base = || RequestBuilder::from_utc(noon());
    assert!(matches!(base().request_body_at(&noon()), Err(RequestError::UnknownRequestType)));
    assert!(matches!(
        base().set_request_type(RequestType::StopEvent).set_number_results(1).request_body_at(&noon()),
        Err(RequestError::EventsRequestTypeNotImplemented)
    ));
    assert!(matches!(
        base().set_request_type(RequestType::LocationInformation).set_name("x").request_body_at(&noon()),
        Err(RequestError::InvalidNumberResults(0))
    ));
    assert!(matches!(
        base().set_request_type(RequestType::LocationInformation).set_number_results(1).request_body_at(&noon()),
        Err(RequestError::MissingLocationName)
    ));
    let trip = || base().set_request_type(RequestType::Trip);
    assert!(matches!(trip().set_from(1).set_to(2).request_body_at(&noon()), Err(RequestError::InvalidNumberResults(0))));
    assert!(matches!(trip().set_number_results(1).request_body_at(&noon()), Err(RequestError::MissingFromAndToId)));
    assert!(matches!(trip().set_number_results(1).set_from(1).request_body_at(&noon()), Err(RequestError::MissingToId)));
    assert!(matches!(trip().set_number_results(1).set_to(1).try_request_body(), Err(RequestError::MissingFromId)));
}

#[test]
fn request_parts_need_a_token_after_a_valid_body() {
    assert!(matches!(trip_builder().request_parts(), Err(RequestError::MissingAuthToken)));
    let without_number = RequestBuilder::from_utc(noon())
        .set_request_type(RequestType::Trip)
        .set_token("t".to_string());
    assert!(matches!(without_number.request_parts(), Err(RequestError::InvalidNumberResults(0))));
    let builder = trip_builder().set_token("secret-token".to_string());
    let (body, token) = builder.request_parts().unwrap();
    assert_eq!(token, "secret-token");
    assert!(body.contains("<siri:StopPointRef>8503006</siri:StopPointRef>"));
}

#[test]
fn request_type_names() {
    assert_eq!(String::try_from(RequestType::LocationInformation).unwrap(), "OJPLocationInformationRequest");
    assert_eq!(String::try_from(RequestType::Trip).unwrap(), "OJPTripRequest");
    assert_eq!(String::try_from(RequestType::StopEvent).unwrap(), "OJPStopEventRequest");
    assert!(matches!(String::try_from(RequestType::Unknown), Err(RequestError::UnknownRequestType)));
    assert_eq!(RequestType::Trip.try_into_string().unwrap(), "OJPTripRequest");
}

#[test]
fn personal_mode_parsing_is_exact() {
    assert_eq!(PersonalMode::from_str("scooter").unwrap(), PersonalMode::Scooter);
    assert!(matches!(PersonalMode::from_str("Foot"), Err(RequestError::UnknownPersonalMode(s)) if s == "Foot"));
    assert!(matches!(PersonalMode::from_str(""), Err(RequestError::UnknownPersonalMode(s)) if s.is_empty()));
    assert!(matches!("bike ".parse::<PersonalMode>(), Err(RequestError::UnknownPersonalMode(s)) if s == "bike "));
    assert_eq!(PersonalMode::Motorcycle.debug_name(), format!("{:?}", PersonalMode::Motorcycle));
}

#[test]
fn it_modes_do_not_change_a_location_document() {
    let location = || {
        RequestBuilder::from_utc(noon())
            .set_request_type(RequestType::LocationInformation)
            .set_name("Basel")
            .set_number_results(1)
    };
    let plain = location().request_body_at(&noon()).unwrap();
    let with_modes = location().set_it_modes(&[PersonalMode::Car, PersonalMode::Truck]).request_body_at(&noon()).unwrap();
    assert_eq!(plain, with_modes);
}

#[test]
fn escaped_text_has_no_markup() {
    let body = RequestBuilder::from_utc(noon())
        .set_request_type(RequestType::LocationInformation)
        .set_name("a<b>c\"d'e\rf&g")
        .set_number_results(1)
        .request_body_at(&noon())
        .unwrap();
    assert!(body.contains("<Name>a&lt;b&gt;c&quot;d&apos;e&#13;f&amp;g</Name>"));
    let plain = RequestBuilder::from_utc(noon())
        .set_request_type(RequestType::LocationInformation)
        .set_name("Genève Cornavin")
        .set_number_results(1)
        .request_body_at(&noon())
        .unwrap();
    assert!(plain.contains("<Name>Genève Cornavin</Name>"));
}

#[test]
fn mode_elements_follow_the_given_order() {
    let body = trip_builder()
        .set_it_modes(&[PersonalMode::Truck, PersonalMode::Foot, PersonalMode::Truck])
        .request_body_at(&noon())
        .unwrap();
    assert!(body.contains(
        "<ItModeToCover><PersonalMode>truck</PersonalMode></ItModeToCover><ItModeToCover><PersonalMode>foot</PersonalMode></ItModeToCover><ItModeToCover><PersonalMode>truck</PersonalMode></ItModeToCover>"
    ));
}

#[test]
fn try_new_departs_at_chronos_utc_conversion() {
    // Under any time zone, the departure printed is the local time moved to UTC by
    // chrono, with its milliseconds kept.
    let local = NaiveDateTime::new(
        NaiveDate::from_ymd_opt(2024, 1, 2).unwrap(),
        NaiveTime::from_hms_milli_opt(3, 4, 5, 678).unwrap(),
    );
    match local.and_local_timezone(chrono::Local).single() {
        Some(expected) => {
            let body = RequestBuilder::try_new(local)
                .unwrap()
                .set_request_type(RequestType::Trip)
                .set_from(1)
                .set_to(2)
                .set_number_results(1)
                .try_request_body()
                .unwrap();
            let departure = expected.to_utc().to_rfc3339_opts(SecondsFormat::Millis, true);
            assert!(body.contains(&format!("<DepArrTime>{departure}</DepArrTime>")));
            assert!(departure.ends_with(":05.678Z"));
        }
        None => assert!(matches!(
            RequestBuilder::try_new(local),
            Err(RequestError::InvalidLocalDateTime(d)) if d == local
        )),
    }
}

#[test]
fn setters_keep_the_token_and_it_is_sent() {
    let builder = RequestBuilder::from_utc(noon())
        .set_token("tok-abc123".to_string())
        .set_request_type(RequestType::Trip)
        .set_from(1)
        .set_to(2)
        .set_number_results(1)
        .set_name("n")
        .set_requestor_ref("r")
        .set_it_modes(&[PersonalMode::Car]);
    let (_, token) = builder.request_parts().unwrap();
    assert_eq!(token, "tok-abc123");
    let replaced = builder.set_token("other".to_string());
    assert_eq!(replaced.request_parts().unwrap().1, "other");
}

#[test]
fn description_does_not_depend_on_the_secret() {
    let with = |secret: &str| trip_builder().set_token(secret.to_string()).to_string();
    let first = with("tok-abc123");
    assert_eq!(first, with("something-else"));
    assert!(!first.contains("tok-abc123"));
    assert!(!first.ends_with("Token: Undefined"));
}

#[test]
fn leap_second_off_second_59_is_printed_like_chrono() {
    // chrono moves a leap second off second 59 when an offset is added.
    let leap = NaiveDate::from_ymd_opt(2015, 6, 30)
        .unwrap()
        .and_hms_nano_opt(23, 59, 59, 1_500_000_000)
        .unwrap();
    let shifted = leap + chrono::FixedOffset::east_opt(30).unwrap();
    let t = utc(
        shifted.year(),
        shifted.month(),
        shifted.day(),
        shifted.hour(),
        shifted.minute(),
        shifted.second(),
        shifted.nanosecond(),
    );
    assert_eq!((t.second, t.nanosecond), (29, 1_500_000_000));
    let expected = shifted.and_utc().to_rfc3339_opts(SecondsFormat::Millis, true);
    let body = trip_builder().request_body_at(&t).unwrap();
    assert!(body.contains(&format!("<siri:RequestTimestamp>{expected}</siri:RequestTimestamp>")), "{expected}");
    let text = RequestBuilder::from_utc(t).to_string();
    assert!(text.contains(&format!(", DateTime: {}, ", shifted.and_utc())), "{text}");
    assert!(text.contains("2015-07-01 00:00:30.500 UTC"), "{text}");
}

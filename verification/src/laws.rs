//! Properties of the library that hold for all inputs.

use vstd::prelude::*;
use crate::builder::{
    RequestSpec, description, modes_debug, location_document, mode_elements, request_document, request_error, trip_document,
};
use crate::template::{
    DEPARTURE_CLOSE, DEPARTURE_OPEN, DESCRIBE_MODES, DESCRIBE_SEPARATOR, DESTINATION_BEFORE_STOP,
    DESTINATION_OPEN, LOCATION_AFTER_REQUESTOR, LOCATION_BEFORE_NAME, LOCATION_BEFORE_NUMBER,
    LOCATION_TAIL, NAME_CLOSE, NAME_OPEN, NUMBER_CLOSE, NUMBER_OPEN, ORIGIN_BEFORE_STOP, ORIGIN_OPEN,
    REQUEST_AFTER_TIMESTAMP, REQUEST_HEAD, STOP_CLOSE, STOP_OPEN, TIMESTAMP_CLOSE, TIMESTAMP_OPEN,
    TRIP_AFTER_REQUESTOR, TRIP_BEFORE_DEPARTURE, TRIP_BEFORE_DESTINATION, TRIP_BEFORE_MODES,
    TRIP_BEFORE_NUMBER, TRIP_BEFORE_ORIGIN, TRIP_TAIL,
};
use crate::text::{decimal, signed_decimal};
use crate::mode::{PersonalMode, RequestType, mode_debug_name, mode_named, mode_text};
use crate::time::UtcDateTime;
use crate::xml::{escape_char, xml_escape};
use vstd::seq_lib::lemma_concat_associative;

verus! {

/// Every mode's XML value parses back to that mode: `from_str(m.as_str())`
/// is `Ok(m)`, so no two modes share a value.
pub proof fn lemma_mode_text_round_trip(m: PersonalMode)
    ensures
        mode_named(mode_text(m)) == Some(m),
{
    reveal_strlit("foot");
    reveal_strlit("bicycle");
    reveal_strlit("car");
    reveal_strlit("motorcycle");
    reveal_strlit("truck");
    reveal_strlit("scooter");
    broadcast use vstd::string::group_string_axioms;
    assert("foot"@.len() == 4);
    assert("bicycle"@.len() == 7);
    assert("car"@.len() == 3);
    assert("motorcycle"@.len() == 10);
    assert("truck"@.len() == 5);
    assert("scooter"@.len() == 7);
    assert("bicycle"@[0] != "scooter"@[0]);
}

/// A text parses to a mode only if it is that mode's XML value.
pub proof fn lemma_mode_named_is_mode_text(text: Seq<char>)
    ensures
        mode_named(text) matches Some(m) ==> text == mode_text(m),
{
}

/// Escaped text holds no markup delimiter and no quote: `<`, `>`, `"`, `'`
/// and the carriage return never occur in it, whatever the input.
pub proof fn lemma_escape_has_no_markup(s: Seq<char>)
    ensures
        forall|i: int|
            0 <= i < xml_escape(s).len() ==> {
                let c = #[trigger] xml_escape(s)[i];
                c != '<' && c != '>' && c != '"' && c != '\'' && c != '\r'
            },
    decreases s.len(),
{
    if s.len() > 0 {
        lemma_escape_has_no_markup(s.drop_last());
        let head = xml_escape(s.drop_last());
        let tail = escape_char(s.last());
        assert(xml_escape(s) == head + tail);
        assert forall|i: int| 0 <= i < xml_escape(s).len() implies {
            let c = #[trigger] xml_escape(s)[i];
            c != '<' && c != '>' && c != '"' && c != '\'' && c != '\r'
        } by {
            if i < head.len() {
                assert(xml_escape(s)[i] == head[i]);
            } else {
                assert(xml_escape(s)[i] == tail[i - head.len()]);
            }
        }
    }
}

/// Text without any character that escaping replaces is left unchanged.
pub proof fn lemma_escape_keeps_plain_text(s: Seq<char>)
    requires
        forall|i: int|
            0 <= i < s.len() ==> {
                let c = #[trigger] s[i];
                c != '<' && c != '>' && c != '&' && c != '"' && c != '\'' && c != '\r'
            },
    ensures
        xml_escape(s) == s,
    decreases s.len(),
{
    if s.len() > 0 {
        assert(s.last() == s[s.len() - 1]);
        lemma_escape_keeps_plain_text(s.drop_last());
        assert(s.drop_last().push(s.last()) =~= s);
        assert(xml_escape(s) =~= s);
    }
}

/// The individual transport modes are emitted one element per mode, in the
/// order given: the elements of a concatenation are the concatenation of
/// the elements.
pub proof fn lemma_mode_elements_concat(a: Seq<PersonalMode>, b: Seq<PersonalMode>)
    ensures
        mode_elements(a + b) == mode_elements(a) + mode_elements(b),
    decreases b.len(),
{
    if b.len() == 0 {
        assert(a + b =~= a);
        assert(mode_elements(b) =~= Seq::<char>::empty());
        assert(mode_elements(a) + mode_elements(b) =~= mode_elements(a));
    } else {
        lemma_mode_elements_concat(a, b.drop_last());
        assert((a + b).drop_last() =~= a + b.drop_last());
        assert((a + b).last() == b.last());
        assert(mode_elements(a + b) =~= mode_elements(a) + mode_elements(b));
    }
}

/// Individual transport modes only matter for trip requests: for any other
/// request type, changing them changes neither whether a document comes nor
/// the document.
pub proof fn lemma_it_modes_only_affect_trips(
    r: RequestSpec,
    modes: Seq<PersonalMode>,
    now: UtcDateTime,
)
    requires
        !(r.request_type is Trip),
    ensures
        request_error(RequestSpec { it_modes: modes, ..r }) == request_error(r),
        request_error(r) is None ==> request_document(RequestSpec { it_modes: modes, ..r }, now)
            == request_document(r, now),
{
}

/// In a location document the searched name stands, escaped, inside the
/// document's `<Name>` element, and its escaped text holds no `<` or `>`:
/// no name can close that element or open another.
pub proof fn lemma_location_name_stays_in_its_element(
    now: Seq<char>,
    requestor_ref: Seq<char>,
    name: Seq<char>,
    number_results: u32,
)
    ensures
        exists|before: Seq<char>, after: Seq<char>|
            location_document(now, requestor_ref, name, number_results) == before + "<Name>"@
                + xml_escape(name) + "</Name>"@ + after,
        forall|i: int|
            0 <= i < xml_escape(name).len() ==> #[trigger] xml_escape(name)[i] != '<'
                && xml_escape(name)[i] != '>',
{
    let before = REQUEST_HEAD@ + TIMESTAMP_OPEN@ + now + TIMESTAMP_CLOSE@ + REQUEST_AFTER_TIMESTAMP@
        + xml_escape(requestor_ref) + LOCATION_AFTER_REQUESTOR@ + TIMESTAMP_OPEN@ + now
        + TIMESTAMP_CLOSE@ + LOCATION_BEFORE_NAME@;
    let after = LOCATION_BEFORE_NUMBER@ + NUMBER_OPEN@ + decimal(number_results as nat)
        + NUMBER_CLOSE@ + LOCATION_TAIL@;
    assert(NAME_OPEN@ == "<Name>"@);
    assert(NAME_CLOSE@ == "</Name>"@);
    assert(location_document(now, requestor_ref, name, number_results) =~= before + "<Name>"@
        + xml_escape(name) + "</Name>"@ + after);
    lemma_escape_has_no_markup(name);
}

/// In a trip document the individual transport modes come after the number
/// of results.
pub proof fn lemma_modes_follow_number_of_results(
    now: Seq<char>,
    requestor_ref: Seq<char>,
    from: i32,
    departure: Seq<char>,
    to: i32,
    number_results: u32,
    modes: Seq<PersonalMode>,
)
    ensures
        exists|before: Seq<char>, between: Seq<char>, after: Seq<char>|
            trip_document(now, requestor_ref, from, departure, to, number_results, modes) == before
                + "<NumberOfResults>"@ + decimal(number_results as nat) + "</NumberOfResults>"@
                + between + mode_elements(modes) + after,
{
    let before = REQUEST_HEAD@ + TIMESTAMP_OPEN@ + now + TIMESTAMP_CLOSE@ + REQUEST_AFTER_TIMESTAMP@
        + xml_escape(requestor_ref) + TRIP_AFTER_REQUESTOR@ + TIMESTAMP_OPEN@ + now
        + TIMESTAMP_CLOSE@ + TRIP_BEFORE_ORIGIN@ + ORIGIN_OPEN@ + ORIGIN_BEFORE_STOP@ + STOP_OPEN@
        + signed_decimal(from as int) + STOP_CLOSE@ + TRIP_BEFORE_DEPARTURE@ + DEPARTURE_OPEN@
        + departure + DEPARTURE_CLOSE@ + TRIP_BEFORE_DESTINATION@ + DESTINATION_OPEN@
        + DESTINATION_BEFORE_STOP@ + STOP_OPEN@ + signed_decimal(to as int) + STOP_CLOSE@
        + TRIP_BEFORE_NUMBER@;
    let between = TRIP_BEFORE_MODES@;
    let after = TRIP_TAIL@;
    assert(NUMBER_OPEN@ == "<NumberOfResults>"@);
    assert(NUMBER_CLOSE@ == "</NumberOfResults>"@);
    assert(trip_document(now, requestor_ref, from, departure, to, number_results, modes) =~= before
        + "<NumberOfResults>"@ + decimal(number_results as nat) + "</NumberOfResults>"@ + between
        + mode_elements(modes) + after);
}

/// The XML values of the modes contain no character that escaping
/// replaces, so they are written into requests unescaped and unchanged.
pub proof fn lemma_mode_text_needs_no_escaping(m: PersonalMode)
    ensures
        xml_escape(mode_text(m)) == mode_text(m),
{
    broadcast use vstd::string::group_string_axioms;
    reveal_strlit("foot");
    reveal_strlit("bicycle");
    reveal_strlit("car");
    reveal_strlit("motorcycle");
    reveal_strlit("truck");
    reveal_strlit("scooter");
    let letters = match m {
        PersonalMode::Foot => seq!['f', 'o', 'o', 't'],
        PersonalMode::Bicycle => seq!['b', 'i', 'c', 'y', 'c', 'l', 'e'],
        PersonalMode::Car => seq!['c', 'a', 'r'],
        PersonalMode::Motorcycle => seq!['m', 'o', 't', 'o', 'r', 'c', 'y', 'c', 'l', 'e'],
        PersonalMode::Truck => seq!['t', 'r', 'u', 'c', 'k'],
        PersonalMode::Scooter => seq!['s', 'c', 'o', 'o', 't', 'e', 'r'],
    };
    assert(mode_text(m) =~= letters);
    assert forall|i: int| 0 <= i < letters.len() implies {
        let c = #[trigger] letters[i];
        'a' <= c <= 'z'
    } by {}
    lemma_escape_keeps_plain_text(mode_text(m));
}

/// A description does not depend on the secret: two settings that differ
/// only in the token's text, both with a token, are described alike. With
/// `to_string`'s `ensures`, which shows every token as the same
/// `redacted_debug` text, the description (the text that is logged) never
/// varies with the secret.
pub proof fn lemma_description_ignores_secret(r1: RequestSpec, r2: RequestSpec, shown: Seq<char>)
    requires
        (r1.token is Some),
        (r2.token is Some),
        (RequestSpec { token: r1.token, ..r2 }) == r1,
    ensures
        description(r1, shown) == description(r2, shown),
{
}

/// Both request timestamps of a location document hold the instant the
/// document is written at, and the document does not depend on the
/// builder's departure time, which only trips use.
pub proof fn lemma_location_document_is_stamped_now(
    r: RequestSpec,
    now: UtcDateTime,
    departure: UtcDateTime,
)
    requires
        (r.request_type is LocationInformation),
        (request_error(r) is None),
    ensures
        request_document((RequestSpec { date_time: departure, ..r }), now) == request_document(
            r,
            now,
        ),
        exists|before: Seq<char>, between: Seq<char>, after: Seq<char>|
            request_document(r, now) == before + "<siri:RequestTimestamp>"@ + now.rfc3339_millis()
                + "</siri:RequestTimestamp>"@ + between + "<siri:RequestTimestamp>"@
                + now.rfc3339_millis() + "</siri:RequestTimestamp>"@ + after,
{
    let stamp = now.rfc3339_millis();
    let before = REQUEST_HEAD@;
    let between = REQUEST_AFTER_TIMESTAMP@ + xml_escape(r.requestor_ref)
        + LOCATION_AFTER_REQUESTOR@;
    let after = LOCATION_BEFORE_NAME@ + NAME_OPEN@ + xml_escape(r.name.unwrap()) + NAME_CLOSE@
        + LOCATION_BEFORE_NUMBER@ + NUMBER_OPEN@ + decimal(r.number_results as nat) + NUMBER_CLOSE@
        + LOCATION_TAIL@;
    assert(TIMESTAMP_OPEN@ == "<siri:RequestTimestamp>"@);
    assert(TIMESTAMP_CLOSE@ == "</siri:RequestTimestamp>"@);
    assert(request_document(r, now) =~= before + "<siri:RequestTimestamp>"@ + stamp
        + "</siri:RequestTimestamp>"@ + between + "<siri:RequestTimestamp>"@ + stamp
        + "</siri:RequestTimestamp>"@ + after);
}

/// A trip document sends the origin `from` in the origin's stop reference,
/// departs at the builder's departure time, and sends the destination `to`
/// in the destination's stop reference.
pub proof fn lemma_trip_document_places_stops(r: RequestSpec, now: UtcDateTime)
    requires
        (r.request_type is Trip),
        (request_error(r) is None),
    ensures
        exists|
            before: Seq<char>,
            to_origin_stop: Seq<char>,
            to_departure: Seq<char>,
            to_destination: Seq<char>,
            to_destination_stop: Seq<char>,
            after: Seq<char>,
        |
            request_document(r, now) == before + "<Origin>"@ + to_origin_stop
                + "<siri:StopPointRef>"@ + signed_decimal(r.from.unwrap() as int)
                + "</siri:StopPointRef>"@ + to_departure + "<DepArrTime>"@
                + r.date_time.rfc3339_millis() + "</DepArrTime>"@ + to_destination
                + "<Destination>"@ + to_destination_stop + "<siri:StopPointRef>"@ + signed_decimal(
                r.to.unwrap() as int,
            ) + "</siri:StopPointRef>"@ + after,
{
    let stamp = now.rfc3339_millis();
    let from = signed_decimal(r.from.unwrap() as int);
    let to = signed_decimal(r.to.unwrap() as int);
    let departure = r.date_time.rfc3339_millis();
    let before = REQUEST_HEAD@ + TIMESTAMP_OPEN@ + stamp + TIMESTAMP_CLOSE@
        + REQUEST_AFTER_TIMESTAMP@ + xml_escape(r.requestor_ref) + TRIP_AFTER_REQUESTOR@
        + TIMESTAMP_OPEN@ + stamp + TIMESTAMP_CLOSE@ + TRIP_BEFORE_ORIGIN@;
    let after = TRIP_BEFORE_NUMBER@ + NUMBER_OPEN@ + decimal(r.number_results as nat)
        + NUMBER_CLOSE@ + TRIP_BEFORE_MODES@ + mode_elements(r.it_modes) + TRIP_TAIL@;
    assert(ORIGIN_OPEN@ == "<Origin>"@);
    assert(DESTINATION_OPEN@ == "<Destination>"@);
    assert(STOP_OPEN@ == "<siri:StopPointRef>"@);
    assert(STOP_CLOSE@ == "</siri:StopPointRef>"@);
    assert(DEPARTURE_OPEN@ == "<DepArrTime>"@);
    assert(DEPARTURE_CLOSE@ == "</DepArrTime>"@);
    assert(request_document(r, now) =~= before + ORIGIN_OPEN@ + ORIGIN_BEFORE_STOP@ + STOP_OPEN@
        + from + STOP_CLOSE@ + TRIP_BEFORE_DEPARTURE@ + DEPARTURE_OPEN@ + departure
        + DEPARTURE_CLOSE@ + TRIP_BEFORE_DESTINATION@ + DESTINATION_OPEN@
        + DESTINATION_BEFORE_STOP@ + STOP_OPEN@ + to + STOP_CLOSE@ + after);
}

/// Both request timestamps of a trip document hold the instant the document
/// is written at.
pub proof fn lemma_trip_document_is_stamped_now(r: RequestSpec, now: UtcDateTime)
    requires
        (r.request_type is Trip),
        (request_error(r) is None),
    ensures
        exists|before: Seq<char>, between: Seq<char>, after: Seq<char>|
            request_document(r, now) == before + "<siri:RequestTimestamp>"@ + now.rfc3339_millis()
                + "</siri:RequestTimestamp>"@ + between + "<siri:RequestTimestamp>"@
                + now.rfc3339_millis() + "</siri:RequestTimestamp>"@ + after,
{
    let stamp = now.rfc3339_millis();
    let requestor = xml_escape(r.requestor_ref);
    let tail = TRIP_BEFORE_NUMBER@ + NUMBER_OPEN@ + decimal(r.number_results as nat)
        + NUMBER_CLOSE@ + TRIP_BEFORE_MODES@ + mode_elements(r.it_modes) + TRIP_TAIL@;
    let between = REQUEST_AFTER_TIMESTAMP@ + requestor + TRIP_AFTER_REQUESTOR@;
    // The document's pieces, nested to the left as it is written.
    let head = REQUEST_HEAD@ + TIMESTAMP_OPEN@ + stamp + TIMESTAMP_CLOSE@
        + REQUEST_AFTER_TIMESTAMP@ + requestor + TRIP_AFTER_REQUESTOR@ + TIMESTAMP_OPEN@ + stamp
        + TIMESTAMP_CLOSE@;
    let upto1 = head + TRIP_BEFORE_ORIGIN@;
    let upto2 = upto1 + ORIGIN_OPEN@;
    let upto3 = upto2 + ORIGIN_BEFORE_STOP@;
    let upto4 = upto3 + STOP_OPEN@;
    let upto5 = upto4 + signed_decimal(r.from.unwrap() as int);
    let upto6 = upto5 + STOP_CLOSE@;
    let upto7 = upto6 + TRIP_BEFORE_DEPARTURE@;
    let upto8 = upto7 + DEPARTURE_OPEN@;
    let upto9 = upto8 + r.date_time.rfc3339_millis();
    let upto10 = upto9 + DEPARTURE_CLOSE@;
    let upto11 = upto10 + TRIP_BEFORE_DESTINATION@;
    let upto12 = upto11 + DESTINATION_OPEN@;
    let upto13 = upto12 + DESTINATION_BEFORE_STOP@;
    let upto14 = upto13 + STOP_OPEN@;
    let upto15 = upto14 + signed_decimal(r.to.unwrap() as int);
    let upto16 = upto15 + STOP_CLOSE@;
    assert(request_document(r, now) =~= upto16 + tail);
    // Regroup to the right, one piece at a time.
    let from16 = STOP_CLOSE@ + tail;
    lemma_concat_associative(upto15, STOP_CLOSE@, tail);
    let from15 = signed_decimal(r.to.unwrap() as int) + from16;
    lemma_concat_associative(upto14, signed_decimal(r.to.unwrap() as int), from16);
    let from14 = STOP_OPEN@ + from15;
    lemma_concat_associative(upto13, STOP_OPEN@, from15);
    let from13 = DESTINATION_BEFORE_STOP@ + from14;
    lemma_concat_associative(upto12, DESTINATION_BEFORE_STOP@, from14);
    let from12 = DESTINATION_OPEN@ + from13;
    lemma_concat_associative(upto11, DESTINATION_OPEN@, from13);
    let from11 = TRIP_BEFORE_DESTINATION@ + from12;
    lemma_concat_associative(upto10, TRIP_BEFORE_DESTINATION@, from12);
    let from10 = DEPARTURE_CLOSE@ + from11;
    lemma_concat_associative(upto9, DEPARTURE_CLOSE@, from11);
    let from9 = r.date_time.rfc3339_millis() + from10;
    lemma_concat_associative(upto8, r.date_time.rfc3339_millis(), from10);
    let from8 = DEPARTURE_OPEN@ + from9;
    lemma_concat_associative(upto7, DEPARTURE_OPEN@, from9);
    let from7 = TRIP_BEFORE_DEPARTURE@ + from8;
    lemma_concat_associative(upto6, TRIP_BEFORE_DEPARTURE@, from8);
    let from6 = STOP_CLOSE@ + from7;
    lemma_concat_associative(upto5, STOP_CLOSE@, from7);
    let from5 = signed_decimal(r.from.unwrap() as int) + from6;
    lemma_concat_associative(upto4, signed_decimal(r.from.unwrap() as int), from6);
    let from4 = STOP_OPEN@ + from5;
    lemma_concat_associative(upto3, STOP_OPEN@, from5);
    let from3 = ORIGIN_BEFORE_STOP@ + from4;
    lemma_concat_associative(upto2, ORIGIN_BEFORE_STOP@, from4);
    let from2 = ORIGIN_OPEN@ + from3;
    lemma_concat_associative(upto1, ORIGIN_OPEN@, from3);
    let from1 = TRIP_BEFORE_ORIGIN@ + from2;
    lemma_concat_associative(head, TRIP_BEFORE_ORIGIN@, from2);
    assert(request_document(r, now) == head + from1);
    assert(head =~= REQUEST_HEAD@ + TIMESTAMP_OPEN@ + stamp + TIMESTAMP_CLOSE@ + between
        + TIMESTAMP_OPEN@ + stamp + TIMESTAMP_CLOSE@);
    assert(TIMESTAMP_OPEN@ == "<siri:RequestTimestamp>"@);
    assert(TIMESTAMP_CLOSE@ == "</siri:RequestTimestamp>"@);
    assert(request_document(r, now) == REQUEST_HEAD@ + "<siri:RequestTimestamp>"@ + stamp
        + "</siri:RequestTimestamp>"@ + between + "<siri:RequestTimestamp>"@ + stamp
        + "</siri:RequestTimestamp>"@ + from1);
}

/// A trip's description lists its individual transport modes whenever there
/// is at least one: `ItModes: ` followed by their `Debug` list and `, `.
pub proof fn lemma_trip_description_lists_modes(r: RequestSpec, token: Seq<char>)
    requires
        (r.request_type is Trip),
        r.it_modes.len() > 0,
    ensures
        exists|before: Seq<char>, after: Seq<char>|
            description(r, token) == before + "ItModes: "@ + modes_debug(r.it_modes) + ", "@
                + after,
{
    assert(DESCRIBE_MODES@ == "ItModes: "@);
    assert(DESCRIBE_SEPARATOR@ == ", "@);
    let kind = description(r, token);
    let before = crate::template::DESCRIBE_TRIP@ + crate::builder::id_text(r.from)
        + crate::template::DESCRIBE_TO@ + crate::builder::id_text(r.to) + DESCRIBE_SEPARATOR@;
    let after = crate::template::DESCRIBE_NUMBER@ + decimal(r.number_results as nat)
        + crate::template::DESCRIBE_DATE_TIME@ + r.date_time.display()
        + crate::template::DESCRIBE_REQUESTOR@ + r.requestor_ref + crate::template::DESCRIBE_TOKEN@
        + token;
    assert(description(r, token) =~= before + "ItModes: "@ + modes_debug(r.it_modes) + ", "@
        + after);
}

/// The `Debug` list of modes: one mode is `[Name]`, and each further mode
/// adds `, Name` before the closing bracket, in order.
pub proof fn lemma_modes_debug_lists_names(modes: Seq<PersonalMode>, m: PersonalMode)
    ensures
        modes_debug(seq![m]) == seq!['['] + mode_debug_name(m) + seq![']'],
        modes.len() > 0 ==> modes_debug(modes.push(m)) == modes_debug(modes).drop_last() + ", "@
            + mode_debug_name(m) + seq![']'],
{
    assert(DESCRIBE_SEPARATOR@ == ", "@);
    assert(modes_debug(seq![m]) =~= seq!['['] + mode_debug_name(m) + seq![']']);
    if modes.len() > 0 {
        assert(modes.push(m).drop_last() =~= modes);
        assert(modes.push(m).last() == m);
        assert(modes_debug(modes).drop_last() =~= seq!['['] + crate::builder::debug_names(modes));
        assert(modes_debug(modes.push(m)) =~= modes_debug(modes).drop_last() + ", "@
            + mode_debug_name(m) + seq![']']);
    }
}

} // verus!

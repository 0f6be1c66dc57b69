//! The request builder: its settings, the XML documents it produces, and
//! its description.

use vstd::prelude::*;
use crate::error::RequestError;
use crate::mode::{PersonalMode, RequestType, mode_text, mode_debug_name};
use crate::template::{
    REQUEST_HEAD, TIMESTAMP_OPEN, TIMESTAMP_CLOSE, REQUEST_AFTER_TIMESTAMP,
    LOCATION_AFTER_REQUESTOR, LOCATION_BEFORE_NAME, NAME_OPEN, NAME_CLOSE, LOCATION_BEFORE_NUMBER,
    NUMBER_OPEN, NUMBER_CLOSE, LOCATION_TAIL, TRIP_AFTER_REQUESTOR, TRIP_BEFORE_ORIGIN, ORIGIN_OPEN,
    ORIGIN_BEFORE_STOP, STOP_OPEN, STOP_CLOSE, TRIP_BEFORE_DEPARTURE, DEPARTURE_OPEN,
    DEPARTURE_CLOSE, TRIP_BEFORE_DESTINATION, DESTINATION_OPEN, DESTINATION_BEFORE_STOP,
    TRIP_BEFORE_NUMBER, TRIP_BEFORE_MODES, TRIP_TAIL, MODE_OPEN, MODE_CLOSE, UNDEFINED,
    DESCRIBE_LOCATION, DESCRIBE_TRIP, DESCRIBE_TO, DESCRIBE_SEPARATOR, DESCRIBE_MODES,
    DESCRIBE_STOP_EVENT, DESCRIBE_UNKNOWN, DESCRIBE_NUMBER, DESCRIBE_DATE_TIME, DESCRIBE_REQUESTOR,
    DESCRIBE_TOKEN,
};
use crate::text::{decimal, signed_decimal, append_decimal, append_signed_decimal, push_char};
use crate::time::{
    UtcDateTime, calendar_fields, resolve_local, utc_now, format_rfc3339_millis, format_display,
};
use crate::token::{AuthToken, redacted_debug, redacted_text, secret_text};
use crate::xml::{xml_escape, escape};

verus! {

/// Builds OJP 2.0 requests: a location information request (a stop searched
/// by name) or a trip request (between two stop references, departing at a
/// given time).
#[derive(Debug)]
pub struct RequestBuilder {
    token: Option<AuthToken>,
    date_time: UtcDateTime,
    request_type: RequestType,
    number_results: u32,
    from: Option<i32>,
    to: Option<i32>,
    name: Option<String>,
    requestor_ref: String,
    it_modes: Vec<PersonalMode>,
}

/// What a builder holds, as plain values: the text of its secret token, if
/// one was set, and every other setting.
pub struct RequestSpec {
    pub token: Option<Seq<char>>,
    pub date_time: UtcDateTime,
    pub request_type: RequestType,
    pub number_results: u32,
    pub from: Option<i32>,
    pub to: Option<i32>,
    pub name: Option<Seq<char>>,
    pub requestor_ref: Seq<char>,
    pub it_modes: Seq<PersonalMode>,
}

impl View for RequestBuilder {
    type V = RequestSpec;

    closed spec fn view(&self) -> RequestSpec {
        RequestSpec {
            token: match self.token {
                Some(token) => Some(secret_text(token)),
                None => None,
            },
            date_time: self.date_time,
            request_type: self.request_type,
            number_results: self.number_results,
            from: self.from,
            to: self.to,
            name: match self.name {
                Some(name) => Some(name@),
                None => None,
            },
            requestor_ref: self.requestor_ref@,
            it_modes: self.it_modes@,
        }
    }
}

/// A new builder's settings: departure at `date_time`, nothing else set.
pub open spec fn fresh_request(date_time: UtcDateTime) -> RequestSpec {
    RequestSpec {
        token: None,
        date_time,
        request_type: RequestType::Unknown,
        number_results: 0,
        from: None,
        to: None,
        name: None,
        requestor_ref: Seq::empty(),
        it_modes: Seq::empty(),
    }
}

/// One `ItModeToCover` element per mode, in order.
pub open spec fn mode_elements(modes: Seq<PersonalMode>) -> Seq<char>
    decreases modes.len(),
{
    if modes.len() == 0 {
        Seq::empty()
    } else {
        mode_elements(modes.drop_last()) + MODE_OPEN@ + mode_text(modes.last()) + MODE_CLOSE@
    }
}

/// The location information request document.
pub open spec fn location_document(
    now: Seq<char>,
    requestor_ref: Seq<char>,
    name: Seq<char>,
    number_results: u32,
) -> Seq<char> {
    REQUEST_HEAD@ + TIMESTAMP_OPEN@ + now + TIMESTAMP_CLOSE@ + REQUEST_AFTER_TIMESTAMP@
        + xml_escape(requestor_ref) + LOCATION_AFTER_REQUESTOR@ + TIMESTAMP_OPEN@ + now
        + TIMESTAMP_CLOSE@ + LOCATION_BEFORE_NAME@ + NAME_OPEN@ + xml_escape(name) + NAME_CLOSE@
        + LOCATION_BEFORE_NUMBER@ + NUMBER_OPEN@ + decimal(number_results as nat) + NUMBER_CLOSE@
        + LOCATION_TAIL@
}

/// The trip request document.
pub open spec fn trip_document(
    now: Seq<char>,
    requestor_ref: Seq<char>,
    from: i32,
    departure: Seq<char>,
    to: i32,
    number_results: u32,
    modes: Seq<PersonalMode>,
) -> Seq<char> {
    REQUEST_HEAD@ + TIMESTAMP_OPEN@ + now + TIMESTAMP_CLOSE@ + REQUEST_AFTER_TIMESTAMP@
        + xml_escape(requestor_ref) + TRIP_AFTER_REQUESTOR@ + TIMESTAMP_OPEN@ + now
        + TIMESTAMP_CLOSE@ + TRIP_BEFORE_ORIGIN@ + ORIGIN_OPEN@ + ORIGIN_BEFORE_STOP@ + STOP_OPEN@
        + signed_decimal(from as int) + STOP_CLOSE@ + TRIP_BEFORE_DEPARTURE@ + DEPARTURE_OPEN@
        + departure + DEPARTURE_CLOSE@ + TRIP_BEFORE_DESTINATION@ + DESTINATION_OPEN@
        + DESTINATION_BEFORE_STOP@ + STOP_OPEN@ + signed_decimal(to as int) + STOP_CLOSE@
        + TRIP_BEFORE_NUMBER@ + NUMBER_OPEN@ + decimal(number_results as nat) + NUMBER_CLOSE@
        + TRIP_BEFORE_MODES@ + mode_elements(modes) + TRIP_TAIL@
}

/// Why the settings give no request document, if they do not: the first
/// failing check in the order request type, number of results, then the
/// location name or the stop references.
pub open spec fn request_error(r: RequestSpec) -> Option<RequestError> {
    match r.request_type {
        RequestType::Unknown => Some(RequestError::UnknownRequestType),
        RequestType::StopEvent => Some(RequestError::EventsRequestTypeNotImplemented),
        RequestType::LocationInformation => if r.number_results == 0 {
            Some(RequestError::InvalidNumberResults(0))
        } else if r.name is None {
            Some(RequestError::MissingLocationName)
        } else {
            None
        },
        RequestType::Trip => if r.number_results == 0 {
            Some(RequestError::InvalidNumberResults(0))
        } else if r.from is None && r.to is None {
            Some(RequestError::MissingFromAndToId)
        } else if r.to is None {
            Some(RequestError::MissingToId)
        } else if r.from is None {
            Some(RequestError::MissingFromId)
        } else {
            None
        },
    }
}

/// The request document of settings that `request_error` accepts, written at
/// instant `now`.
pub open spec fn request_document(r: RequestSpec, now: UtcDateTime) -> Seq<char> {
    match r.request_type {
        RequestType::LocationInformation => location_document(
            now.rfc3339_millis(),
            r.requestor_ref,
            r.name.unwrap(),
            r.number_results,
        ),
        _ => trip_document(
            now.rfc3339_millis(),
            r.requestor_ref,
            r.from.unwrap(),
            r.date_time.rfc3339_millis(),
            r.to.unwrap(),
            r.number_results,
            r.it_modes,
        ),
    }
}


/// `text` or, where it is missing, `Undefined`.
pub open spec fn text_or_undefined(text: Option<Seq<char>>) -> Seq<char> {
    match text {
        Some(t) => t,
        None => UNDEFINED@,
    }
}

/// A stop reference's decimal text or, where it is missing, `Undefined`.
pub open spec fn id_text(id: Option<i32>) -> Seq<char> {
    match id {
        Some(i) => signed_decimal(i as int),
        None => UNDEFINED@,
    }
}

/// The modes' `Debug` names separated by `, `.
pub open spec fn debug_names(modes: Seq<PersonalMode>) -> Seq<char>
    decreases modes.len(),
{
    if modes.len() == 0 {
        Seq::empty()
    } else if modes.len() == 1 {
        mode_debug_name(modes[0])
    } else {
        debug_names(modes.drop_last()) + DESCRIBE_SEPARATOR@ + mode_debug_name(modes.last())
    }
}

/// The `Debug` text of a list of modes: `[Bicycle, Car]`.
pub open spec fn modes_debug(modes: Seq<PersonalMode>) -> Seq<char> {
    seq!['['] + debug_names(modes) + seq![']']
}

/// The part of a description that depends on the request type.
pub open spec fn kind_description(r: RequestSpec) -> Seq<char> {
    match r.request_type {
        RequestType::LocationInformation => DESCRIBE_LOCATION@ + text_or_undefined(r.name)
            + DESCRIBE_SEPARATOR@,
        RequestType::Trip => DESCRIBE_TRIP@ + id_text(r.from) + DESCRIBE_TO@ + id_text(r.to)
            + DESCRIBE_SEPARATOR@ + if r.it_modes.len() == 0 {
            Seq::<char>::empty()
        } else {
            DESCRIBE_MODES@ + modes_debug(r.it_modes) + DESCRIBE_SEPARATOR@
        },
        RequestType::StopEvent => DESCRIBE_STOP_EVENT@,
        RequestType::Unknown => DESCRIBE_UNKNOWN@,
    }
}

/// The description of settings `r` whose token is shown as `token`.
pub open spec fn description(r: RequestSpec, token: Seq<char>) -> Seq<char> {
    kind_description(r) + DESCRIBE_NUMBER@ + decimal(r.number_results as nat)
        + DESCRIBE_DATE_TIME@ + r.date_time.display() + DESCRIBE_REQUESTOR@ + r.requestor_ref
        + DESCRIBE_TOKEN@ + token
}


/// The `ItModeToCover` elements of `modes`.
fn mode_elements_text(modes: &Vec<PersonalMode>) -> (text: String)
    ensures
        text@ == mode_elements(modes@),
{
    let mut text = String::new();
    let count = modes.len();
    for i in 0..count
        invariant
            count == modes@.len(),
            text@ == mode_elements(modes@.subrange(0, i as int)),
    {
        text.append(MODE_OPEN);
        text.append(modes[i].as_str());
        text.append(MODE_CLOSE);
        proof {
            assert(modes@.subrange(0, i + 1).drop_last() =~= modes@.subrange(0, i as int));
        }
    }
    proof {
        assert(modes@.subrange(0, count as int) =~= modes@);
    }
    text
}

/// The location information request document.
fn location_body(now: &str, requestor_ref: &str, name: &str, number_results: u32) -> (body: String)
    ensures
        body@ == location_document(now@, requestor_ref@, name@, number_results),
{
    let requestor_ref = escape(requestor_ref);
    let name = escape(name);
    let mut body = String::new();
    body.append(REQUEST_HEAD);
    body.append(TIMESTAMP_OPEN);
    body.append(now);
    body.append(TIMESTAMP_CLOSE);
    body.append(REQUEST_AFTER_TIMESTAMP);
    body.append(requestor_ref.as_str());
    body.append(LOCATION_AFTER_REQUESTOR);
    body.append(TIMESTAMP_OPEN);
    body.append(now);
    body.append(TIMESTAMP_CLOSE);
    body.append(LOCATION_BEFORE_NAME);
    body.append(NAME_OPEN);
    body.append(name.as_str());
    body.append(NAME_CLOSE);
    body.append(LOCATION_BEFORE_NUMBER);
    body.append(NUMBER_OPEN);
    append_decimal(&mut body, number_results);
    body.append(NUMBER_CLOSE);
    body.append(LOCATION_TAIL);
    body
}

/// The trip request document.
fn trip_body(
    now: &str,
    requestor_ref: &str,
    from: i32,
    departure: &str,
    to: i32,
    number_results: u32,
    modes: &Vec<PersonalMode>,
) -> (body: String)
    ensures
        body@ == trip_document(now@, requestor_ref@, from, departure@, to, number_results, modes@),
{
    let requestor_ref = escape(requestor_ref);
    let mode_elements = mode_elements_text(modes);
    let mut body = String::new();
    body.append(REQUEST_HEAD);
    body.append(TIMESTAMP_OPEN);
    body.append(now);
    body.append(TIMESTAMP_CLOSE);
    body.append(REQUEST_AFTER_TIMESTAMP);
    body.append(requestor_ref.as_str());
    body.append(TRIP_AFTER_REQUESTOR);
    body.append(TIMESTAMP_OPEN);
    body.append(now);
    body.append(TIMESTAMP_CLOSE);
    body.append(TRIP_BEFORE_ORIGIN);
    body.append(ORIGIN_OPEN);
    body.append(ORIGIN_BEFORE_STOP);
    body.append(STOP_OPEN);
    append_signed_decimal(&mut body, from);
    body.append(STOP_CLOSE);
    body.append(TRIP_BEFORE_DEPARTURE);
    body.append(DEPARTURE_OPEN);
    body.append(departure);
    body.append(DEPARTURE_CLOSE);
    body.append(TRIP_BEFORE_DESTINATION);
    body.append(DESTINATION_OPEN);
    body.append(DESTINATION_BEFORE_STOP);
    body.append(STOP_OPEN);
    append_signed_decimal(&mut body, to);
    body.append(STOP_CLOSE);
    body.append(TRIP_BEFORE_NUMBER);
    body.append(NUMBER_OPEN);
    append_decimal(&mut body, number_results);
    body.append(NUMBER_CLOSE);
    body.append(TRIP_BEFORE_MODES);
    body.append(mode_elements.as_str());
    body.append(TRIP_TAIL);
    body
}

/// The `Debug` text of a list of modes.
fn modes_debug_text(modes: &Vec<PersonalMode>) -> (text: String)
    ensures
        text@ == modes_debug(modes@),
{
    let mut names = String::new();
    let count = modes.len();
    for i in 0..count
        invariant
            count == modes@.len(),
            names@ == debug_names(modes@.subrange(0, i as int)),
    {
        if i > 0 {
            names.append(DESCRIBE_SEPARATOR);
        }
        names.append(modes[i].debug_name());
        proof {
            let done = modes@.subrange(0, i + 1);
            assert(done.drop_last() =~= modes@.subrange(0, i as int));
            if i == 0 {
                assert(names@ =~= debug_names(done));
            }
        }
    }
    proof {
        assert(modes@.subrange(0, count as int) =~= modes@);
    }
    let mut text = String::new();
    push_char(&mut text, '[');
    text.append(names.as_str());
    push_char(&mut text, ']');
    proof {
        assert(text@ =~= modes_debug(modes@));
    }
    text
}

/// Appends a stop reference or `Undefined`.
fn append_id(text: &mut String, id: Option<i32>)
    ensures
        final(text)@ == old(text)@ + id_text(id),
{
    match id {
        Some(i) => append_signed_decimal(text, i),
        None => text.append(UNDEFINED),
    }
}

impl RequestBuilder {
    #[verifier::type_invariant]
    spec fn inv(self) -> bool {
        self.date_time.wf()
    }

    /// A builder departing at `date_time` in UTC, with nothing else set.
    pub fn from_utc(date_time: UtcDateTime) -> (builder: Self)
        requires
            date_time.wf(),
        ensures
            builder@ == fresh_request(date_time),
    {
        RequestBuilder {
            date_time,
            token: None,
            request_type: RequestType::Unknown,
            number_results: 0,
            from: None,
            to: None,
            name: None,
            requestor_ref: String::new(),
            it_modes: Vec::new(),
        }
    }

    /// A builder departing at the local date and time `date_time`. The offset
    /// is the one the machine's time zone gives that date and time itself (not
    /// the one in effect now); where that local time does not exist or is
    /// ambiguous, `InvalidLocalDateTime` with `date_time`.
    pub fn try_new(date_time: chrono::NaiveDateTime) -> (r: Result<Self, RequestError>)
        ensures
            match r {
                Ok(builder) => exists|utc: UtcDateTime|
                    utc.wf() && builder@ == fresh_request(utc),
                Err(e) => e == RequestError::InvalidLocalDateTime(date_time),
            },
    {
        match resolve_local(&date_time) {
            Some(utc) => Ok(RequestBuilder::from_utc(calendar_fields(&utc))),
            None => Err(RequestError::InvalidLocalDateTime(date_time)),
        }
    }

    /// Sets the origin stop reference.
    pub fn set_from(self, from: i32) -> (builder: Self)
        ensures
            builder@ == (RequestSpec { from: Some(from), ..self@ }),
    {
        let mut builder = self;
        proof {
            use_type_invariant(&builder);
        }
        builder.from = Some(from);
        builder
    }

    /// Sets the destination stop reference.
    pub fn set_to(self, to: i32) -> (builder: Self)
        ensures
            builder@ == (RequestSpec { to: Some(to), ..self@ }),
    {
        let mut builder = self;
        proof {
            use_type_invariant(&builder);
        }
        builder.to = Some(to);
        builder
    }

    /// Sets the authentication token; the text is kept as a secret.
    pub fn set_token(self, token: String) -> (builder: Self)
        ensures
            builder@ == (RequestSpec { token: Some(token@), ..self@ }),
    {
        let mut builder = self;
        proof {
            use_type_invariant(&builder);
        }
        builder.token = Some(AuthToken::new(token));
        builder
    }

    /// Sets the request type.
    pub fn set_request_type(self, request_type: RequestType) -> (builder: Self)
        ensures
            builder@ == (RequestSpec { request_type, ..self@ }),
    {
        let mut builder = self;
        proof {
            use_type_invariant(&builder);
        }
        builder.request_type = request_type;
        builder
    }

    /// Sets the number of results asked for.
    pub fn set_number_results(self, number_results: u32) -> (builder: Self)
        ensures
            builder@ == (RequestSpec { number_results, ..self@ }),
    {
        let mut builder = self;
        proof {
            use_type_invariant(&builder);
        }
        builder.number_results = number_results;
        builder
    }

    /// Sets the location name searched by a location information request.
    pub fn set_name(self, name: &str) -> (builder: Self)
        ensures
            builder@ == (RequestSpec { name: Some(name@), ..self@ }),
    {
        let mut builder = self;
        proof {
            use_type_invariant(&builder);
        }
        builder.name = Some(name.to_owned());
        builder
    }

    /// Sets the requestor reference.
    pub fn set_requestor_ref(self, requestor_ref: &str) -> (builder: Self)
        ensures
            builder@ == (RequestSpec { requestor_ref: requestor_ref@, ..self@ }),
    {
        let mut builder = self;
        proof {
            use_type_invariant(&builder);
        }
        builder.requestor_ref = requestor_ref.to_owned();
        builder
    }

    /// Requests one additional monomodal trip per mode (walk, bike, car, ...)
    /// alongside the public-transport results of a Trip request. Ignored for
    /// other request types.
    ///
    /// Note: the Swiss OJP 2.0 endpoint has been observed to honour only a
    /// single `ItModeToCover` per request; pass one mode (or send one request
    /// per mode) if you need reliable results.
    pub fn set_it_modes(self, it_modes: &[PersonalMode]) -> (builder: Self)
        ensures
            builder@ == (RequestSpec { it_modes: it_modes@, ..self@ }),
    {
        let mut modes: Vec<PersonalMode> = Vec::new();
        let count = it_modes.len();
        for i in 0..count
            invariant
                count == it_modes@.len(),
                modes@ == it_modes@.subrange(0, i as int),
        {
            modes.push(it_modes[i]);
            proof {
                assert(modes@ =~= it_modes@.subrange(0, i + 1));
            }
        }
        proof {
            assert(modes@ =~= it_modes@);
        }
        let mut builder = self;
        proof {
            use_type_invariant(&builder);
        }
        builder.it_modes = modes;
        builder
    }

    /// The request document at instant `now`, or why the settings give none.
    pub fn request_body_at(&self, now: &UtcDateTime) -> (r: Result<String, RequestError>)
        requires
            now.wf(),
        ensures
            match request_error(self@) {
                Some(e) => r == Err::<String, RequestError>(e),
                None => r matches Ok(body) && body@ == request_document(self@, *now),
            },
    {
        proof {
            use_type_invariant(self);
        }
        let number_results = self.number_results;
        match self.request_type {
            RequestType::Unknown => Err(RequestError::UnknownRequestType),
            RequestType::LocationInformation => {
                if number_results == 0 {
                    return Err(RequestError::InvalidNumberResults(number_results));
                }
                match &self.name {
                    None => Err(RequestError::MissingLocationName),
                    Some(name) => {
                        let now_text = format_rfc3339_millis(now);
                        Ok(
                            location_body(
                                now_text.as_str(),
                                self.requestor_ref.as_str(),
                                name.as_str(),
                                number_results,
                            ),
                        )
                    },
                }
            },
            RequestType::StopEvent => Err(RequestError::EventsRequestTypeNotImplemented),
            RequestType::Trip => {
                if number_results == 0 {
                    return Err(RequestError::InvalidNumberResults(number_results));
                }
                let (from, to) = match (self.from, self.to) {
                    (Some(from), Some(to)) => (from, to),
                    (None, None) => return Err(RequestError::MissingFromAndToId),
                    (Some(_), None) => return Err(RequestError::MissingToId),
                    (None, Some(_)) => return Err(RequestError::MissingFromId),
                };
                let now_text = format_rfc3339_millis(now);
                let departure = format_rfc3339_millis(&self.date_time);
                Ok(
                    trip_body(
                        now_text.as_str(),
                        self.requestor_ref.as_str(),
                        from,
                        departure.as_str(),
                        to,
                        number_results,
                        &self.it_modes,
                    ),
                )
            },
        }
    }

    /// The request document, stamped with the current time, or why the
    /// settings give none. Whether a document comes does not depend on the
    /// time; the document is the one `request_body_at` gives for the instant
    /// the clock was read.
    pub fn try_request_body(&self) -> (r: Result<String, RequestError>)
        ensures
            match request_error(self@) {
                Some(e) => r == Err::<String, RequestError>(e),
                None => r matches Ok(body) && exists|now: UtcDateTime|
                    now.wf() && body@ == request_document(self@, now),
            },
    {
        let clock = utc_now();
        let now = calendar_fields(&clock);
        self.request_body_at(&now)
    }

    /// What a request is sent with: its document and the token's text. The
    /// document's errors come first; then `MissingAuthToken` without a token.
    pub fn request_parts(&self) -> (r: Result<(String, &str), RequestError>)
        ensures
            match request_error(self@) {
                Some(e) => r == Err::<(String, &str), RequestError>(e),
                None => if self@.token is Some {
                    r matches Ok((body, token)) && token@ == self@.token.unwrap() && exists|
                        now: UtcDateTime,
                    | now.wf() && body@ == request_document(self@, now)
                } else {
                    r == Err::<(String, &str), RequestError>(RequestError::MissingAuthToken)
                },
            },
    {
        let body = match self.try_request_body() {
            Ok(body) => body,
            Err(e) => return Err(e),
        };
        match &self.token {
            None => Err(RequestError::MissingAuthToken),
            Some(token) => Ok((body, token.expose())),
        }
    }

    /// A one-line description of the request, as logged before sending it.
    /// The token is shown as `Undefined` without one, and otherwise as
    /// secrecy's redacted debug text, `SecretBox<..>([REDACTED])`, which is
    /// the same for every token.
    pub fn to_string(&self) -> (text: String)
        ensures
            self@.token is None ==> text@ == description(self@, UNDEFINED@),
            self@.token is Some ==> forall|any: AuthToken|
                text@ == description(self@, #[trigger] redacted_debug(any)),
            self@.token is Some ==> exists|kind: Seq<char>|
                text@ == description(self@, redacted_text(kind)),
    {
        proof {
            use_type_invariant(self);
        }
        let token = match &self.token {
            Some(token) => token.debug_text(),
            None => UNDEFINED.to_owned(),
        };
        let mut text = String::new();
        match self.request_type {
            RequestType::LocationInformation => {
                text.append(DESCRIBE_LOCATION);
                match &self.name {
                    Some(name) => text.append(name.as_str()),
                    None => text.append(UNDEFINED),
                }
                text.append(DESCRIBE_SEPARATOR);
            },
            RequestType::Trip => {
                text.append(DESCRIBE_TRIP);
                append_id(&mut text, self.from);
                text.append(DESCRIBE_TO);
                append_id(&mut text, self.to);
                text.append(DESCRIBE_SEPARATOR);
                if self.it_modes.len() > 0 {
                    text.append(DESCRIBE_MODES);
                    let modes = modes_debug_text(&self.it_modes);
                    text.append(modes.as_str());
                    text.append(DESCRIBE_SEPARATOR);
                }
            },
            RequestType::StopEvent => text.append(DESCRIBE_STOP_EVENT),
            RequestType::Unknown => text.append(DESCRIBE_UNKNOWN),
        }
        let ghost kind = text@;
        assert(kind == kind_description(self@));
        text.append(DESCRIBE_NUMBER);
        append_decimal(&mut text, self.number_results);
        text.append(DESCRIBE_DATE_TIME);
        let date_time = format_display(&self.date_time);
        text.append(date_time.as_str());
        text.append(DESCRIBE_REQUESTOR);
        text.append(self.requestor_ref.as_str());
        text.append(DESCRIBE_TOKEN);
        text.append(token.as_str());
        assert(text@ == description(self@, token@));
        text
    }
}


} // verus!

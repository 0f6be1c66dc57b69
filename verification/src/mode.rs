//! Request types and individual transport modes.

use vstd::prelude::*;
use vstd::std_specs::convert::TryFromSpecImpl;
use crate::error::RequestError;
use crate::text::str_equal;

verus! {

/// The kind of OJP request to build.
#[derive(Debug)]
pub enum RequestType {
    LocationInformation,
    Trip,
    StopEvent,
    Unknown,
}

/// Name of the request element of each request type; the unknown type has none.
pub open spec fn request_element(request_type: RequestType) -> Option<Seq<char>> {
    match request_type {
        RequestType::LocationInformation => Some("OJPLocationInformationRequest"@),
        RequestType::Trip => Some("OJPTripRequest"@),
        RequestType::StopEvent => Some("OJPStopEventRequest"@),
        RequestType::Unknown => None,
    }
}

impl RequestType {
    /// The request element's name, or `UnknownRequestType`.
    pub fn try_into_string(self) -> (r: Result<String, RequestError>)
        ensures
            match request_element(self) {
                Some(name) => r matches Ok(text) && text@ == name,
                None => r matches Err(RequestError::UnknownRequestType),
            },
    {
        match self {
            RequestType::LocationInformation => Ok("OJPLocationInformationRequest".to_owned()),
            RequestType::Trip => Ok("OJPTripRequest".to_owned()),
            RequestType::StopEvent => Ok("OJPStopEventRequest".to_owned()),
            RequestType::Unknown => Err(RequestError::UnknownRequestType),
        }
    }
}

impl TryFromSpecImpl<RequestType> for String {
    /// A `String` is not determined by its text in specifications, so the
    /// result is not pinned here: `try_from`'s own `ensures` states it.
    open spec fn obeys_try_from_spec() -> bool {
        false
    }

    open spec fn try_from_spec(v: RequestType) -> Result<String, RequestError> {
        arbitrary()
    }
}

impl TryFrom<RequestType> for String {
    type Error = RequestError;

    fn try_from(value: RequestType) -> (r: Result<String, RequestError>)
        ensures
            match request_element(value) {
                Some(name) => r matches Ok(text) && text@ == name,
                None => r matches Err(RequestError::UnknownRequestType),
            },
    {
        value.try_into_string()
    }
}

/// Individual ("personal") transport mode, as defined by the OJP 2.0
/// `PersonalModesEnumeration`, requested with `RequestBuilder::set_it_modes`.
#[derive(Debug, Clone, Copy, PartialEq, Eq, Structural)]
pub enum PersonalMode {
    Foot,
    Bicycle,
    Car,
    Motorcycle,
    Truck,
    Scooter,
}

/// The value of each mode in request XML.
pub open spec fn mode_text(mode: PersonalMode) -> Seq<char> {
    match mode {
        PersonalMode::Foot => "foot"@,
        PersonalMode::Bicycle => "bicycle"@,
        PersonalMode::Car => "car"@,
        PersonalMode::Motorcycle => "motorcycle"@,
        PersonalMode::Truck => "truck"@,
        PersonalMode::Scooter => "scooter"@,
    }
}

/// The mode whose value is `text`, if any.
pub open spec fn mode_named(text: Seq<char>) -> Option<PersonalMode> {
    if text == mode_text(PersonalMode::Foot) {
        Some(PersonalMode::Foot)
    } else if text == mode_text(PersonalMode::Bicycle) {
        Some(PersonalMode::Bicycle)
    } else if text == mode_text(PersonalMode::Car) {
        Some(PersonalMode::Car)
    } else if text == mode_text(PersonalMode::Motorcycle) {
        Some(PersonalMode::Motorcycle)
    } else if text == mode_text(PersonalMode::Truck) {
        Some(PersonalMode::Truck)
    } else if text == mode_text(PersonalMode::Scooter) {
        Some(PersonalMode::Scooter)
    } else {
        None
    }
}

/// The name `Debug` gives each mode.
pub open spec fn mode_debug_name(mode: PersonalMode) -> Seq<char> {
    match mode {
        PersonalMode::Foot => "Foot"@,
        PersonalMode::Bicycle => "Bicycle"@,
        PersonalMode::Car => "Car"@,
        PersonalMode::Motorcycle => "Motorcycle"@,
        PersonalMode::Truck => "Truck"@,
        PersonalMode::Scooter => "Scooter"@,
    }
}

impl PersonalMode {
    /// The value used in the request XML (`<PersonalMode>` element).
    pub fn as_str(self) -> (text: &'static str)
        ensures
            text@ == mode_text(self),
    {
        match self {
            PersonalMode::Foot => "foot",
            PersonalMode::Bicycle => "bicycle",
            PersonalMode::Car => "car",
            PersonalMode::Motorcycle => "motorcycle",
            PersonalMode::Truck => "truck",
            PersonalMode::Scooter => "scooter",
        }
    }

    /// The mode's value as a `String`, as its display text.
    pub fn to_string(&self) -> (text: String)
        ensures
            text@ == mode_text(*self),
    {
        self.as_str().to_owned()
    }

    /// The variant's name, as `Debug` writes it.
    pub fn debug_name(self) -> (text: &'static str)
        ensures
            text@ == mode_debug_name(self),
    {
        match self {
            PersonalMode::Foot => "Foot",
            PersonalMode::Bicycle => "Bicycle",
            PersonalMode::Car => "Car",
            PersonalMode::Motorcycle => "Motorcycle",
            PersonalMode::Truck => "Truck",
            PersonalMode::Scooter => "Scooter",
        }
    }

    /// Parses an OJP 2.0 `PersonalModesEnumeration` value: the strings that
    /// `as_str` produces. Any other text is `UnknownPersonalMode` with that text.
    pub fn from_str(s: &str) -> (r: Result<PersonalMode, RequestError>)
        ensures
            match mode_named(s@) {
                Some(mode) => r matches Ok(m) && m == mode,
                None => r matches Err(RequestError::UnknownPersonalMode(text)) && text@ == s@,
            },
    {
        if str_equal(s, PersonalMode::Foot.as_str()) {
            Ok(PersonalMode::Foot)
        } else if str_equal(s, PersonalMode::Bicycle.as_str()) {
            Ok(PersonalMode::Bicycle)
        } else if str_equal(s, PersonalMode::Car.as_str()) {
            Ok(PersonalMode::Car)
        } else if str_equal(s, PersonalMode::Motorcycle.as_str()) {
            Ok(PersonalMode::Motorcycle)
        } else if str_equal(s, PersonalMode::Truck.as_str()) {
            Ok(PersonalMode::Truck)
        } else if str_equal(s, PersonalMode::Scooter.as_str()) {
            Ok(PersonalMode::Scooter)
        } else {
            Err(RequestError::UnknownPersonalMode(s.to_owned()))
        }
    }
}

impl std::str::FromStr for PersonalMode {
    type Err = RequestError;

    fn from_str(s: &str) -> (r: Result<Self, Self::Err>)
        ensures
            match mode_named(s@) {
                Some(mode) => r matches Ok(m) && m == mode,
                None => r matches Err(RequestError::UnknownPersonalMode(text)) && text@ == s@,
            },
    {
        PersonalMode::from_str(s)
    }
}

} // verus!

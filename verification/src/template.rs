//! The fixed text of the OJP 2.0 request documents, cut at the places where
//! request values are inserted, and the fixed text of a builder's description.

use vstd::prelude::*;

verus! {

/// XML declaration and envelope of every request, up to the envelope's request timestamp.
pub const REQUEST_HEAD: &'static str = "<?xml version=\"1.0\" encoding=\"UTF-8\"?>
                            <OJP xmlns=\"http://www.vdv.de/ojp\" xmlns:siri=\"http://www.siri.org.uk/siri\" version=\"2.0\">
                             	<OJPRequest>
                                    <siri:ServiceRequest>
                                        ";

/// Opens a request timestamp element.
pub const TIMESTAMP_OPEN: &'static str = "<siri:RequestTimestamp>";

/// Closes a request timestamp element.
pub const TIMESTAMP_CLOSE: &'static str = "</siri:RequestTimestamp>";

/// From the envelope's request timestamp up to the requestor reference.
pub const REQUEST_AFTER_TIMESTAMP: &'static str = "
                                        <siri:RequestorRef>";

/// Location request: from the requestor reference up to the inner request timestamp.
pub const LOCATION_AFTER_REQUESTOR: &'static str = "</siri:RequestorRef>
                                        <OJPLocationInformationRequest>
                                        ";

/// Location request: from the inner request timestamp up to the name element.
pub const LOCATION_BEFORE_NAME: &'static str = "
                                        <siri:MessageIdentifier>LIR-1a</siri:MessageIdentifier>
                                        <InitialInput>
                                            ";

/// Opens the name element of a location request.
pub const NAME_OPEN: &'static str = "<Name>";

/// Closes the name element of a location request.
pub const NAME_CLOSE: &'static str = "</Name>";

/// Location request: from the name element up to the number of results.
pub const LOCATION_BEFORE_NUMBER: &'static str = "
                                        </InitialInput>
                                        <Restrictions>
                                            <Type>stop</Type>
                                            ";

/// Opens the number of results element.
pub const NUMBER_OPEN: &'static str = "<NumberOfResults>";

/// Closes the number of results element.
pub const NUMBER_CLOSE: &'static str = "</NumberOfResults>";

/// Location request: from the number of results to the end of the document.
pub const LOCATION_TAIL: &'static str = "
                                        </Restrictions>
                                    </OJPLocationInformationRequest>
                                    </siri:ServiceRequest>
                                </OJPRequest>
                            </OJP>";

/// Trip request: from the requestor reference up to the inner request timestamp.
pub const TRIP_AFTER_REQUESTOR: &'static str = "</siri:RequestorRef>
                                        <OJPTripRequest>
                                            ";

/// Trip request: from the inner request timestamp up to the origin element.
pub const TRIP_BEFORE_ORIGIN: &'static str = "
                                            <siri:MessageIdentifier>TR-1r1</siri:MessageIdentifier>
                                            ";

/// Opens the origin element of a trip request.
pub const ORIGIN_OPEN: &'static str = "<Origin>";

/// Trip request: from the origin element's start up to its stop reference.
pub const ORIGIN_BEFORE_STOP: &'static str = "
                                                <PlaceRef>
                                                    ";

/// Opens a stop reference element.
pub const STOP_OPEN: &'static str = "<siri:StopPointRef>";

/// Closes a stop reference element.
pub const STOP_CLOSE: &'static str = "</siri:StopPointRef>";

/// Trip request: from the origin stop reference up to the departure time element.
pub const TRIP_BEFORE_DEPARTURE: &'static str = "
                                                </PlaceRef>
                                                ";

/// Opens the departure time element of a trip request.
pub const DEPARTURE_OPEN: &'static str = "<DepArrTime>";

/// Closes the departure time element of a trip request.
pub const DEPARTURE_CLOSE: &'static str = "</DepArrTime>";

/// Trip request: from the departure time up to the destination element.
pub const TRIP_BEFORE_DESTINATION: &'static str = "
                                            </Origin>
                                            ";

/// Opens the destination element of a trip request.
pub const DESTINATION_OPEN: &'static str = "<Destination>";

/// Trip request: from the destination element's start up to its stop reference.
pub const DESTINATION_BEFORE_STOP: &'static str = "
                                                <PlaceRef>
                                                    ";

/// Trip request: from the destination stop reference up to the number of results.
pub const TRIP_BEFORE_NUMBER: &'static str = "
                                                </PlaceRef>
                                            </Destination>
                                            <Params>
                                                ";

/// Trip request: from the number of results up to the individual transport modes.
pub const TRIP_BEFORE_MODES: &'static str = "
                                                ";

/// Trip request: from the individual transport modes to the end of the document.
pub const TRIP_TAIL: &'static str = "
                                            </Params>
                                        </OJPTripRequest>
                                    </siri:ServiceRequest>
                                </OJPRequest>
                            </OJP>";

/// Opens one individual transport mode element of a trip request.
pub const MODE_OPEN: &'static str = "<ItModeToCover><PersonalMode>";

/// Closes one individual transport mode element of a trip request.
pub const MODE_CLOSE: &'static str = "</PersonalMode></ItModeToCover>";

/// Shown for a value that was never set.
pub const UNDEFINED: &'static str = "Undefined";

/// Opens the description of a location information request.
pub const DESCRIBE_LOCATION: &'static str = "Location Information Request: Location: ";

/// Opens the description of a trip request.
pub const DESCRIBE_TRIP: &'static str = "Trip Request: From: ";

/// Separates the origin from the destination in a trip description.
pub const DESCRIBE_TO: &'static str = ", To: ";

/// Ends one item of a description.
pub const DESCRIBE_SEPARATOR: &'static str = ", ";

/// Opens the list of individual transport modes in a trip description.
pub const DESCRIBE_MODES: &'static str = "ItModes: ";

/// Describes a stop event request.
pub const DESCRIBE_STOP_EVENT: &'static str = "Stop Envent Request Not Implement. ";

/// Describes a request of unknown type.
pub const DESCRIBE_UNKNOWN: &'static str = "RequestType is unknown. ";

/// Opens the part of a description common to all request types.
pub const DESCRIBE_NUMBER: &'static str = "NumberResults: ";

/// Precedes the departure time in a description.
pub const DESCRIBE_DATE_TIME: &'static str = ", DateTime: ";

/// Precedes the requestor reference in a description.
pub const DESCRIBE_REQUESTOR: &'static str = ", RequestorRef: ";

/// Precedes the token in a description.
pub const DESCRIBE_TOKEN: &'static str = ", Token: ";

} // verus!

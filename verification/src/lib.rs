//! Builder of OJP 2.0 (Open Journey Planner) requests for the Swiss open
//! transport data endpoint: location information requests and trip requests,
//! with their XML documents, errors and descriptions.

pub mod builder;
pub mod error;
pub mod laws;
pub mod mode;
pub mod template;
pub mod text;
pub mod time;
pub mod token;
pub mod xml;

pub use builder::{RequestBuilder, RequestSpec};
pub use error::RequestError;
pub use mode::{PersonalMode, RequestType};
pub use time::UtcDateTime;

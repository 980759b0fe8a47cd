//! Client-side rules of an SMS gateway that is driven by HTTP GET requests:
//! how a send request becomes query parameters, and how the gateway's
//! plain-text answer becomes a message id or a typed failure.

pub mod client;
pub mod error;
pub mod flags;
pub mod params;
pub mod request;
pub mod response;
pub mod text;
pub mod time;

pub use client::{HttpGet, SmsClient};
pub use error::SmsError;
pub use flags::{SmsFlag, SmsFlags};
pub use params::ParamKey;
pub use request::{Encoding, MissingField, SmsRequest};
pub use time::UtcDateTime;
pub use response::{get_response_code_message, interpret_response};

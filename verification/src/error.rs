//! The failures that a send can end in.

use vstd::prelude::*;

verus! {

/// `reqwest::Error`, the transport's own error. Nothing here looks inside
/// it: it is carried from the transport to the caller as it came.
#[verifier::external_type_specification]
#[verifier::external_body]
pub struct ExTransportError(reqwest::Error);

/// Why a message was not accepted.
#[derive(Debug)]
pub enum SmsError {
    /// The gateway answered, and its answer was a failure code or could not
    /// be read as a number.
    SendFailed {
        /// The destination, as the request gave it.
        number: String,
        /// The gateway's reason, in words.
        message: String,
    },
    /// The round trip to the gateway did not complete.
    RequestFailed(reqwest::Error),
}

/// The transport's own words for its error: what `reqwest::Error` writes
/// of itself through `Display`. Nothing is claimed of the text.
#[verifier::external_body]
fn transport_words(cause: &reqwest::Error) -> String {
    cause.to_string()
}

impl SmsError {
    /// The failure in words.
    pub open spec fn send_failed_text(number: Seq<char>, message: Seq<char>) -> Seq<char> {
        "SMS sending failed to: "@ + number + ", "@ + message
    }

    /// The failure in words: for a `SendFailed`, the destination and the
    /// gateway's reason; for a `RequestFailed`, the transport's own words
    /// after `HTTP request failed: `.
    pub fn describe(&self) -> (text: String)
        ensures
            match self {
                SmsError::SendFailed { number, message } => text@ == SmsError::send_failed_text(
                    number@,
                    message@,
                ),
                SmsError::RequestFailed(_) => "HTTP request failed: "@.is_prefix_of(text@),
            },
    {
        match self {
            SmsError::SendFailed { number, message } => {
                let mut text: String = "SMS sending failed to: ".to_owned();
                text.append(number.as_str());
                text.append(", ");
                text.append(message.as_str());
                text
            },
            SmsError::RequestFailed(cause) => {
                let mut text: String = "HTTP request failed: ".to_owned();
                let words: String = transport_words(cause);
                text.append(words.as_str());
                text
            },
        }
    }
}

} // verus!

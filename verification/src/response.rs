//! What the gateway's answer means.
//!
//! The gateway answers every request with one integer in plain text. A
//! number above 100 is the id of the accepted message; anything else is a
//! failure, with a fixed reason for each known code.

use vstd::prelude::*;
use crate::error::SmsError;
use crate::text::{
    all_whitespace, int_text, lemma_parse_numeral, lemma_trim_padded, parse_i32, parse_trimmed_i32,
    trim,
};

verus! {

/// The gateway's reason for the failure code `code`, in words.
pub open spec fn response_code_message(code: int) -> Seq<char> {
    if code == 1 {
        "system internal error"@
    } else if code == 2 {
        "missing PARAM_NAME parameter"@
    } else if code == 3 {
        "unable to authenticate"@
    } else if code == 4 {
        "IP ADDRESS is not allowed"@
    } else if code == 5 {
        "invalid SENDER parameter"@
    } else if code == 6 {
        "SENDER is not allowed"@
    } else if code == 7 {
        "invalid NUMBER parameter"@
    } else if code == 8 {
        "invalid CODING parameter"@
    } else if code == 9 {
        "unable to convert TEXT"@
    } else if code == 10 {
        "length of UDH and TEXT too long"@
    } else if code == 11 {
        "empty TEXT parameter"@
    } else if code == 12 {
        "invalid TIME parameter"@
    } else if code == 13 {
        "invalid EXPIRED parameter"@
    } else if code == 14 {
        "invalid DLR-URL parameter"@
    } else if code == 15 {
        "Invalid FLAG-FLASH parameter"@
    } else if code == 16 {
        "invalid FLAG-NOLOG parameter"@
    } else if code == 17 {
        "invalid FLAG-TEST parameter"@
    } else if code == 18 {
        "invalid FLAG-NOBL parameter"@
    } else if code == 19 {
        "invalid FLAG-CONVERT parameter"@
    } else {
        "unknown error"@
    }
}

/// What the answer `body` stands for: the id of the accepted message, or the
/// reason for which the gateway refused it.
pub open spec fn reply_outcome(body: Seq<char>) -> Result<i32, Seq<char>> {
    match parse_i32(trim(body)) {
        Some(code) => if code > 100 {
            Ok(code)
        } else {
            Err(response_code_message(code as int))
        },
        None => Err("unknown error"@),
    }
}

/// The gateway's reason for the failure code `code`, in words.
pub fn get_response_code_message(code: i32) -> (message: &'static str)
    ensures
        message@ == response_code_message(code as int),
{
    match code {
        1 => "system internal error",
        2 => "missing PARAM_NAME parameter",
        3 => "unable to authenticate",
        4 => "IP ADDRESS is not allowed",
        5 => "invalid SENDER parameter",
        6 => "SENDER is not allowed",
        7 => "invalid NUMBER parameter",
        8 => "invalid CODING parameter",
        9 => "unable to convert TEXT",
        10 => "length of UDH and TEXT too long",
        11 => "empty TEXT parameter",
        12 => "invalid TIME parameter",
        13 => "invalid EXPIRED parameter",
        14 => "invalid DLR-URL parameter",
        15 => "Invalid FLAG-FLASH parameter",
        16 => "invalid FLAG-NOLOG parameter",
        17 => "invalid FLAG-TEST parameter",
        18 => "invalid FLAG-NOBL parameter",
        19 => "invalid FLAG-CONVERT parameter",
        _ => "unknown error",
    }
}

/// Reads the gateway's answer `body` to a message for `number`.
///
/// The result is the message id where the answer, without the whitespace
/// around it, is a number above 100. Every other answer is a `SendFailed`
/// that names `number` and the reason.
pub fn interpret_response(number: &str, body: &str) -> (r: Result<i32, SmsError>)
    ensures
        match reply_outcome(body@) {
            Ok(id) => r == Ok::<i32, SmsError>(id),
            Err(reason) => r matches Err(SmsError::SendFailed { number: n, message: m })
                && n@ == number@ && m@ == reason,
        },
{
    match parse_trimmed_i32(body) {
        Some(code) => {
            if code > 100 {
                Ok(code)
            } else {
                Err(
                    SmsError::SendFailed {
                        number: number.to_owned(),
                        message: get_response_code_message(code).to_owned(),
                    },
                )
            }
        },
        None => Err(
            SmsError::SendFailed {
                number: number.to_owned(),
                message: "unknown error".to_owned(),
            },
        ),
    }
}

/// An answer that is the numeral of `code`, with or without whitespace
/// around it, stands for the message id `code` where `code` is above 100,
/// and for the failure of that code where it is not.
pub proof fn lemma_numeral_outcome(before: Seq<char>, code: i32, after: Seq<char>)
    requires
        all_whitespace(before),
        all_whitespace(after),
    ensures
        reply_outcome(before + int_text(code as int) + after) == if code > 100 {
            Ok::<i32, Seq<char>>(code)
        } else {
            Err::<i32, Seq<char>>(response_code_message(code as int))
        },
{
    lemma_parse_numeral(code);
    lemma_trim_padded(before, int_text(code as int), after);
}

} // verus!

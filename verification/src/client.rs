//! The two halves of a send: what to ask of the gateway, and what its
//! answer means. The round trip between them is the caller's.

use vstd::prelude::*;
use crate::error::SmsError;
use crate::request::SmsRequest;
use crate::response::{interpret_response, reply_outcome};

verus! {

/// One HTTP GET request: where to send it, and the query parameters to send.
pub struct HttpGet {
    /// The address of the gateway's send call.
    pub url: String,
    /// The names and values of the query parameters, in order.
    pub query: Vec<(&'static str, String)>,
}

/// A client of the gateway that is reached at one base address.
pub struct SmsClient {
    api_base_url: String,
}

impl SmsClient {
    /// The base address of the gateway.
    pub closed spec fn base_url(&self) -> Seq<char> {
        self.api_base_url@
    }

    /// The address of the gateway's send call: the base address, then
    /// `/send`.
    pub open spec fn send_url(&self) -> Seq<char> {
        self.base_url() + "/send"@
    }

    /// Whether `call` is the request to make of the gateway in order to
    /// send `request`: a GET of the send call, with every parameter that
    /// `request` sends, once.
    pub open spec fn is_call_for(&self, request: &SmsRequest, call: HttpGet) -> bool {
        call.url@ == self.send_url() && call.query.deep_view() == request.wire_pairs()
    }

    /// Whether `result` is what sending `request` comes to, once the round
    /// trip has ended in `outcome`.
    ///
    /// A round trip that failed is a `RequestFailed` that holds the
    /// transport's error, and nothing else is. An answer that, without the
    /// whitespace around it, is a number above 100 is the id of the accepted
    /// message. Every other answer is a `SendFailed` that names the
    /// destination as `request` gave it, and the gateway's reason.
    pub open spec fn is_result_of(
        request: &SmsRequest,
        outcome: Result<String, reqwest::Error>,
        result: Result<i32, SmsError>,
    ) -> bool {
        match outcome {
            Err(cause) => result == Err::<i32, SmsError>(SmsError::RequestFailed(cause)),
            Ok(body) => match reply_outcome(body@) {
                Ok(id) => result == Ok::<i32, SmsError>(id),
                Err(reason) => result matches Err(SmsError::SendFailed { number, message })
                    && number@ == request.number@ && message@ == reason,
            },
        }
    }

    /// A client of the gateway at `api_base_url`.
    #[must_use]
    pub fn new(api_base_url: String) -> (client: Self)
        ensures
            client.base_url() == api_base_url@,
    {
        SmsClient { api_base_url }
    }

    /// The base address of the gateway.
    pub fn api_base_url(&self) -> (url: &str)
        ensures
            url@ == self.base_url(),
    {
        self.api_base_url.as_str()
    }

    /// The request to make of the gateway in order to send `request`.
    pub fn prepare(&self, request: &SmsRequest) -> (call: HttpGet)
        ensures
            self.is_call_for(request, call),
    {
        HttpGet {
            url: self.api_base_url.clone().concat("/send"),
            query: request.query_params(),
        }
    }

    /// The result of sending `request`, given how the round trip ended:
    /// with the text of the gateway's answer, or with the transport's error.
    pub fn conclude(
        &self,
        request: &SmsRequest,
        outcome: Result<String, reqwest::Error>,
    ) -> (result: Result<i32, SmsError>)
        ensures
            Self::is_result_of(request, outcome, result),
    {
        match outcome {
            Err(cause) => Err(SmsError::RequestFailed(cause)),
            Ok(body) => interpret_response(request.number, body.as_str()),
        }
    }

    /// Sends `request` over `transport`, which makes the round trip: it is
    /// handed the request to make, once, and gives back the text of the
    /// gateway's answer or its own error.
    ///
    /// The result is the id that the gateway gave the message, the
    /// gateway's refusal as a `SendFailed`, or the transport's error as a
    /// `RequestFailed`.
    pub fn send_sms<F>(&self, request: SmsRequest<'_>, transport: F) -> (result: Result<
        i32,
        SmsError,
    >) where F: FnOnce(HttpGet) -> Result<String, reqwest::Error>
        requires
            forall|call: HttpGet|
                self.is_call_for(&request, call) ==> call_requires(transport, (call,)),
        ensures
            exists|call: HttpGet, outcome: Result<String, reqwest::Error>|
                self.is_call_for(&request, call) && call_ensures(transport, (call,), outcome)
                    && Self::is_result_of(&request, outcome, result),
    {
        let call = self.prepare(&request);
        let ghost made = call;
        let outcome = transport(call);
        let ghost ended = outcome;
        let result = self.conclude(&request, outcome);
        assert(self.is_call_for(&request, made) && call_ensures(transport, (made,), ended)
            && Self::is_result_of(&request, ended, result));
        result
    }
}

} // verus!

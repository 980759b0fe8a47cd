use esteria_sms::{Encoding, SmsClient, SmsError, SmsRequest};

fn transport_error() -> reqwest::Error {
    match reqwest::Client::builder().build() {
        Err(e) => e,
        Ok(client) => client.get("this is no address").build().unwrap_err(),
    }
}

#[test]
fn call_goes_to_the_send_address() {
    let client = SmsClient::new("https://gateway.example/api".to_string());
    assert_eq!(client.api_base_url(), "https://gateway.example/api");
    let request = SmsRequest::new("k", "s", "+371", "t").with_encoding(Encoding::Default);
    let call = client.prepare(&request);
    assert_eq!(call.url, "https://gateway.example/api/send");
    let expected: Vec<(&str, String)> = vec![
        ("api-key", "k".to_string()),
        ("sender", "s".to_string()),
        ("number", "371".to_string()),
        ("text", "t".to_string()),
    ];
    assert_eq!(call.query, expected);
}

#[test]
fn base_address_is_taken_as_it_is() {
    let client = SmsClient::new("http://gw/".to_string());
    let call = client.prepare(&SmsRequest::new("k", "s", "1", "t"));
    assert_eq!(call.url, "http://gw//send");
    let bare = SmsClient::new(String::new());
    assert_eq!(bare.prepare(&SmsRequest::new("k", "s", "1", "t")).url, "/send");
}

#[test]
fn answer_above_100_is_the_message_id() {
    let client = SmsClient::new("http://gw".to_string());
    let request = SmsRequest::new("k", "s", "+371", "t");
    assert_eq!(client.conclude(&request, Ok("123".to_string())).unwrap(), 123);
    assert_eq!(client.conclude(&request, Ok("101\n".to_string())).unwrap(), 101);
}

#[test]
fn failure_code_names_the_number_as_given() {
    let client = SmsClient::new("http://gw".to_string());
    let request = SmsRequest::new("k", "s", "+371", "t");
    match client.conclude(&request, Ok("7".to_string())) {
        Err(SmsError::SendFailed { number, message }) => {
            assert_eq!(number, "+371");
            assert_eq!(message, "invalid NUMBER parameter");
        }
        other => panic!("unexpected outcome: {:?}", other),
    }
    match client.conclude(&request, Ok("100".to_string())) {
        Err(SmsError::SendFailed { number, message }) => {
            assert_eq!(number, "+371");
            assert_eq!(message, "unknown error");
        }
        other => panic!("unexpected outcome: {:?}", other),
    }
}

#[test]
fn transport_failure_is_request_failed() {
    let client = SmsClient::new("http://gw".to_string());
    let request = SmsRequest::new("k", "s", "+371", "t");
    let cause = transport_error();
    let words = cause.to_string();
    match client.conclude(&request, Err(cause)) {
        Err(SmsError::RequestFailed(e)) => assert_eq!(e.to_string(), words),
        other => panic!("unexpected outcome: {:?}", other),
    }
}

#[test]
fn send_failed_in_words() {
    let e = SmsError::SendFailed {
        number: "+371".to_string(),
        message: "invalid NUMBER parameter".to_string(),
    };
    assert_eq!(e.describe(), "SMS sending failed to: +371, invalid NUMBER parameter");
}

#[test]
fn request_failed_in_words() {
    let cause = transport_error();
    let words = cause.to_string();
    assert!(!words.is_empty());
    let e = SmsError::RequestFailed(cause);
    assert_eq!(e.describe(), format!("HTTP request failed: {}", words));
}

#[test]
fn send_hands_the_call_to_the_transport() {
    let client = SmsClient::new("https://gateway.example".to_string());
    let request = SmsRequest::new("k", "s", "+15551234567", "t");
    let mut seen: Option<(String, Vec<(&'static str, String)>)> = None;
    let result = client.send_sms(request, |call| {
        seen = Some((call.url, call.query));
        Ok(" 4711\n".to_string())
    });
    assert_eq!(result.unwrap(), 4711);
    let (url, query) = seen.expect("the transport was called");
    assert_eq!(url, "https://gateway.example/send");
    let expected: Vec<(&str, String)> = vec![
        ("api-key", "k".to_string()),
        ("sender", "s".to_string()),
        ("number", "15551234567".to_string()),
        ("text", "t".to_string()),
        ("coding", "1".to_string()),
    ];
    assert_eq!(query, expected);
}

#[test]
fn send_reports_the_gateways_refusal() {
    let client = SmsClient::new("https://gateway.example".to_string());
    let request = SmsRequest::new("k", "s", "+15551234567", "t");
    match client.send_sms(request, |_| Ok("3".to_string())) {
        Err(SmsError::SendFailed { number, message }) => {
            assert_eq!(number, "+15551234567");
            assert_eq!(message, "unable to authenticate");
        }
        other => panic!("unexpected outcome: {:?}", other),
    }
}

#[test]
fn send_reports_the_transports_failure() {
    let client = SmsClient::new("https://gateway.example".to_string());
    let request = SmsRequest::new("k", "s", "+15551234567", "t");
    let cause = transport_error();
    let words = cause.to_string();
    match client.send_sms(request, |_| Err(cause)) {
        Err(SmsError::RequestFailed(e)) => assert_eq!(e.to_string(), words),
        other => panic!("unexpected outcome: {:?}", other),
    }
}

use esteria_sms::{
    Encoding, MissingField, ParamKey, SmsFlag, SmsFlags, SmsRequest, UtcDateTime,
};

const FLAGS: [(SmsFlag, &str, &str); 6] = [
    (SmsFlag::Debug, "flag-debug", "1"),
    (SmsFlag::NoLog, "flag-nolog", "3"),
    (SmsFlag::Flash, "flag-flash", "1"),
    (SmsFlag::Test, "flag-test", "1"),
    (SmsFlag::NoBl, "flag-nobl", "1"),
    (SmsFlag::Convert, "flag-convert", "1"),
];

fn values<'p>(pairs: &'p [(&'static str, String)], name: &str) -> Vec<&'p str> {
    pairs.iter().filter(|p| p.0 == name).map(|p| p.1.as_str()).collect()
}

fn plain() -> SmsRequest<'static> {
    SmsRequest::new("secret", "Sender", "+15551234567", "Hello")
}

#[test]
fn new_request_has_the_defaults() {
    let r = SmsRequest::new("secret", "Sender", "+15551234567", "Hello");
    assert_eq!(r.api_key, "secret");
    assert_eq!(r.sender, "Sender");
    assert_eq!(r.number, "+15551234567");
    assert_eq!(r.text, "Hello");
    assert!(r.time.is_none());
    assert!(r.dlr_url.is_none());
    assert!(r.expired.is_none());
    assert!(r.flags.is_empty());
    assert!(r.user_key.is_none());
    assert_eq!(r.encoding, Encoding::EightBit);
}

#[test]
fn builders_set_one_field_each() {
    let time = UtcDateTime::new(2030, 1, 2, 3, 4, 5, 0).unwrap();
    let flags = SmsFlags::only(SmsFlag::Flash);
    let r = plain()
        .with_time(time)
        .with_dlr_url("https://example.org/dlr")
        .with_expired(90)
        .with_flags(flags)
        .with_user_key("token-1")
        .with_encoding(Encoding::Udh);
    assert_eq!(r.api_key, "secret");
    assert_eq!(r.sender, "Sender");
    assert_eq!(r.number, "+15551234567");
    assert_eq!(r.text, "Hello");
    assert_eq!(r.time, Some(time));
    assert_eq!(r.dlr_url, Some("https://example.org/dlr"));
    assert_eq!(r.expired, Some(90));
    assert_eq!(r.flags, flags);
    assert_eq!(r.user_key, Some("token-1"));
    assert_eq!(r.encoding, Encoding::Udh);
}

#[test]
fn with_flags_replaces_the_switches() {
    let r = plain().with_flags(SmsFlags::only(SmsFlag::Debug)).with_flags(SmsFlags::only(SmsFlag::Test));
    assert_eq!(r.flags, SmsFlags::only(SmsFlag::Test));
}

#[test]
fn default_request_on_the_wire() {
    let pairs = plain().query_params();
    let expected: Vec<(&str, String)> = vec![
        ("api-key", "secret".to_string()),
        ("sender", "Sender".to_string()),
        ("number", "15551234567".to_string()),
        ("text", "Hello".to_string()),
        ("coding", "1".to_string()),
    ];
    assert_eq!(pairs, expected);
}

#[test]
fn full_request_on_the_wire() {
    let r = plain()
        .with_time(UtcDateTime::new(2030, 1, 2, 3, 4, 5, 999).unwrap())
        .with_dlr_url("https://example.org/dlr?x=1&y=2")
        .with_expired(1440)
        .with_flags(SmsFlags::all())
        .with_user_key("token-1")
        .with_encoding(Encoding::Udh);
    let expected: Vec<(&str, String)> = vec![
        ("api-key", "secret".to_string()),
        ("sender", "Sender".to_string()),
        ("number", "15551234567".to_string()),
        ("text", "Hello".to_string()),
        ("time", "2030-01-02T03:04:05".to_string()),
        ("dlr-url", "https://example.org/dlr?x=1&y=2".to_string()),
        ("expired", "1440".to_string()),
        ("flag-debug", "1".to_string()),
        ("flag-nolog", "3".to_string()),
        ("flag-flash", "1".to_string()),
        ("flag-test", "1".to_string()),
        ("flag-nobl", "1".to_string()),
        ("flag-convert", "1".to_string()),
        ("user-key", "token-1".to_string()),
        ("udh", "1".to_string()),
        ("coding", "1".to_string()),
    ];
    assert_eq!(r.query_params(), expected);
}

#[test]
fn every_flag_combination_gives_one_entry_per_set_flag() {
    for bits in 0..64u32 {
        let flags = SmsFlags::from_bits_truncate(bits);
        let pairs = plain().with_flags(flags).query_params();
        for (flag, name, literal) in FLAGS {
            if flags.has(flag) {
                assert_eq!(values(&pairs, name), vec![literal], "bits {:#b}, {}", bits, name);
            } else {
                assert!(values(&pairs, name).is_empty(), "bits {:#b}, {}", bits, name);
            }
        }
        assert_eq!(pairs.len(), 5 + bits.count_ones() as usize);
    }
}

#[test]
fn nolog_goes_out_as_3() {
    let pairs = plain().with_flags(SmsFlags::only(SmsFlag::NoLog)).query_params();
    assert_eq!(values(&pairs, "flag-nolog"), vec!["3"]);
}

#[test]
fn encoding_default_adds_nothing() {
    let pairs = plain().with_encoding(Encoding::Default).query_params();
    assert!(values(&pairs, "udh").is_empty());
    assert!(values(&pairs, "coding").is_empty());
}

#[test]
fn encoding_eight_bit_adds_coding_only() {
    let pairs = plain().with_encoding(Encoding::EightBit).query_params();
    assert!(values(&pairs, "udh").is_empty());
    assert_eq!(values(&pairs, "coding"), vec!["1"]);
}

#[test]
fn encoding_udh_adds_udh_and_coding() {
    let pairs = plain().with_encoding(Encoding::Udh).query_params();
    assert_eq!(values(&pairs, "udh"), vec!["1"]);
    assert_eq!(values(&pairs, "coding"), vec!["1"]);
}

#[test]
fn encoding_from_two_switches() {
    assert_eq!(Encoding::from_switches(true, true), Encoding::Udh);
    assert_eq!(Encoding::from_switches(true, false), Encoding::Udh);
    assert_eq!(Encoding::from_switches(false, true), Encoding::EightBit);
    assert_eq!(Encoding::from_switches(false, false), Encoding::Default);
}

#[test]
fn number_with_plus_loses_it_on_the_wire() {
    let pairs = SmsRequest::new("k", "s", "+15551234567", "t").query_params();
    assert_eq!(values(&pairs, "number"), vec!["15551234567"]);
}

#[test]
fn number_without_plus_is_unchanged_on_the_wire() {
    let pairs = SmsRequest::new("k", "s", "15551234567", "t").query_params();
    assert_eq!(values(&pairs, "number"), vec!["15551234567"]);
}

#[test]
fn number_loses_one_plus_only() {
    let pairs = SmsRequest::new("k", "s", "++15551234567", "t").query_params();
    assert_eq!(values(&pairs, "number"), vec!["+15551234567"]);
}

#[test]
fn scheduled_time_has_seconds_and_no_zone() {
    let time = UtcDateTime::new(2023, 11, 14, 22, 13, 20, 500_000_000).unwrap();
    let pairs = plain().with_time(time).query_params();
    assert_eq!(values(&pairs, "time"), vec!["2023-11-14T22:13:20"]);
}

#[test]
fn unscheduled_request_has_no_time() {
    assert!(values(&plain().query_params(), "time").is_empty());
}

#[test]
fn expiry_is_a_decimal_numeral() {
    assert_eq!(values(&plain().with_expired(0).query_params(), "expired"), vec!["0"]);
    assert_eq!(values(&plain().with_expired(1440).query_params(), "expired"), vec!["1440"]);
    assert_eq!(values(&plain().with_expired(-15).query_params(), "expired"), vec!["-15"]);
    assert_eq!(
        values(&plain().with_expired(i32::MIN).query_params(), "expired"),
        vec!["-2147483648"]
    );
    assert!(values(&plain().query_params(), "expired").is_empty());
}

#[test]
fn optional_texts_go_out_as_they_are() {
    let r = plain().with_dlr_url("http://x/y").with_user_key("");
    let pairs = r.query_params();
    assert_eq!(values(&pairs, "dlr-url"), vec!["http://x/y"]);
    assert_eq!(values(&pairs, "user-key"), vec![""]);
    assert!(values(&plain().query_params(), "dlr-url").is_empty());
    assert!(values(&plain().query_params(), "user-key").is_empty());
}

#[test]
fn no_name_goes_out_twice() {
    let r = plain()
        .with_time(UtcDateTime::new(2030, 1, 2, 3, 4, 5, 0).unwrap())
        .with_dlr_url("u")
        .with_expired(1)
        .with_flags(SmsFlags::all())
        .with_user_key("k")
        .with_encoding(Encoding::Udh);
    let pairs = r.query_params();
    for i in 0..pairs.len() {
        for j in 0..i {
            assert_ne!(pairs[i].0, pairs[j].0);
        }
    }
}

#[test]
fn one_parameter_at_a_time() {
    let r = plain().with_flags(SmsFlags::only(SmsFlag::NoBl)).with_expired(7);
    assert_eq!(r.param(ParamKey::ApiKey), Some("secret".to_string()));
    assert_eq!(r.param(ParamKey::Sender), Some("Sender".to_string()));
    assert_eq!(r.param(ParamKey::Number), Some("15551234567".to_string()));
    assert_eq!(r.param(ParamKey::Text), Some("Hello".to_string()));
    assert_eq!(r.param(ParamKey::Time), None);
    assert_eq!(r.param(ParamKey::DlrUrl), None);
    assert_eq!(r.param(ParamKey::Expired), Some("7".to_string()));
    assert_eq!(r.param(ParamKey::FlagDebug), None);
    assert_eq!(r.param(ParamKey::FlagNolog), None);
    assert_eq!(r.param(ParamKey::FlagFlash), None);
    assert_eq!(r.param(ParamKey::FlagTest), None);
    assert_eq!(r.param(ParamKey::FlagNobl), Some("1".to_string()));
    assert_eq!(r.param(ParamKey::FlagConvert), None);
    assert_eq!(r.param(ParamKey::UserKey), None);
    assert_eq!(r.param(ParamKey::Udh), None);
    assert_eq!(r.param(ParamKey::Coding), Some("1".to_string()));
}

#[test]
fn names_of_the_parameters() {
    let names = [
        "api-key", "sender", "number", "text", "time", "dlr-url", "expired", "flag-debug",
        "flag-nolog", "flag-flash", "flag-test", "flag-nobl", "flag-convert", "user-key", "udh",
        "coding",
    ];
    for (i, name) in names.iter().enumerate() {
        assert_eq!(ParamKey::nth(i).name(), *name);
    }
}

#[test]
fn empty_required_fields_are_noticed() {
    assert!(plain().has_required_fields());
    assert!(!SmsRequest::new("", "s", "n", "t").has_required_fields());
    assert!(!SmsRequest::new("k", "", "n", "t").has_required_fields());
    assert!(!SmsRequest::new("k", "s", "", "t").has_required_fields());
    assert!(!SmsRequest::new("k", "s", "n", "").has_required_fields());
}

#[test]
fn try_new_accepts_four_fields() {
    let r = SmsRequest::try_new("secret", "Sender", "+15551234567", "Hello").unwrap();
    assert_eq!(r.query_params(), plain().query_params());
    assert!(r.has_required_fields());
}

#[test]
fn try_new_names_the_first_empty_field() {
    assert_eq!(SmsRequest::try_new("", "", "", "").err(), Some(MissingField::ApiKey));
    assert_eq!(SmsRequest::try_new("k", "", "", "").err(), Some(MissingField::Sender));
    assert_eq!(SmsRequest::try_new("k", "s", "", "").err(), Some(MissingField::Number));
    assert_eq!(SmsRequest::try_new("k", "s", "n", "").err(), Some(MissingField::Text));
    assert_eq!(SmsRequest::try_new("", "s", "n", "t").err(), Some(MissingField::ApiKey));
    assert_eq!(SmsRequest::try_new("k", "s", "n", "").err(), Some(MissingField::Text));
}

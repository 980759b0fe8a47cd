//! One message to send, and the parameters that stand for it on the wire.

use vstd::prelude::*;
use crate::flags::{SmsFlag, SmsFlags};
use crate::params::{
    lemma_position_at, lemma_wire_names_differ, values_named, ParamKey, WirePairs, PARAM_COUNT,
};
use crate::text::{i32_to_text, int_text, strip_leading_plus, strip_plus};
use crate::time::{is_plain_timestamp, lemma_wire_text_is_plain, UtcDateTime};

verus! {

/// How the gateway is told to read the message body.
#[derive(Debug, Clone, Copy, PartialEq, Eq, Structural)]
pub enum Encoding {
    /// The gateway's own default alphabet.
    Default,
    /// Eight-bit data.
    EightBit,
    /// Eight-bit data that begins with a user data header.
    Udh,
}

impl Encoding {
    /// The encoding that two switches ask for: a user data header where
    /// `udh` is on, whatever `eight_bit` says; else eight-bit data where
    /// `eight_bit` is on; else the gateway's default.
    pub fn from_switches(udh: bool, eight_bit: bool) -> (encoding: Self)
        ensures
            encoding == if udh {
                Encoding::Udh
            } else if eight_bit {
                Encoding::EightBit
            } else {
                Encoding::Default
            },
    {
        if udh {
            Encoding::Udh
        } else if eight_bit {
            Encoding::EightBit
        } else {
            Encoding::Default
        }
    }
}

/// A field that every request needs, and that was given empty.
#[derive(Debug, Clone, Copy, PartialEq, Eq, Structural)]
pub enum MissingField {
    /// The caller's credential.
    ApiKey,
    /// The sender's id or name.
    Sender,
    /// The destination.
    Number,
    /// The message.
    Text,
}

/// The first of the four fields that is empty, if one is.
pub open spec fn first_missing(
    api_key: Seq<char>,
    sender: Seq<char>,
    number: Seq<char>,
    text: Seq<char>,
) -> Option<MissingField> {
    if api_key.len() == 0 {
        Some(MissingField::ApiKey)
    } else if sender.len() == 0 {
        Some(MissingField::Sender)
    } else if number.len() == 0 {
        Some(MissingField::Number)
    } else if text.len() == 0 {
        Some(MissingField::Text)
    } else {
        None
    }
}

impl SmsFlag {
    /// The parameter that says that this switch is on.
    pub open spec fn param_key(self) -> ParamKey {
        match self {
            SmsFlag::Debug => ParamKey::FlagDebug,
            SmsFlag::NoLog => ParamKey::FlagNolog,
            SmsFlag::Flash => ParamKey::FlagFlash,
            SmsFlag::Test => ParamKey::FlagTest,
            SmsFlag::NoBl => ParamKey::FlagNobl,
            SmsFlag::Convert => ParamKey::FlagConvert,
        }
    }

    /// The value under which this switch goes on the wire: `3` for `NoLog`,
    /// `1` for the others.
    pub open spec fn param_literal(self) -> Seq<char> {
        match self {
            SmsFlag::NoLog => "3"@,
            _ => "1"@,
        }
    }

    /// The value under which this switch goes on the wire.
    pub fn literal(self) -> (s: &'static str)
        ensures
            s@ == self.param_literal(),
    {
        match self {
            SmsFlag::NoLog => "3",
            _ => "1",
        }
    }
}

/// One message to send.
pub struct SmsRequest<'a> {
    /// The caller's credential.
    pub api_key: &'a str,
    /// The sender's id or name.
    pub sender: &'a str,
    /// The destination; a leading `+` is in order.
    pub number: &'a str,
    /// The message.
    pub text: &'a str,
    /// When to deliver, if not at once.
    pub time: Option<UtcDateTime>,
    /// Where the gateway is to report delivery.
    pub dlr_url: Option<&'a str>,
    /// After how many minutes the gateway is to give up.
    pub expired: Option<i32>,
    /// The switches that are on.
    pub flags: SmsFlags,
    /// The caller's own token, by which to find the message again.
    pub user_key: Option<&'a str>,
    /// How the gateway is to read the text.
    pub encoding: Encoding,
}

/// The text that optionally is there.
pub open spec fn text_of(s: Option<String>) -> Option<Seq<char>> {
    match s {
        Some(s) => Some(s@),
        None => None,
    }
}

impl<'a> SmsRequest<'a> {
    /// What the request sends under the parameter `key`: its value, or
    /// `None` where the request leaves the parameter out.
    pub open spec fn wire_value(&self, key: ParamKey) -> Option<Seq<char>> {
        match key {
            ParamKey::ApiKey => Some(self.api_key@),
            ParamKey::Sender => Some(self.sender@),
            ParamKey::Number => Some(strip_plus(self.number@)),
            ParamKey::Text => Some(self.text@),
            ParamKey::Time => match self.time {
                Some(time) => Some(time@.wire_text()),
                None => None,
            },
            ParamKey::DlrUrl => match self.dlr_url {
                Some(url) => Some(url@),
                None => None,
            },
            ParamKey::Expired => match self.expired {
                Some(minutes) => Some(int_text(minutes as int)),
                None => None,
            },
            ParamKey::FlagDebug => self.flag_value(SmsFlag::Debug),
            ParamKey::FlagNolog => self.flag_value(SmsFlag::NoLog),
            ParamKey::FlagFlash => self.flag_value(SmsFlag::Flash),
            ParamKey::FlagTest => self.flag_value(SmsFlag::Test),
            ParamKey::FlagNobl => self.flag_value(SmsFlag::NoBl),
            ParamKey::FlagConvert => self.flag_value(SmsFlag::Convert),
            ParamKey::UserKey => match self.user_key {
                Some(token) => Some(token@),
                None => None,
            },
            ParamKey::Udh => if self.encoding == Encoding::Udh {
                Some("1"@)
            } else {
                None
            },
            ParamKey::Coding => if self.encoding == Encoding::Default {
                None
            } else {
                Some("1"@)
            },
        }
    }

    /// Whether the switch `flag` is on in this request.
    pub open spec fn has_flag(&self, flag: SmsFlag) -> bool {
        self.flags@.contains(flag)
    }

    /// What the request sends for the switch `flag`: its literal if it is
    /// on, nothing if it is off.
    pub open spec fn flag_value(&self, flag: SmsFlag) -> Option<Seq<char>> {
        if self.has_flag(flag) {
            Some(flag.param_literal())
        } else {
            None
        }
    }

    /// The parameters of the first `n` places, in order, each with the
    /// value that the request sends under it.
    pub open spec fn pairs_upto(&self, n: int) -> WirePairs
        decreases n,
    {
        if n <= 0 {
            Seq::empty()
        } else {
            let key = ParamKey::at(n - 1);
            match self.wire_value(key) {
                Some(value) => self.pairs_upto(n - 1).push((key.wire_name(), value)),
                None => self.pairs_upto(n - 1),
            }
        }
    }

    /// The request on the wire: every parameter that it sends, once, with
    /// its value.
    pub open spec fn wire_pairs(&self) -> WirePairs {
        self.pairs_upto(PARAM_COUNT as int)
    }

    /// Whether the four fields that every request needs are there.
    pub open spec fn is_complete(&self) -> bool {
        self.api_key@.len() > 0 && self.sender@.len() > 0 && self.number@.len() > 0
            && self.text@.len() > 0
    }

    /// Whether this is the request that is made of the four fields alone:
    /// delivered at once, with no delivery report and no expiry, no switch
    /// on, no tracking token, and read as eight-bit data.
    pub open spec fn is_plain(
        &self,
        api_key: &str,
        sender: &str,
        number: &str,
        text: &str,
    ) -> bool {
        &&& self.api_key == api_key
        &&& self.sender == sender
        &&& self.number == number
        &&& self.text == text
        &&& self.time is None
        &&& self.dlr_url is None
        &&& self.expired is None
        &&& self.flags@ == Set::<SmsFlag>::empty()
        &&& self.user_key is None
        &&& self.encoding == Encoding::EightBit
    }

    /// A request with the four fields that every request needs. It is
    /// delivered at once, asks for no delivery report, does not expire, has
    /// no switch on and no tracking token, and is read as eight-bit data.
    ///
    /// The fields are taken as they are. A request with an empty one is not
    /// complete: see `try_new`.
    #[must_use]
    pub fn new(api_key: &'a str, sender: &'a str, number: &'a str, text: &'a str) -> (r: Self)
        ensures
            r.is_plain(api_key, sender, number, text),
    {
        SmsRequest {
            api_key,
            sender,
            number,
            text,
            time: None,
            dlr_url: None,
            expired: None,
            flags: SmsFlags::empty(),
            user_key: None,
            encoding: Encoding::EightBit,
        }
    }

    /// The request that `new` makes of the four fields, unless one of them
    /// is empty: then the first that is.
    pub fn try_new(api_key: &'a str, sender: &'a str, number: &'a str, text: &'a str) -> (r: Result<
        Self,
        MissingField,
    >)
        ensures
            match first_missing(api_key@, sender@, number@, text@) {
                Some(field) => r == Err::<Self, MissingField>(field),
                None => r matches Ok(request) && request.is_plain(api_key, sender, number, text)
                    && request.is_complete(),
            },
    {
        if api_key.is_empty() {
            Err(MissingField::ApiKey)
        } else if sender.is_empty() {
            Err(MissingField::Sender)
        } else if number.is_empty() {
            Err(MissingField::Number)
        } else if text.is_empty() {
            Err(MissingField::Text)
        } else {
            Ok(SmsRequest::new(api_key, sender, number, text))
        }
    }

    /// This request, to be delivered at `time`.
    #[must_use]
    pub fn with_time(self, time: UtcDateTime) -> (r: Self)
        ensures
            r == (SmsRequest { time: Some(time), ..self }),
    {
        SmsRequest { time: Some(time), ..self }
    }

    /// This request, with delivery reported to `dlr_url`.
    #[must_use]
    pub fn with_dlr_url(self, dlr_url: &'a str) -> (r: Self)
        ensures
            r == (SmsRequest { dlr_url: Some(dlr_url), ..self }),
    {
        SmsRequest { dlr_url: Some(dlr_url), ..self }
    }

    /// This request, given up after `expired` minutes.
    #[must_use]
    pub fn with_expired(self, expired: i32) -> (r: Self)
        ensures
            r == (SmsRequest { expired: Some(expired), ..self }),
    {
        SmsRequest { expired: Some(expired), ..self }
    }

    /// This request, with the switches `flags` on and no others.
    #[must_use]
    pub fn with_flags(self, flags: SmsFlags) -> (r: Self)
        ensures
            r == (SmsRequest { flags, ..self }),
    {
        SmsRequest { flags, ..self }
    }

    /// This request, with the tracking token `user_key`.
    #[must_use]
    pub fn with_user_key(self, user_key: &'a str) -> (r: Self)
        ensures
            r == (SmsRequest { user_key: Some(user_key), ..self }),
    {
        SmsRequest { user_key: Some(user_key), ..self }
    }

    /// This request, read as `encoding`.
    #[must_use]
    pub fn with_encoding(self, encoding: Encoding) -> (r: Self)
        ensures
            r == (SmsRequest { encoding, ..self }),
    {
        SmsRequest { encoding, ..self }
    }

    /// Tells whether the four fields that every request needs are there.
    pub fn has_required_fields(&self) -> (b: bool)
        ensures
            b == self.is_complete(),
    {
        !self.api_key.is_empty() && !self.sender.is_empty() && !self.number.is_empty()
            && !self.text.is_empty()
    }

    /// What the request sends under the parameter `key`.
    pub fn param(&self, key: ParamKey) -> (value: Option<String>)
        ensures
            text_of(value) == self.wire_value(key),
    {
        match key {
            ParamKey::ApiKey => Some(self.api_key.to_owned()),
            ParamKey::Sender => Some(self.sender.to_owned()),
            ParamKey::Number => Some(strip_leading_plus(self.number).to_owned()),
            ParamKey::Text => Some(self.text.to_owned()),
            ParamKey::Time => match &self.time {
                Some(time) => Some(time.wire_text()),
                None => None,
            },
            ParamKey::DlrUrl => match self.dlr_url {
                Some(url) => Some(url.to_owned()),
                None => None,
            },
            ParamKey::Expired => match self.expired {
                Some(minutes) => Some(i32_to_text(minutes)),
                None => None,
            },
            ParamKey::FlagDebug => self.flag_param(SmsFlag::Debug),
            ParamKey::FlagNolog => self.flag_param(SmsFlag::NoLog),
            ParamKey::FlagFlash => self.flag_param(SmsFlag::Flash),
            ParamKey::FlagTest => self.flag_param(SmsFlag::Test),
            ParamKey::FlagNobl => self.flag_param(SmsFlag::NoBl),
            ParamKey::FlagConvert => self.flag_param(SmsFlag::Convert),
            ParamKey::UserKey => match self.user_key {
                Some(token) => Some(token.to_owned()),
                None => None,
            },
            ParamKey::Udh => match self.encoding {
                Encoding::Udh => Some("1".to_owned()),
                _ => None,
            },
            ParamKey::Coding => match self.encoding {
                Encoding::Default => None,
                _ => Some("1".to_owned()),
            },
        }
    }

    /// What the request sends for the switch `flag`.
    fn flag_param(&self, flag: SmsFlag) -> (value: Option<String>)
        ensures
            text_of(value) == self.flag_value(flag),
    {
        if self.flags.has(flag) {
            Some(flag.literal().to_owned())
        } else {
            None
        }
    }

    /// The request on the wire: the name and the value of every parameter
    /// that it sends.
    pub fn query_params(&self) -> (pairs: Vec<(&'static str, String)>)
        ensures
            pairs.deep_view() == self.wire_pairs(),
    {
        let mut pairs: Vec<(&'static str, String)> = Vec::new();
        let mut i: usize = 0;
        while i < PARAM_COUNT
            invariant
                i <= PARAM_COUNT,
                pairs.deep_view() == self.pairs_upto(i as int),
            decreases PARAM_COUNT - i,
        {
            let key: ParamKey = ParamKey::nth(i);
            if let Some(value) = self.param(key) {
                pairs.push((key.name(), value));
            }
            i = i + 1;
        }
        pairs
    }
}

/// Among the parameters of the first `n` places, the request sends `key`
/// exactly as `wire_value` says if `key` has one of these places, and not
/// at all if it has not.
proof fn lemma_pairs_upto(request: SmsRequest, key: ParamKey, n: int)
    requires
        0 <= n <= PARAM_COUNT,
    ensures
        values_named(request.pairs_upto(n), key.wire_name()) == if key.position() < n {
            match request.wire_value(key) {
                Some(value) => seq![value],
                None => Seq::empty(),
            }
        } else {
            Seq::empty()
        },
    decreases n,
{
    if n > 0 {
        let here = ParamKey::at(n - 1);
        let before = request.pairs_upto(n - 1);
        lemma_pairs_upto(request, key, n - 1);
        lemma_wire_names_differ(here, key);
        lemma_position_at(key);
        if let Some(value) = request.wire_value(here) {
            assert(before.push((here.wire_name(), value)).drop_last() =~= before);
        }
    }
}

/// Under the name of each parameter the wire holds the request's value for
/// it, once, or nothing where the request leaves the parameter out.
pub proof fn lemma_one_entry_per_parameter(request: SmsRequest, key: ParamKey)
    ensures
        values_named(request.wire_pairs(), key.wire_name()) == match request.wire_value(key) {
            Some(value) => seq![value],
            None => Seq::empty(),
        },
{
    lemma_pairs_upto(request, key, PARAM_COUNT as int);
    lemma_position_at(key);
}

/// The first `n` places hold nothing under a name that is no parameter's.
proof fn lemma_no_other_names_upto(request: SmsRequest, name: Seq<char>, n: int)
    requires
        forall|key: ParamKey| key.wire_name() != name,
        0 <= n <= PARAM_COUNT,
    ensures
        values_named(request.pairs_upto(n), name) == Seq::<Seq<char>>::empty(),
    decreases n,
{
    if n > 0 {
        let here = ParamKey::at(n - 1);
        let before = request.pairs_upto(n - 1);
        lemma_no_other_names_upto(request, name, n - 1);
        if let Some(value) = request.wire_value(here) {
            assert(before.push((here.wire_name(), value)).drop_last() =~= before);
        }
    }
}

/// The wire holds nothing under a name that is no parameter's.
pub proof fn lemma_no_other_names(request: SmsRequest, name: Seq<char>)
    requires
        forall|key: ParamKey| key.wire_name() != name,
    ensures
        values_named(request.wire_pairs(), name) == Seq::<Seq<char>>::empty(),
{
    lemma_no_other_names_upto(request, name, PARAM_COUNT as int);
}

/// For every combination of switches, the wire holds one entry for each
/// switch that is on, with the literal of that switch (`3` for `NoLog`, `1`
/// for the others), and no entry for a switch that is off.
pub proof fn lemma_flag_parameters(request: SmsRequest, flag: SmsFlag)
    ensures
        values_named(request.wire_pairs(), flag.param_key().wire_name()) == if request.has_flag(
            flag,
        ) {
            seq![flag.param_literal()]
        } else {
            Seq::empty()
        },
        flag.param_literal() == if flag == SmsFlag::NoLog {
            "3"@
        } else {
            "1"@
        },
{
    lemma_one_entry_per_parameter(request, flag.param_key());
}

/// `Default` adds neither `udh` nor `coding`; `EightBit` adds `coding=1`
/// alone; `Udh` adds `udh=1` and `coding=1`.
pub proof fn lemma_encoding_parameters(request: SmsRequest)
    ensures
        values_named(request.wire_pairs(), "udh"@) == if request.encoding == Encoding::Udh {
            seq!["1"@]
        } else {
            Seq::empty()
        },
        values_named(request.wire_pairs(), "coding"@) == if request.encoding == Encoding::Default {
            Seq::empty()
        } else {
            seq!["1"@]
        },
{
    lemma_one_entry_per_parameter(request, ParamKey::Udh);
    lemma_one_entry_per_parameter(request, ParamKey::Coding);
}

/// The wire holds the destination once, without the one `+` that may lead
/// it and otherwise as the request gave it.
pub proof fn lemma_number_parameter(request: SmsRequest)
    ensures
        values_named(request.wire_pairs(), "number"@) == seq![strip_plus(request.number@)],
        request.number@.len() > 0 && request.number@[0] == '+' ==> request.number@ == seq!['+']
            + strip_plus(request.number@),
        !(request.number@.len() > 0 && request.number@[0] == '+') ==> strip_plus(request.number@)
            == request.number@,
{
    lemma_one_entry_per_parameter(request, ParamKey::Number);
}

/// The wire holds a scheduled time once, as a date and a time of day that
/// end with the seconds: without a fraction and without a zone. It holds no
/// time for a request without a schedule.
pub proof fn lemma_time_parameter(request: SmsRequest)
    requires
        request.time matches Some(time) ==> time@.is_valid(),
    ensures
        match request.time {
            Some(time) => values_named(request.wire_pairs(), "time"@) == seq![time@.wire_text()]
                && is_plain_timestamp(time@.wire_text()),
            None => values_named(request.wire_pairs(), "time"@) == Seq::<Seq<char>>::empty(),
        },
{
    lemma_one_entry_per_parameter(request, ParamKey::Time);
    match request.time {
        Some(time) => {
            lemma_wire_text_is_plain(time@);
        },
        None => {},
    }
}

} // verus!

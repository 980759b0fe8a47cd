//! The parameters that the gateway understands, and what a list of them
//! holds.

use vstd::prelude::*;

verus! {

/// A parameter of the gateway's send call.
#[derive(Debug, Clone, Copy, PartialEq, Eq, Hash, Structural)]
pub enum ParamKey {
    /// The caller's credential.
    ApiKey,
    /// The sender's id.
    Sender,
    /// The destination.
    Number,
    /// The message.
    Text,
    /// When to deliver.
    Time,
    /// Where to report delivery.
    DlrUrl,
    /// After how many minutes to give up.
    Expired,
    /// The switch for debug output.
    FlagDebug,
    /// The switch that keeps the message out of the log.
    FlagNolog,
    /// The switch for flash delivery.
    FlagFlash,
    /// The switch for a test run.
    FlagTest,
    /// The switch that skips the blacklist.
    FlagNobl,
    /// The switch for character conversion.
    FlagConvert,
    /// The caller's tracking token.
    UserKey,
    /// The mark of a user data header.
    Udh,
    /// The mark of eight-bit data.
    Coding,
}

/// The number of parameters that there are.
pub const PARAM_COUNT: usize = 16;

impl ParamKey {
    /// The parameter's name on the wire.
    pub open spec fn wire_name(self) -> Seq<char> {
        match self {
            ParamKey::ApiKey => "api-key"@,
            ParamKey::Sender => "sender"@,
            ParamKey::Number => "number"@,
            ParamKey::Text => "text"@,
            ParamKey::Time => "time"@,
            ParamKey::DlrUrl => "dlr-url"@,
            ParamKey::Expired => "expired"@,
            ParamKey::FlagDebug => "flag-debug"@,
            ParamKey::FlagNolog => "flag-nolog"@,
            ParamKey::FlagFlash => "flag-flash"@,
            ParamKey::FlagTest => "flag-test"@,
            ParamKey::FlagNobl => "flag-nobl"@,
            ParamKey::FlagConvert => "flag-convert"@,
            ParamKey::UserKey => "user-key"@,
            ParamKey::Udh => "udh"@,
            ParamKey::Coding => "coding"@,
        }
    }

    /// The parameter's place in the order in which a request lists them.
    pub open spec fn position(self) -> int {
        match self {
            ParamKey::ApiKey => 0,
            ParamKey::Sender => 1,
            ParamKey::Number => 2,
            ParamKey::Text => 3,
            ParamKey::Time => 4,
            ParamKey::DlrUrl => 5,
            ParamKey::Expired => 6,
            ParamKey::FlagDebug => 7,
            ParamKey::FlagNolog => 8,
            ParamKey::FlagFlash => 9,
            ParamKey::FlagTest => 10,
            ParamKey::FlagNobl => 11,
            ParamKey::FlagConvert => 12,
            ParamKey::UserKey => 13,
            ParamKey::Udh => 14,
            ParamKey::Coding => 15,
        }
    }

    /// The parameter at the place `i` of that order; the last one for every
    /// `i` beyond it.
    pub open spec fn at(i: int) -> ParamKey {
        if i <= 0 {
            ParamKey::ApiKey
        } else if i == 1 {
            ParamKey::Sender
        } else if i == 2 {
            ParamKey::Number
        } else if i == 3 {
            ParamKey::Text
        } else if i == 4 {
            ParamKey::Time
        } else if i == 5 {
            ParamKey::DlrUrl
        } else if i == 6 {
            ParamKey::Expired
        } else if i == 7 {
            ParamKey::FlagDebug
        } else if i == 8 {
            ParamKey::FlagNolog
        } else if i == 9 {
            ParamKey::FlagFlash
        } else if i == 10 {
            ParamKey::FlagTest
        } else if i == 11 {
            ParamKey::FlagNobl
        } else if i == 12 {
            ParamKey::FlagConvert
        } else if i == 13 {
            ParamKey::UserKey
        } else if i == 14 {
            ParamKey::Udh
        } else {
            ParamKey::Coding
        }
    }

    /// The parameter's name on the wire.
    pub fn name(self) -> (s: &'static str)
        ensures
            s@ == self.wire_name(),
    {
        match self {
            ParamKey::ApiKey => "api-key",
            ParamKey::Sender => "sender",
            ParamKey::Number => "number",
            ParamKey::Text => "text",
            ParamKey::Time => "time",
            ParamKey::DlrUrl => "dlr-url",
            ParamKey::Expired => "expired",
            ParamKey::FlagDebug => "flag-debug",
            ParamKey::FlagNolog => "flag-nolog",
            ParamKey::FlagFlash => "flag-flash",
            ParamKey::FlagTest => "flag-test",
            ParamKey::FlagNobl => "flag-nobl",
            ParamKey::FlagConvert => "flag-convert",
            ParamKey::UserKey => "user-key",
            ParamKey::Udh => "udh",
            ParamKey::Coding => "coding",
        }
    }

    /// The parameter at the place `i` of the order in which a request lists
    /// them.
    pub fn nth(i: usize) -> (key: ParamKey)
        requires
            i < PARAM_COUNT,
        ensures
            key == ParamKey::at(i as int),
            key.position() == i,
    {
        match i {
            0 => ParamKey::ApiKey,
            1 => ParamKey::Sender,
            2 => ParamKey::Number,
            3 => ParamKey::Text,
            4 => ParamKey::Time,
            5 => ParamKey::DlrUrl,
            6 => ParamKey::Expired,
            7 => ParamKey::FlagDebug,
            8 => ParamKey::FlagNolog,
            9 => ParamKey::FlagFlash,
            10 => ParamKey::FlagTest,
            11 => ParamKey::FlagNobl,
            12 => ParamKey::FlagConvert,
            13 => ParamKey::UserKey,
            14 => ParamKey::Udh,
            _ => ParamKey::Coding,
        }
    }
}

/// No two parameters share a name on the wire.
pub proof fn lemma_wire_names_differ(a: ParamKey, b: ParamKey)
    ensures
        a.wire_name() == b.wire_name() <==> a == b,
{
    reveal_strlit("api-key");
    reveal_strlit("sender");
    reveal_strlit("number");
    reveal_strlit("text");
    reveal_strlit("time");
    reveal_strlit("dlr-url");
    reveal_strlit("expired");
    reveal_strlit("flag-debug");
    reveal_strlit("flag-nolog");
    reveal_strlit("flag-flash");
    reveal_strlit("flag-test");
    reveal_strlit("flag-nobl");
    reveal_strlit("flag-convert");
    reveal_strlit("user-key");
    reveal_strlit("udh");
    reveal_strlit("coding");
    if a != b && a.wire_name() == b.wire_name() {
        let s = a.wire_name();
        let t = b.wire_name();
        assert(s.len() == t.len());
        assert(s.len() > 2 ==> s[2] == t[2]);
        assert(s.len() > 6 ==> s[6] == t[6]);
    }
}

/// Every place of the order holds the parameter that has that place.
pub proof fn lemma_position_at(key: ParamKey)
    ensures
        0 <= key.position() < PARAM_COUNT,
        ParamKey::at(key.position()) == key,
{
}

/// A parameter list as the wire sees it: names and values, in order.
pub type WirePairs = Seq<(Seq<char>, Seq<char>)>;

/// The values that `pairs` gives under the name `name`, in order.
pub open spec fn values_named(pairs: WirePairs, name: Seq<char>) -> Seq<Seq<char>>
    decreases pairs.len(),
{
    if pairs.len() == 0 {
        Seq::empty()
    } else if pairs.last().0 == name {
        values_named(pairs.drop_last(), name).push(pairs.last().1)
    } else {
        values_named(pairs.drop_last(), name)
    }
}

} // verus!

//! Release channels of an app on Google Play.
use vstd::prelude::*;

use crate::text::{all_ascii, ascii_lower, concat2, str_eq, to_lowercase, unicode_lower};

verus! {

/// A release channel.
#[derive(Debug, Clone, Copy, PartialEq, Eq, Hash, Structural)]
pub enum Channel {
    Stable,
    Beta,
    Alpha,
}

/// The name of a channel, as it is displayed and parsed.
pub open spec fn channel_name(c: Channel) -> Seq<char> {
    match c {
        Channel::Stable => "stable"@,
        Channel::Beta => "beta"@,
        Channel::Alpha => "alpha"@,
    }
}

/// The channel that a lower-cased name stands for.
pub open spec fn channel_of_name(name: Seq<char>) -> Option<Channel> {
    if name == "stable"@ {
        Some(Channel::Stable)
    } else if name == "beta"@ {
        Some(Channel::Beta)
    } else if name == "alpha"@ {
        Some(Channel::Alpha)
    } else {
        None
    }
}

/// What parsing a channel name gives: the channel of its lower-cased form,
/// or the message `Invalid Channel: <name>`.
pub open spec fn parse_channel_spec(s: Seq<char>) -> Result<Channel, Seq<char>> {
    match channel_of_name(unicode_lower(s)) {
        Some(c) => Ok(c),
        None => Err("Invalid Channel: "@ + s),
    }
}

/// The packages that have beta and alpha channels.
pub open spec fn beta_alpha_packages() -> Seq<Seq<char>> {
    seq!["com.discord"@]
}

impl Channel {
    /// The name of this channel (what `Display` shows).
    pub fn to_string(&self) -> (r: String)
        ensures
            r@ == channel_name(*self),
    {
        match self {
            Channel::Stable => "stable".to_owned(),
            Channel::Beta => "beta".to_owned(),
            Channel::Alpha => "alpha".to_owned(),
        }
    }

    /// Parses a channel name, ignoring case. Fails with
    /// `Invalid Channel: <name>` for any other name.
    pub fn from_str(s: &str) -> (r: Result<Self, String>)
        ensures
            match r {
                Ok(c) => parse_channel_spec(s@) == Ok::<Channel, Seq<char>>(c),
                Err(m) => parse_channel_spec(s@) == Err::<Channel, Seq<char>>(m@),
            },
            r matches Ok(c) ==> channel_of_name(unicode_lower(s@)) == Some(c),
            r matches Err(m) ==> channel_of_name(unicode_lower(s@)) is None && m@ == "Invalid Channel: "@
                + s@,
            channel_of_name(unicode_lower(s@)) is Some ==> r is Ok,
            // on ASCII text, case does not matter; so each channel's name parses back to it
            all_ascii(s@) ==> match r {
                Ok(c) => channel_of_name(ascii_lower(s@)) == Some(c),
                Err(_) => channel_of_name(ascii_lower(s@)) is None,
            },
            all_ascii(s@) && (exists|c: Channel| ascii_lower(s@) == channel_name(c)) ==> r is Ok,
            // the name of each channel parses back to it
            forall|c: Channel| s@ == channel_name(c) ==> r == Ok::<Channel, String>(c),
    {
        proof {
            lemma_channel_name_is_lower_ascii(Channel::Stable);
            lemma_channel_name_is_lower_ascii(Channel::Beta);
            lemma_channel_name_is_lower_ascii(Channel::Alpha);
        }
        let lower = to_lowercase(s);
        proof {
            reveal_strlit("stable");
            reveal_strlit("beta");
            reveal_strlit("alpha");
        }
        if str_eq(lower.as_str(), "stable") {
            Ok(Channel::Stable)
        } else if str_eq(lower.as_str(), "beta") {
            Ok(Channel::Beta)
        } else if str_eq(lower.as_str(), "alpha") {
            Ok(Channel::Alpha)
        } else {
            Err(concat2("Invalid Channel: ", s))
        }
    }

    /// Whether the channel exists for `package_name`: the stable one always,
    /// beta and alpha only for the packages that have them.
    pub fn is_available_for_package(self, package_name: &str) -> (r: bool)
        ensures
            r == (self == Channel::Stable || beta_alpha_packages().contains(package_name@)),
    {
        match self {
            Channel::Stable => true,
            Channel::Beta | Channel::Alpha => {
                let r = str_eq(package_name, "com.discord");
                assert(beta_alpha_packages()[0] == "com.discord"@);
                assert(r ==> beta_alpha_packages().contains(package_name@));
                r
            },
        }
    }
}

/// Every channel's name is ASCII and lower-case, so it parses back to the channel.
pub proof fn lemma_channel_name_is_lower_ascii(c: Channel)
    ensures
        all_ascii(channel_name(c)),
        ascii_lower(channel_name(c)) == channel_name(c),
        channel_of_name(channel_name(c)) == Some(c),
{
    reveal_strlit("stable");
    reveal_strlit("beta");
    reveal_strlit("alpha");
    assert(ascii_lower(channel_name(c)) =~= channel_name(c));
}

} // verus!

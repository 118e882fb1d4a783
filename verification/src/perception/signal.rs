//! The typed perception signal vocabulary: the channel a signal arrived on
//! and the signal record itself, with its payload carried as opaque text.

use vstd::prelude::*;
use crate::text::{eq_ignore_ascii_case, str_eq_ignore_ascii_case};

verus! {

/// The channel a perception signal arrived on.
#[derive(Debug, Clone, Copy, PartialEq, Eq, Structural)]
pub enum SignalChannel {
    Fiber,
    Dom,
    Network,
    Unknown,
}

impl SignalChannel {
    /// The exact upper-case name of this channel.
    pub open spec fn text(self) -> Seq<char> {
        match self {
            SignalChannel::Fiber => "FIBER"@,
            SignalChannel::Dom => "DOM"@,
            SignalChannel::Network => "NETWORK"@,
            SignalChannel::Unknown => "UNKNOWN"@,
        }
    }

    /// The channel a name denotes, ASCII case-insensitively; anything
    /// outside the known set is `Unknown`.
    pub open spec fn parse_spec(s: Seq<char>) -> SignalChannel {
        if eq_ignore_ascii_case(s, "FIBER"@) {
            SignalChannel::Fiber
        } else if eq_ignore_ascii_case(s, "DOM"@) {
            SignalChannel::Dom
        } else if eq_ignore_ascii_case(s, "NETWORK"@) {
            SignalChannel::Network
        } else {
            SignalChannel::Unknown
        }
    }

    pub fn from(value: &str) -> (r: SignalChannel)
        ensures
            r == Self::parse_spec(value@),
    {
        if str_eq_ignore_ascii_case(value, "FIBER") {
            SignalChannel::Fiber
        } else if str_eq_ignore_ascii_case(value, "DOM") {
            SignalChannel::Dom
        } else if str_eq_ignore_ascii_case(value, "NETWORK") {
            SignalChannel::Network
        } else {
            SignalChannel::Unknown
        }
    }

    pub fn as_str(&self) -> (r: &'static str)
        ensures
            r@ == self.text(),
    {
        match self {
            SignalChannel::Fiber => "FIBER",
            SignalChannel::Dom => "DOM",
            SignalChannel::Network => "NETWORK",
            SignalChannel::Unknown => "UNKNOWN",
        }
    }
}

/// Every channel's name reads back as that channel.
pub proof fn lemma_channel_name_round_trip(channel: SignalChannel)
    ensures
        SignalChannel::parse_spec(channel.text()) == channel,
{
    reveal_strlit("FIBER");
    reveal_strlit("DOM");
    reveal_strlit("NETWORK");
    reveal_strlit("UNKNOWN");
    assert(crate::text::upper_code("NETWORK"@[0]) != crate::text::upper_code("UNKNOWN"@[0]));
}

/// One perception signal, as the embedded log channel carries it. The
/// data field holds the signal's payload as opaque text.
#[derive(Debug, Clone)]
pub enum SignalPayload {
    Perception { channel: SignalChannel, selector: String, data: String, timestamp: u64 },
}

impl SignalPayload {
    /// The channel of this signal.
    pub open spec fn channel_spec(self) -> SignalChannel {
        match self {
            SignalPayload::Perception { channel, .. } => channel,
        }
    }

    pub fn channel(&self) -> (r: SignalChannel)
        ensures
            r == self.channel_spec(),
    {
        match self {
            SignalPayload::Perception { channel, .. } => *channel,
        }
    }
}

} // verus!

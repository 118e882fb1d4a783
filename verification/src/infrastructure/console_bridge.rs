//! The embedded-log decoding adapter: a console line carrying a fixed
//! textual prefix, optional blanks, and a base64 body is checked and
//! decoded here; turning the decoded bytes into a typed signal is the
//! runtime adapter's serde work and happens outside this crate's core.

use vstd::prelude::*;
use vstd::string::StrSliceExecFns;
use crate::text::str_eq_ignore_ascii_case;

verus! {

/// The channel a decoded signal arrived on.
#[derive(Debug, Clone, Copy, PartialEq, Eq, Structural)]
pub enum SignalChannel {
    Fiber,
    Dom,
    Network,
    Unknown,
}

impl SignalChannel {
    /// The channel a name denotes, ASCII case-insensitively; anything
    /// outside the known set is `Unknown`.
    pub open spec fn parse_spec(s: Seq<char>) -> SignalChannel {
        if crate::text::eq_ignore_ascii_case(s, "FIBER"@) {
            SignalChannel::Fiber
        } else if crate::text::eq_ignore_ascii_case(s, "DOM"@) {
            SignalChannel::Dom
        } else if crate::text::eq_ignore_ascii_case(s, "NETWORK"@) {
            SignalChannel::Network
        } else {
            SignalChannel::Unknown
        }
    }

    pub fn from(value: &str) -> (r: SignalChannel)
        ensures
            r == Self::parse_spec(value@),
    {
        if str_eq_ignore_ascii_case(value, "FIBER") {
            SignalChannel::Fiber
        } else if str_eq_ignore_ascii_case(value, "DOM") {
            SignalChannel::Dom
        } else if str_eq_ignore_ascii_case(value, "NETWORK") {
            SignalChannel::Network
        } else {
            SignalChannel::Unknown
        }
    }
}

/// A decoded perception signal; the data field carries the signal's
/// payload as opaque text.
#[derive(Debug, Clone)]
pub struct SignalPayload {
    pub channel: SignalChannel,
    pub selector: String,
    pub data: String,
    pub timestamp: u64,
}

/// Why a console line was rejected.
#[derive(Debug, Clone)]
pub enum BridgeError {
    /// The line does not carry the expected frame: prefix, optional
    /// blanks, and a nonempty body.
    InvalidPrefix,
    /// The body is not valid standard base64; carries the body text.
    InvalidBase64(String),
    /// The decoded bytes are not a valid signal record; carries a message.
    InvalidMsgPack(String),
}

/// What `base64::Engine::decode` with the standard alphabet returns for a
/// text: the decoded bytes, or nothing when the text is not valid base64.
pub uninterp spec fn b64_standard_decoded(s: Seq<char>) -> Option<Seq<u8>>;

/// Relies on `base64::Engine::decode` with the `STANDARD` engine: the
/// result is a function of the input text alone — the decoded bytes on
/// valid standard base64 (padded, no whitespace), an error otherwise.
#[verifier::external_body]
pub(crate) fn base64_decode(s: &str) -> (r: Option<Vec<u8>>)
    ensures
        match r {
            Some(bytes) => b64_standard_decoded(s@) == Some(bytes@),
            None => b64_standard_decoded(s@) is None,
        },
{
    base64::Engine::decode(&base64::engine::general_purpose::STANDARD, s).ok()
}

pub open spec fn is_blank(c: char) -> bool {
    c == ' ' || c == '\t' || c == '\r' || c == '\n'
}

/// A sequence with its leading blanks removed.
pub open spec fn skip_blanks(s: Seq<char>) -> Seq<char>
    decreases s.len(),
{
    if s.len() > 0 && is_blank(s[0]) {
        skip_blanks(s.drop_first())
    } else {
        s
    }
}

proof fn lemma_skip_blanks_at(s: Seq<char>, k: int)
    requires
        0 <= k <= s.len(),
        forall|j: int| 0 <= j < k ==> is_blank(#[trigger] s[j]),
        k == s.len() || !is_blank(s[k]),
    ensures
        skip_blanks(s) == s.skip(k),
    decreases k,
{
    if k == 0 {
        assert(s.skip(0) =~= s);
    } else {
        assert(is_blank(s[0]));
        lemma_skip_blanks_at(s.drop_first(), k - 1);
        assert(s.drop_first().skip(k - 1) =~= s.skip(k));
    }
}

/// The body of a well-formed console frame: the fixed prefix, then any
/// run of blanks, then a nonempty remainder — which is the body.
pub open spec fn frame_body(s: Seq<char>) -> Option<Seq<char>> {
    if s.len() >= "__TELEFLOW__:"@.len() && s.take("__TELEFLOW__:"@.len() as int)
        == "__TELEFLOW__:"@ {
        let body = skip_blanks(s.skip("__TELEFLOW__:"@.len() as int));
        if body.len() > 0 {
            Some(body)
        } else {
            None
        }
    } else {
        None
    }
}

/// The embedded-log decoder.
pub struct ConsoleBridge;

impl ConsoleBridge {
    /// Checks the frame of a console line and decodes its base64 body to
    /// the signal's raw bytes. The line must carry the fixed prefix and a
    /// nonempty body (`InvalidPrefix` otherwise), and the body must be
    /// valid standard base64 (`InvalidBase64` otherwise).
    pub fn decode_signal(console_message: &str) -> (r: Result<Vec<u8>, BridgeError>)
        ensures
            match r {
                Ok(bytes) => frame_body(console_message@) matches Some(body)
                    && b64_standard_decoded(body) == Some(bytes@),
                Err(e) => match e {
                    BridgeError::InvalidPrefix => frame_body(console_message@) is None,
                    BridgeError::InvalidBase64(text) => frame_body(console_message@) matches Some(
                        body,
                    ) && text@ == body && (b64_standard_decoded(body) is None),
                    BridgeError::InvalidMsgPack(_) => false,
                },
            },
    {
        proof {
            reveal_strlit("__TELEFLOW__:");
        }
        let prefix: &str = "__TELEFLOW__:";
        let prefix_len: usize = 13;
        proof {
            assert(prefix@.len() == 13);
        }
        let len = console_message.unicode_len();
        if len < prefix_len {
            return Err(BridgeError::InvalidPrefix);
        }
        let mut i: usize = 0;
        while i < prefix_len
            invariant
                0 <= i <= prefix_len,
                prefix_len == 13,
                prefix@ == "__TELEFLOW__:"@,
                prefix@.len() == 13,
                len == console_message@.len(),
                len >= prefix_len,
                forall|j: int| 0 <= j < i ==> console_message@[j] == prefix@[j],
            decreases prefix_len - i,
        {
            if console_message.get_char(i) != prefix.get_char(i) {
                proof {
                    assert(console_message@.take(13)[i as int] != prefix@[i as int]);
                }
                return Err(BridgeError::InvalidPrefix);
            }
            i += 1;
        }
        proof {
            assert(console_message@.take(13) =~= prefix@);
        }
        let mut k: usize = prefix_len;
        loop
            invariant
                prefix_len <= k <= len,
                prefix_len == 13,
                len == console_message@.len(),
                forall|j: int| prefix_len <= j < k ==> is_blank(#[trigger] console_message@[j]),
            ensures
                prefix_len <= k <= len,
                forall|j: int| prefix_len <= j < k ==> is_blank(#[trigger] console_message@[j]),
                k == len || !is_blank(console_message@[k as int]),
            decreases len - k,
        {
            if k >= len {
                break;
            }
            let c = console_message.get_char(k);
            if !(c == ' ' || c == '\t' || c == '\r' || c == '\n') {
                break;
            }
            k += 1;
        }
        proof {
            let rest = console_message@.skip(13);
            assert(forall|j: int| 0 <= j < k - 13 ==> is_blank(#[trigger] rest[j]));
            lemma_skip_blanks_at(rest, k - 13);
        }
        if k == len {
            proof {
                assert(skip_blanks(console_message@.skip(13)) =~= Seq::<char>::empty());
            }
            return Err(BridgeError::InvalidPrefix);
        }
        let body = console_message.substring_char(k, len);
        proof {
            assert(body@ =~= console_message@.skip(13).skip(k - 13));
        }
        match base64_decode(body) {
            Some(bytes) => Ok(bytes),
            None => Err(BridgeError::InvalidBase64(String::from_str(body))),
        }
    }
}

} // verus!

//! The worker-side signal bridge: a console line with the fixed signal
//! prefix carries a base64 body whose bytes encode one perception signal.
//! This module checks the frame and yields the raw bytes; the runtime
//! adapter around it deserializes them and forwards the result to the
//! named worker as a `Signal` message.

use vstd::prelude::*;
use vstd::string::StrSliceExecFns;
use crate::infrastructure::console_bridge::{b64_standard_decoded, base64_decode};

verus! {

/// Where a perception signal originated.
#[derive(Debug, Clone, Copy, PartialEq, Eq, Structural)]
pub enum SignalSource {
    Fiber,
    DOM,
    Network,
}

/// One perception signal as the worker bridge models it; the value field
/// carries the signal's payload as opaque text.
#[derive(Debug, Clone)]
pub struct PerceptionSignal {
    pub source: SignalSource,
    pub selector: String,
    pub value: String,
    pub timestamp: u64,
}

/// The base64 body of a well-formed signal line: everything after the
/// fixed prefix.
pub open spec fn signal_frame_body(s: Seq<char>) -> Option<Seq<char>> {
    if s.len() >= "TELEFLOW_SIG:"@.len() && s.take("TELEFLOW_SIG:"@.len() as int)
        == "TELEFLOW_SIG:"@ {
        Some(s.skip("TELEFLOW_SIG:"@.len() as int))
    } else {
        None
    }
}

/// Checks a console line for the signal frame and decodes its base64 body
/// to the signal's raw bytes. A line without the prefix, and a body that
/// is not valid standard base64, yield nothing — the bridge drops such
/// lines rather than fail its caller.
pub fn decode_log_signal(log_text: &str) -> (r: Option<Vec<u8>>)
    ensures
        match r {
            Some(bytes) => signal_frame_body(log_text@) matches Some(body) && b64_standard_decoded(
                body,
            ) == Some(bytes@),
            None => signal_frame_body(log_text@) is None || (signal_frame_body(log_text@)
                matches Some(body) && (b64_standard_decoded(body) is None)),
        },
{
    proof {
        reveal_strlit("TELEFLOW_SIG:");
    }
    let prefix: &str = "TELEFLOW_SIG:";
    let prefix_len: usize = 13;
    proof {
        assert(prefix@.len() == 13);
    }
    let len = log_text.unicode_len();
    if len < prefix_len {
        return None;
    }
    let mut i: usize = 0;
    while i < prefix_len
        invariant
            0 <= i <= prefix_len,
            prefix_len == 13,
            prefix@ == "TELEFLOW_SIG:"@,
            prefix@.len() == 13,
            len == log_text@.len(),
            len >= prefix_len,
            forall|j: int| 0 <= j < i ==> log_text@[j] == prefix@[j],
        decreases prefix_len - i,
    {
        if log_text.get_char(i) != prefix.get_char(i) {
            proof {
                assert(log_text@.take(13)[i as int] != prefix@[i as int]);
            }
            return None;
        }
        i += 1;
    }
    proof {
        assert(log_text@.take(13) =~= prefix@);
    }
    let body = log_text.substring_char(prefix_len, len);
    proof {
        assert(body@ =~= log_text@.skip(13));
    }
    base64_decode(body)
}

} // verus!

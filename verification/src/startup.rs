//! Startup acquisition policy: which enumerated input devices qualify as
//! physical keyboards, and the retry loop that waits — with throttled
//! logging — until at least one keyboard and the virtual output device are
//! ready, or shutdown is requested.

use vstd::prelude::*;
use crate::keys::{
    KEY_A, KEY_B, KEY_C, KEY_D, KEY_E, KEY_F, KEY_G, KEY_H, KEY_I, KEY_J, KEY_K, KEY_L, KEY_M,
    KEY_N, KEY_O, KEY_P, KEY_Q, KEY_R, KEY_S, KEY_T, KEY_U, KEY_V, KEY_W, KEY_X, KEY_Y, KEY_Z,
};

verus! {

/// How long one retry waits, in milliseconds.
pub const STARTUP_RETRY_INTERVAL_MS: u64 = 500;

/// Acquisition errors are logged at most once per this many milliseconds.
pub const STARTUP_LOG_INTERVAL_MS: u64 = 10000;

/// The substring a keyboard device's advertised name must carry, as bytes:
/// `AT Translated`, the built-in keyboard's name, which mice, touchpads and
/// virtual devices do not share.
pub open spec fn keyboard_filter_spec() -> Seq<u8> {
    seq![65u8, 84u8, 32u8, 84u8, 114u8, 97u8, 110u8, 115u8, 108u8, 97u8, 116u8, 101u8, 100u8]
}

/// The keyboard-identifying name substring as a byte vector.
pub fn keyboard_filter() -> (v: Vec<u8>)
    ensures
        v@ == keyboard_filter_spec(),
{
    let v: Vec<u8> = vec![65u8, 84u8, 32u8, 84u8, 114u8, 97u8, 110u8, 115u8, 108u8, 97u8, 116u8, 101u8, 100u8];
    proof {
        assert(v@ =~= keyboard_filter_spec());
    }
    v
}

/// The needle occurs in the haystack starting at position `i`.
pub open spec fn matches_at(hay: Seq<u8>, needle: Seq<u8>, i: int) -> bool {
    &&& 0 <= i
    &&& i + needle.len() <= hay.len()
    &&& hay.subrange(i, i + needle.len()) == needle
}

/// The needle occurs somewhere in the haystack.
pub open spec fn contains_seq(hay: Seq<u8>, needle: Seq<u8>) -> bool {
    exists|i: int| matches_at(hay, needle, i)
}

/// Whether the needle occurs in the haystack starting at position `i`.
fn matches_prefix_at(hay: &[u8], needle: &[u8], i: usize) -> (r: bool)
    requires
        i + needle@.len() <= hay@.len(),
    ensures
        r == matches_at(hay@, needle@, i as int),
{
    let n = needle.len();
    let h = hay.len();
    let mut j: usize = 0;
    while j < n
        invariant
            n == needle@.len(),
            h == hay@.len(),
            i + n <= h,
            j <= n,
            forall|k: int| 0 <= k < j ==> hay@[i + k] == needle@[k],
        decreases n - j,
    {
        if hay[i + j] != needle[j] {
            proof {
                assert(hay@.subrange(i as int, i + n) != needle@) by {
                    assert(hay@.subrange(i as int, i + n)[j as int] == hay@[i + j]);
                }
            }
            return false;
        }
        j = j + 1;
    }
    proof {
        assert(hay@.subrange(i as int, i + n) =~= needle@);
    }
    true
}

/// Whether the needle occurs anywhere in the haystack.
pub fn contains_subslice(hay: &[u8], needle: &[u8]) -> (r: bool)
    ensures
        r == contains_seq(hay@, needle@),
{
    let n = needle.len();
    let h = hay.len();
    if n > h {
        proof {
            assert(forall|i: int| !matches_at(hay@, needle@, i));
        }
        return false;
    }
    if n == 0 {
        proof {
            assert(hay@.subrange(0, 0) =~= needle@);
            assert(matches_at(hay@, needle@, 0));
        }
        return true;
    }
    let last: usize = h - n;
    let mut i: usize = 0;
    while i <= last
        invariant
            n == needle@.len(),
            h == hay@.len(),
            0 < n <= h,
            last == h - n,
            i <= last + 1,
            forall|k: int| 0 <= k < i ==> !matches_at(hay@, needle@, k),
        decreases last - i + 1,
    {
        if matches_prefix_at(hay, needle, i) {
            proof {
                assert(matches_at(hay@, needle@, i as int));
            }
            return true;
        }
        i = i + 1;
    }
    proof {
        assert(forall|k: int| !matches_at(hay@, needle@, k));
    }
    false
}

/// Whether a key identifier occurs among a device's supported key codes.
pub fn supports_code(codes: &[u16], code: u16) -> (r: bool)
    ensures
        r == codes@.contains(code),
{
    let mut i: usize = 0;
    while i < codes.len()
        invariant
            i <= codes@.len(),
            forall|k: int| 0 <= k < i ==> codes@[k] != code,
        decreases codes@.len() - i,
    {
        if codes[i] == code {
            return true;
        }
        i = i + 1;
    }
    false
}

/// A device's supported key codes cover the full alphabetic key range: all
/// 26 letter keys, A through Z.
pub open spec fn spec_supports_alphabet(codes: Seq<u16>) -> bool {
    &&& codes.contains(KEY_A)
    &&& codes.contains(KEY_B)
    &&& codes.contains(KEY_C)
    &&& codes.contains(KEY_D)
    &&& codes.contains(KEY_E)
    &&& codes.contains(KEY_F)
    &&& codes.contains(KEY_G)
    &&& codes.contains(KEY_H)
    &&& codes.contains(KEY_I)
    &&& codes.contains(KEY_J)
    &&& codes.contains(KEY_K)
    &&& codes.contains(KEY_L)
    &&& codes.contains(KEY_M)
    &&& codes.contains(KEY_N)
    &&& codes.contains(KEY_O)
    &&& codes.contains(KEY_P)
    &&& codes.contains(KEY_Q)
    &&& codes.contains(KEY_R)
    &&& codes.contains(KEY_S)
    &&& codes.contains(KEY_T)
    &&& codes.contains(KEY_U)
    &&& codes.contains(KEY_V)
    &&& codes.contains(KEY_W)
    &&& codes.contains(KEY_X)
    &&& codes.contains(KEY_Y)
    &&& codes.contains(KEY_Z)
}

/// Whether a device's supported key codes cover the full alphabetic key
/// range, A through Z.
pub fn supports_alphabet(codes: &[u16]) -> (r: bool)
    ensures
        r == spec_supports_alphabet(codes@),
{
    supports_code(codes, KEY_A) && supports_code(codes, KEY_B) && supports_code(codes, KEY_C)
        && supports_code(codes, KEY_D) && supports_code(codes, KEY_E)
        && supports_code(codes, KEY_F) && supports_code(codes, KEY_G)
        && supports_code(codes, KEY_H) && supports_code(codes, KEY_I)
        && supports_code(codes, KEY_J) && supports_code(codes, KEY_K)
        && supports_code(codes, KEY_L) && supports_code(codes, KEY_M)
        && supports_code(codes, KEY_N) && supports_code(codes, KEY_O)
        && supports_code(codes, KEY_P) && supports_code(codes, KEY_Q)
        && supports_code(codes, KEY_R) && supports_code(codes, KEY_S)
        && supports_code(codes, KEY_T) && supports_code(codes, KEY_U)
        && supports_code(codes, KEY_V) && supports_code(codes, KEY_W)
        && supports_code(codes, KEY_X) && supports_code(codes, KEY_Y)
        && supports_code(codes, KEY_Z)
}

/// A device qualifies as a physical keyboard: it supports the full
/// alphabetic key range (A through Z) and its advertised name carries the
/// keyboard-identifying substring.
pub open spec fn spec_qualifies(codes: Seq<u16>, name: Seq<u8>) -> bool {
    &&& spec_supports_alphabet(codes)
    &&& contains_seq(name, keyboard_filter_spec())
}

/// Decides whether an enumerated device takes part in the session, from its
/// supported key codes and its advertised name.
pub fn device_qualifies(codes: &[u16], name: &[u8]) -> (r: bool)
    ensures
        r == spec_qualifies(codes@, name@),
{
    if !supports_alphabet(codes) {
        return false;
    }
    let filter = keyboard_filter();
    contains_subslice(name, filter.as_slice())
}

/// What one acquisition attempt does next.
#[derive(Clone, Copy, PartialEq, Eq, Structural, Debug)]
pub enum StartupDecision {
    /// Shutdown was requested while waiting: return at once with no devices
    /// grabbed and no output device created.
    AbortShutdown,
    /// At least one keyboard qualifies and the output device is ready:
    /// start the pipeline.
    Proceed,
    /// Not ready yet: sleep one retry interval and try again, logging only
    /// if the throttle interval has elapsed.
    Retry { log: bool },
}

/// Whether a retry logs: a first failure is always reported; after that,
/// only once the throttle interval has elapsed since the last report.
pub open spec fn spec_retry_logs(millis_since_last_log: Option<u64>) -> bool {
    match millis_since_last_log {
        None => true,
        Some(ms) => ms >= STARTUP_LOG_INTERVAL_MS,
    }
}

/// The acquisition loop's decision: shutdown wins over everything; with a
/// qualifying keyboard and a ready output device the daemon proceeds; any
/// other state retries on the fixed interval, never fatally, and logs at
/// most once per throttle interval.  `millis_since_last_log` is `None`
/// while nothing has been logged yet.
pub fn startup_step(
    shutdown: bool,
    qualifying_devices: usize,
    output_ready: bool,
    millis_since_last_log: Option<u64>,
) -> (d: StartupDecision)
    ensures
        shutdown ==> d == StartupDecision::AbortShutdown,
        !shutdown && qualifying_devices > 0 && output_ready ==> d == StartupDecision::Proceed,
        !shutdown && (qualifying_devices == 0 || !output_ready) ==> (d
            == StartupDecision::Retry { log: spec_retry_logs(millis_since_last_log) }),
{
    if shutdown {
        StartupDecision::AbortShutdown
    } else if qualifying_devices > 0 && output_ready {
        StartupDecision::Proceed
    } else {
        let log = match millis_since_last_log {
            None => true,
            Some(ms) => ms >= STARTUP_LOG_INTERVAL_MS,
        };
        StartupDecision::Retry { log }
    }
}

} // verus!

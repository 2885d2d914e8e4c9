//! Command-line value validation: decimal parsing of the monitor index and
//! the target frame rate, and construction of the immutable settings that
//! the presenter and the pacer consume. Validation happens before any
//! window or capture resource is acquired.

use vstd::prelude::*;
use crate::errors::StartupConfigError;

verus! {

/// True when `b` is an ASCII decimal digit.
pub open spec fn is_digit(b: u8) -> bool {
    0x30 <= b <= 0x39
}

/// True when every byte of `s` is an ASCII decimal digit.
pub open spec fn all_digits(s: Seq<u8>) -> bool {
    forall|i: int| 0 <= i < s.len() ==> is_digit(#[trigger] s[i])
}

/// The number denoted by a sequence of ASCII digits, most significant first.
pub open spec fn digits_value(s: Seq<u8>) -> int
    decreases s.len(),
{
    if s.len() == 0 {
        0
    } else {
        digits_value(s.drop_last()) * 10 + (s.last() - 0x30)
    }
}

/// True when `s` is a non-empty run of digits whose value fits in a `u64`.
pub open spec fn parses_as_u64(s: Seq<u8>) -> bool {
    s.len() > 0 && all_digits(s) && digits_value(s) <= u64::MAX
}

/// True when `s` denotes a positive frame rate that fits in a `u32`.
pub open spec fn parses_as_positive_fps(s: Seq<u8>) -> bool {
    s.len() > 0 && all_digits(s) && 1 <= digits_value(s) <= u32::MAX
}

pub proof fn lemma_digits_value_nonneg(s: Seq<u8>)
    requires
        all_digits(s),
    ensures
        digits_value(s) >= 0,
    decreases s.len(),
{
    if s.len() > 0 {
        assert(all_digits(s.drop_last()));
        lemma_digits_value_nonneg(s.drop_last());
    }
}

/// Extending a digit run on the right never decreases its value.
pub proof fn lemma_digits_value_prefix_le(s: Seq<u8>, k: int)
    requires
        0 <= k <= s.len(),
        all_digits(s),
    ensures
        digits_value(s.subrange(0, k)) <= digits_value(s),
    decreases s.len() - k,
{
    if k == s.len() {
        assert(s.subrange(0, k) =~= s);
    } else {
        let p = s.subrange(0, k);
        let q = s.subrange(0, k + 1);
        assert(q.drop_last() =~= p);
        assert(q.last() == s[k]);
        assert(all_digits(p));
        lemma_digits_value_nonneg(p);
        assert(digits_value(q) == digits_value(p) * 10 + (s[k] - 0x30));
        assert(digits_value(p) <= digits_value(q));
        lemma_digits_value_prefix_le(s, k + 1);
    }
}

/// Parse a non-empty run of ASCII decimal digits as a `u64`.
///
/// Returns the denoted value exactly when the input is a non-empty digit
/// run whose value fits; returns `None` on an empty input, a non-digit
/// byte, or overflow.
pub fn parse_u64(s: &Vec<u8>) -> (r: Option<u64>)
    ensures
        r is Some <==> parses_as_u64(s@),
        r matches Some(v) ==> v == digits_value(s@),
{
    if s.len() == 0 {
        return None;
    }
    let mut acc: u64 = 0;
    let mut i: usize = 0;
    while i < s.len()
        invariant
            0 <= i <= s@.len(),
            s@.len() > 0,
            all_digits(s@.subrange(0, i as int)),
            acc == digits_value(s@.subrange(0, i as int)),
        decreases s@.len() - i,
    {
        let b = s[i];
        if b < 0x30 || b > 0x39 {
            assert(!is_digit(s@[i as int]));
            assert(!all_digits(s@));
            return None;
        }
        let d = (b - 0x30) as u64;
        let ghost p = s@.subrange(0, i as int);
        let ghost q = s@.subrange(0, i as int + 1);
        proof {
            assert(q.drop_last() =~= p);
            assert(q.last() == s@[i as int]);
            assert(digits_value(q) == digits_value(p) * 10 + (s@[i as int] - 0x30));
            assert(all_digits(q));
        }
        if acc > (u64::MAX - d) / 10 {
            proof {
                lemma_digits_value_nonneg(p);
                assert(acc * 10 + d > u64::MAX) by (nonlinear_arith)
                    requires
                        acc > (u64::MAX - d) / 10,
                        0 <= d <= 9,
                        acc >= 0,
                {};
                if all_digits(s@) {
                    lemma_digits_value_prefix_le(s@, i as int + 1);
                    assert(digits_value(s@) > u64::MAX);
                }
            }
            return None;
        }
        proof {
            assert(acc * 10 + d <= u64::MAX) by (nonlinear_arith)
                requires
                    acc <= (u64::MAX - d) / 10,
                    0 <= d <= 9,
                    acc >= 0,
            {};
        }
        acc = acc * 10 + d;
        i = i + 1;
    }
    proof {
        assert(s@.subrange(0, i as int) =~= s@);
    }
    Some(acc)
}

/// Parse a non-empty run of ASCII decimal digits as a `u32`.
pub fn parse_u32(s: &Vec<u8>) -> (r: Option<u32>)
    ensures
        r is Some <==> s@.len() > 0 && all_digits(s@) && digits_value(s@) <= u32::MAX,
        r matches Some(v) ==> v == digits_value(s@),
{
    match parse_u64(s) {
        None => None,
        Some(v) => {
            if v <= u32::MAX as u64 {
                Some(v as u32)
            } else {
                None
            }
        },
    }
}

/// Immutable run configuration, fixed before any resource is acquired.
#[derive(Debug)]
pub struct Settings {
    /// Title of the mirror window.
    pub window_title: String,
    /// Target frame rate; always positive.
    pub target_fps: u32,
    /// Whether the window is placed outside the visible desktop area.
    pub offscreen: bool,
}

impl Settings {
    /// Settings are well formed when the target frame rate is positive.
    pub open spec fn wf(&self) -> bool {
        self.target_fps >= 1
    }
}

/// A validated configuration: the monitor to mirror and the settings.
#[derive(Debug)]
pub struct Config {
    /// Index of the monitor whose framebuffer is mirrored.
    pub monitor_id: u64,
    /// Presentation and pacing settings.
    pub settings: Settings,
}

/// Validate the raw command-line values and build the run configuration.
///
/// `monitor_arg` and `fps_arg` are the argument bytes as given on the
/// command line; `onscreen` is the flag that disables off-screen placement.
/// Succeeds exactly when the monitor index is a non-negative integer and
/// the frame rate a positive integer; each error names the value rejected,
/// the monitor index being checked first.
pub fn build_config(
    monitor_arg: &Vec<u8>,
    fps_arg: &Vec<u8>,
    onscreen: bool,
    window_title: String,
) -> (r: Result<Config, StartupConfigError>)
    ensures
        r is Ok <==> parses_as_u64(monitor_arg@) && parses_as_positive_fps(fps_arg@),
        r == Err::<Config, StartupConfigError>(StartupConfigError::InvalidMonitorId)
            <==> !parses_as_u64(monitor_arg@),
        r == Err::<Config, StartupConfigError>(StartupConfigError::InvalidFps)
            <==> parses_as_u64(monitor_arg@) && !parses_as_positive_fps(fps_arg@),
        r matches Ok(c) ==> {
            &&& c.settings.wf()
            &&& c.monitor_id == digits_value(monitor_arg@)
            &&& c.settings.target_fps == digits_value(fps_arg@)
            &&& c.settings.offscreen == !onscreen
            &&& c.settings.window_title@ == window_title@
        },
{
    let monitor_id = match parse_u64(monitor_arg) {
        Some(v) => v,
        None => {
            return Err(StartupConfigError::InvalidMonitorId);
        },
    };
    let target_fps = match parse_u32(fps_arg) {
        Some(v) => v,
        None => {
            return Err(StartupConfigError::InvalidFps);
        },
    };
    if target_fps == 0 {
        proof {
            lemma_digits_value_nonneg(fps_arg@);
        }
        return Err(StartupConfigError::InvalidFps);
    }
    Ok(Config {
        monitor_id,
        settings: Settings { window_title, target_fps, offscreen: !onscreen },
    })
}

} // verus!

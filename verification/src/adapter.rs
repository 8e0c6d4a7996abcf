//! The computations of the platform indicator adapters. The OS calls
//! themselves (keyboard state queries, toggling helpers, reading LED
//! sysfs files) live in the unverified shell; these functions make the
//! adapters' decisions on the plain values the shell hands in.

use vstd::prelude::*;

verus! {

/// Why the startup dependency check fails.
#[derive(Clone, Copy, PartialEq, Eq, Structural, Debug)]
pub enum DependencyError {
    /// The helper program that toggles the indicator is not installed.
    MissingToggleTool,
}

impl DependencyError {
    /// A human-readable account of the failure, for the fatal startup
    /// log line.
    pub fn message(&self) -> (r: String)
        ensures
            r@ == "xdotool is required. Install with: sudo pacman -S xdotool"@,
            r@.len() > 0,
    {
        proof {
            reveal_strlit("xdotool is required. Install with: sudo pacman -S xdotool");
        }
        String::from_str("xdotool is required. Install with: sudo pacman -S xdotool")
    }
}

/// The startup environment check: the toggling helper must be present,
/// or the process has no way to write the indicator and must not start.
/// The shell probes for the helper and passes what it found.
pub fn check_dependencies(toggle_tool_present: bool) -> (r: Result<(), DependencyError>)
    ensures
        r is Ok <==> toggle_tool_present,
        !toggle_tool_present ==> r == Result::<(), DependencyError>::Err(
            DependencyError::MissingToggleTool,
        ),
{
    if toggle_tool_present {
        Ok(())
    } else {
        Err(DependencyError::MissingToggleTool)
    }
}

/// The adapter write's no-op check: a toggle is issued exactly when the
/// freshly read indicator differs from the desired value, so a write
/// that merely confirms the current state causes no visible flicker.
pub fn toggle_needed(current: bool, desired: bool) -> (r: bool)
    ensures
        r == (current != desired),
{
    current != desired
}

/// ASCII whitespace, as found around the digit in an LED brightness
/// sysfs file (the digit usually arrives with a trailing newline).
pub open spec fn is_ascii_whitespace(b: u8) -> bool {
    b == 32 || b == 9 || b == 10 || b == 13 || b == 11 || b == 12
}

/// `s` with its leading ASCII whitespace removed.
pub open spec fn trim_front(s: Seq<u8>) -> Seq<u8>
    decreases s.len(),
{
    if s.len() > 0 && is_ascii_whitespace(s[0]) {
        trim_front(s.drop_first())
    } else {
        s
    }
}

/// `s` with its trailing ASCII whitespace removed.
pub open spec fn trim_back(s: Seq<u8>) -> Seq<u8>
    decreases s.len(),
{
    if s.len() > 0 && is_ascii_whitespace(s[s.len() - 1]) {
        trim_back(s.drop_last())
    } else {
        s
    }
}

/// `s` with ASCII whitespace removed from both ends.
pub open spec fn spec_trim(s: Seq<u8>) -> Seq<u8> {
    trim_back(trim_front(s))
}

/// What an LED brightness file says: the indicator is on exactly when
/// the file's content, trimmed, is the single digit `1`.
pub open spec fn spec_led_on(s: Seq<u8>) -> bool {
    spec_trim(s) == seq![49u8]
}

/// Whether `b` is ASCII whitespace.
fn is_whitespace_byte(b: u8) -> (r: bool)
    ensures
        r == is_ascii_whitespace(b),
{
    b == 32 || b == 9 || b == 10 || b == 13 || b == 11 || b == 12
}

/// Reads an LED brightness file's bytes as an indicator state: on
/// exactly when the content, with surrounding whitespace ignored, is
/// the digit `1`.
pub fn parse_led_brightness(s: &[u8]) -> (r: bool)
    ensures
        r == spec_led_on(s@),
{
    let n: usize = s.len();
    let mut lo: usize = 0;
    proof {
        assert(s@.subrange(0, n as int) =~= s@);
    }
    while lo < n && is_whitespace_byte(s[lo])
        invariant
            lo <= n,
            n == s@.len(),
            trim_front(s@) == trim_front(s@.subrange(lo as int, n as int)),
        decreases n - lo,
    {
        proof {
            assert(s@.subrange(lo as int, n as int).drop_first() =~= s@.subrange(
                lo as int + 1,
                n as int,
            ));
        }
        lo = lo + 1;
    }
    proof {
        if lo == n {
            assert(s@.subrange(lo as int, n as int) =~= Seq::<u8>::empty());
        }
        assert(trim_front(s@) == s@.subrange(lo as int, n as int));
    }
    let mut hi: usize = n;
    while hi > lo && is_whitespace_byte(s[hi - 1])
        invariant
            lo <= hi <= n,
            n == s@.len(),
            trim_front(s@) == s@.subrange(lo as int, n as int),
            trim_back(s@.subrange(lo as int, n as int)) == trim_back(
                s@.subrange(lo as int, hi as int),
            ),
        decreases hi,
    {
        proof {
            assert(s@.subrange(lo as int, hi as int).drop_last() =~= s@.subrange(
                lo as int,
                hi as int - 1,
            ));
        }
        hi = hi - 1;
    }
    proof {
        if hi == lo {
            assert(s@.subrange(lo as int, hi as int) =~= Seq::<u8>::empty());
        }
        assert(spec_trim(s@) == s@.subrange(lo as int, hi as int));
    }
    if hi - lo == 1 && s[lo] == 49 {
        proof {
            assert(s@.subrange(lo as int, hi as int) =~= seq![49u8]);
        }
        true
    } else {
        proof {
            if s@.subrange(lo as int, hi as int) == seq![49u8] {
                assert(s@.subrange(lo as int, hi as int).len() == 1);
                assert(s@.subrange(lo as int, hi as int)[0] == 49u8);
            }
        }
        false
    }
}

} // verus!

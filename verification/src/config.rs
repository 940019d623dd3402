//! Appearance and feature settings, and log-level parsing.
//!
//! These are the plain setting groups the selection tool runs with.
//! Reading them from disk and merging them with command-line flags is the
//! launcher's business; the library only defines the groups, their
//! defaults, and the log-level keyword parser.

use vstd::prelude::*;
use vstd::string::*;

verus! {

/// Text/font configuration.
#[derive(Debug, Clone)]
pub struct FontConfig {
    /// Font family.
    pub family: String,
    /// Font size.
    pub size: u32,
    /// Font weight (Normal, Bold).
    pub weight: String,
}

impl Default for FontConfig {
    fn default() -> (c: FontConfig)
        ensures
            c.family@ == "Inter Nerd Font"@,
            c.size == 16,
            c.weight@ == "Bold"@,
    {
        FontConfig { family: String::from_str("Inter Nerd Font"), size: 16, weight: String::from_str("Bold") }
    }
}

/// Border configuration.
#[derive(Debug, Clone)]
pub struct BorderConfig {
    /// Border color in hex.
    pub color: String,
    /// Border thickness in pixels.
    pub thickness: u32,
    /// Border rounding in pixels.
    pub rounding: u32,
}

impl Default for BorderConfig {
    fn default() -> (c: BorderConfig)
        ensures
            c.color@ == "#FFFFFF"@,
            c.thickness == 2,
            c.rounding == 0,
    {
        BorderConfig { color: String::from_str("#FFFFFF"), thickness: 2, rounding: 0 }
    }
}

/// Feature flags.
#[derive(Debug, Clone)]
pub struct FeatureConfig {
    /// Disable window snapping.
    pub no_snap: bool,
}

impl Default for FeatureConfig {
    fn default() -> (c: FeatureConfig)
        ensures
            c.no_snap == false,
    {
        FeatureConfig { no_snap: false }
    }
}

/// How much the logging backend should record.
#[derive(Debug, Clone, Copy, PartialEq, Eq, Structural)]
pub enum LogLevel {
    Off,
    Info,
    Error,
    Warn,
    Debug,
}

/// Two characters match ignoring ASCII case.
pub open spec fn spec_char_eq_ci(a: char, b: char) -> bool {
    ||| a == b
    ||| ('A' <= a && a <= 'Z' && (a as u32) + 32 == b as u32)
    ||| ('A' <= b && b <= 'Z' && (b as u32) + 32 == a as u32)
}

/// Two character sequences match ignoring ASCII case.
pub open spec fn spec_eq_ignore_case(s: Seq<char>, t: Seq<char>) -> bool {
    s.len() == t.len() && forall|i: int| 0 <= i < s.len() ==> spec_char_eq_ci(s[i], t[i])
}

/// The level a log-level string names, compared ignoring ASCII case;
/// anything unrecognized turns logging off.
pub open spec fn spec_parse_log_level(s: Seq<char>) -> LogLevel {
    if spec_eq_ignore_case(s, "off"@) {
        LogLevel::Off
    } else if spec_eq_ignore_case(s, "info"@) {
        LogLevel::Info
    } else if spec_eq_ignore_case(s, "error"@) {
        LogLevel::Error
    } else if spec_eq_ignore_case(s, "warn"@) {
        LogLevel::Warn
    } else if spec_eq_ignore_case(s, "debug"@) {
        LogLevel::Debug
    } else {
        LogLevel::Off
    }
}

/// Character-wise comparison of two strings, ignoring ASCII case.
fn eq_ignore_case(s: &str, t: &str) -> (r: bool)
    ensures
        r == spec_eq_ignore_case(s@, t@),
{
    let n = s.unicode_len();
    let m = t.unicode_len();
    if n != m {
        return false;
    }
    let mut i: usize = 0;
    while i < n
        invariant
            i <= n,
            n == s@.len(),
            n == t@.len(),
            forall|j: int| 0 <= j < i ==> spec_char_eq_ci(s@[j], t@[j]),
        decreases n - i,
    {
        let a = s.get_char(i);
        let b = t.get_char(i);
        let au = a as u32;
        let bu = b as u32;
        let matches_ci = au == bu || (65 <= au && au <= 90 && au + 32 == bu) || (65 <= bu && bu
            <= 90 && bu + 32 == au);
        proof {
            assert('A' as u32 == 65 && 'Z' as u32 == 90);
            assert(a == b <==> au == bu);
            assert(('A' <= a && a <= 'Z') <==> (65 <= au && au <= 90));
            assert(('A' <= b && b <= 'Z') <==> (65 <= bu && bu <= 90));
        }
        if !matches_ci {
            proof {
                assert(!spec_char_eq_ci(s@[i as int], t@[i as int]));
            }
            return false;
        }
        i = i + 1;
    }
    true
}

/// Parses a log level string into the corresponding filter level.
pub fn parse_log_level(level: &str) -> (r: LogLevel)
    ensures
        r == spec_parse_log_level(level@),
{
    if eq_ignore_case(level, "off") {
        LogLevel::Off
    } else if eq_ignore_case(level, "info") {
        LogLevel::Info
    } else if eq_ignore_case(level, "error") {
        LogLevel::Error
    } else if eq_ignore_case(level, "warn") {
        LogLevel::Warn
    } else if eq_ignore_case(level, "debug") {
        LogLevel::Debug
    } else {
        LogLevel::Off
    }
}

} // verus!

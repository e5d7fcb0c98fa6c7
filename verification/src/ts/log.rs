//! Severity levels of log entries.

use std::cmp::Ordering;
use vstd::prelude::*;
use vstd::std_specs::cmp::PartialOrdSpecImpl;
use vstd::std_specs::convert::{FromSpecImpl, TryFromSpecImpl};

verus! {

/// Severity of a log entry, from the most verbose to the most serious:
/// `TRACE < DEBUG < INFO < WARN < ERROR`.
#[derive(Debug, Clone, Copy, PartialEq, Eq, Hash, Structural, Ord)]
pub enum LogEntryLevel {
    TRACE,
    DEBUG,
    INFO,
    WARN,
    ERROR,
}

/// The lower-case form of an ASCII letter; every other character is itself.
pub open spec fn ascii_lower(c: char) -> char {
    if 'A' <= c && c <= 'Z' {
        ((c as u8) + 32) as char
    } else {
        c
    }
}

/// Equality of two texts up to the case of their ASCII letters.
pub open spec fn eq_ignore_ascii_case(a: Seq<char>, b: Seq<char>) -> bool {
    &&& a.len() == b.len()
    &&& forall|i: int| 0 <= i < a.len() ==> ascii_lower(#[trigger] a[i]) == ascii_lower(b[i])
}

/// The decimal digits of a text that may start with one `+`.
pub open spec fn unsigned_digits(s: Seq<char>) -> Seq<char> {
    if s.len() > 0 && s[0] == '+' {
        s.subrange(1, s.len() as int)
    } else {
        s
    }
}

/// Whether a text is a decimal number between one and five: an optional `+`,
/// any number of zeros, and one last digit from `1` to `5`.
pub open spec fn is_level_number(s: Seq<char>) -> bool {
    let digits = unsigned_digits(s);
    &&& digits.len() > 0
    &&& forall|i: int| 0 <= i < digits.len() - 1 ==> #[trigger] digits[i] == '0'
    &&& '1' <= digits.last() && digits.last() <= '5'
}

/// The level that a text names, by number (`1` is `ERROR`, `5` is `TRACE`) or by
/// name in any case; `None` for every other text.
pub open spec fn parse_level(s: Seq<char>) -> Option<LogEntryLevel> {
    if is_level_number(s) {
        let d = unsigned_digits(s).last();
        if d == '1' {
            Some(LogEntryLevel::ERROR)
        } else if d == '2' {
            Some(LogEntryLevel::WARN)
        } else if d == '3' {
            Some(LogEntryLevel::INFO)
        } else if d == '4' {
            Some(LogEntryLevel::DEBUG)
        } else {
            Some(LogEntryLevel::TRACE)
        }
    } else if eq_ignore_ascii_case(s, "error"@) {
        Some(LogEntryLevel::ERROR)
    } else if eq_ignore_ascii_case(s, "warn"@) {
        Some(LogEntryLevel::WARN)
    } else if eq_ignore_ascii_case(s, "info"@) {
        Some(LogEntryLevel::INFO)
    } else if eq_ignore_ascii_case(s, "debug"@) {
        Some(LogEntryLevel::DEBUG)
    } else if eq_ignore_ascii_case(s, "trace"@) {
        Some(LogEntryLevel::TRACE)
    } else {
        None
    }
}

/// Parses a level with `tracing::Level`'s `FromStr`. That implementation first
/// reads the text as a `usize` and accepts the numbers 1 to 5, then compares it
/// with the five level names, ignoring ASCII case; the contract states exactly
/// that, and nothing here proves it.
#[verifier::external_body]
fn parse_tracing_level(value: &str) -> (r: Option<LogEntryLevel>)
    ensures
        r == parse_level(value@),
{
    match value.parse::<tracing::Level>() {
        Ok(tracing::Level::TRACE) => Some(LogEntryLevel::TRACE),
        Ok(tracing::Level::DEBUG) => Some(LogEntryLevel::DEBUG),
        Ok(tracing::Level::INFO) => Some(LogEntryLevel::INFO),
        Ok(tracing::Level::WARN) => Some(LogEntryLevel::WARN),
        Ok(tracing::Level::ERROR) => Some(LogEntryLevel::ERROR),
        Err(_) => None,
    }
}

impl LogEntryLevel {
    /// Position of the level in the order of severity, `TRACE` being 0.
    pub open spec fn rank(self) -> int {
        match self {
            LogEntryLevel::TRACE => 0,
            LogEntryLevel::DEBUG => 1,
            LogEntryLevel::INFO => 2,
            LogEntryLevel::WARN => 3,
            LogEntryLevel::ERROR => 4,
        }
    }

    /// The level at a position of the order of severity.
    pub open spec fn of_rank(rank: int) -> Option<LogEntryLevel> {
        if rank == 0 {
            Some(LogEntryLevel::TRACE)
        } else if rank == 1 {
            Some(LogEntryLevel::DEBUG)
        } else if rank == 2 {
            Some(LogEntryLevel::INFO)
        } else if rank == 3 {
            Some(LogEntryLevel::WARN)
        } else if rank == 4 {
            Some(LogEntryLevel::ERROR)
        } else {
            None
        }
    }

    /// The name of the level as messages carry it.
    pub open spec fn name(self) -> Seq<char> {
        match self {
            LogEntryLevel::TRACE => "TRACE"@,
            LogEntryLevel::DEBUG => "DEBUG"@,
            LogEntryLevel::INFO => "INFO"@,
            LogEntryLevel::WARN => "WARN"@,
            LogEntryLevel::ERROR => "ERROR"@,
        }
    }

    /// The level of a name as messages carry it.
    pub open spec fn of_name(name: Seq<char>) -> Option<LogEntryLevel> {
        if name == "TRACE"@ {
            Some(LogEntryLevel::TRACE)
        } else if name == "DEBUG"@ {
            Some(LogEntryLevel::DEBUG)
        } else if name == "INFO"@ {
            Some(LogEntryLevel::INFO)
        } else if name == "WARN"@ {
            Some(LogEntryLevel::WARN)
        } else if name == "ERROR"@ {
            Some(LogEntryLevel::ERROR)
        } else {
            None
        }
    }

    /// Every level is found again from its name.
    pub proof fn lemma_name_round_trip(level: LogEntryLevel)
        ensures
            LogEntryLevel::of_name(level.name()) == Some(level),
    {
        reveal_strlit("TRACE");
        reveal_strlit("DEBUG");
        reveal_strlit("INFO");
        reveal_strlit("WARN");
        reveal_strlit("ERROR");
        assert("TRACE"@[0] == 'T');
        assert("DEBUG"@[0] == 'D');
        assert("INFO"@[0] == 'I');
        assert("WARN"@[0] == 'W');
        assert("ERROR"@[0] == 'E');
    }

    /// The name of the level as messages carry it.
    pub fn as_str(&self) -> (r: &'static str)
        ensures
            r@ == self.name(),
    {
        match self {
            LogEntryLevel::TRACE => "TRACE",
            LogEntryLevel::DEBUG => "DEBUG",
            LogEntryLevel::INFO => "INFO",
            LogEntryLevel::WARN => "WARN",
            LogEntryLevel::ERROR => "ERROR",
        }
    }

    /// The level of a name as messages carry it.
    pub fn from_name(name: &str) -> (r: Option<LogEntryLevel>)
        ensures
            r == LogEntryLevel::of_name(name@),
    {
        if crate::text::str_eq(name, "TRACE") {
            Some(LogEntryLevel::TRACE)
        } else if crate::text::str_eq(name, "DEBUG") {
            Some(LogEntryLevel::DEBUG)
        } else if crate::text::str_eq(name, "INFO") {
            Some(LogEntryLevel::INFO)
        } else if crate::text::str_eq(name, "WARN") {
            Some(LogEntryLevel::WARN)
        } else if crate::text::str_eq(name, "ERROR") {
            Some(LogEntryLevel::ERROR)
        } else {
            None
        }
    }

    /// The text of the error for a number that names no level.
    pub open spec fn invalid_message(value: u8) -> Seq<char> {
        "Invalid LogEntryLevel: "@ + crate::text::decimal(value as nat)
    }

    /// Position of the level in the order of severity.
    pub fn severity(self) -> (r: u8)
        ensures
            r == self.rank(),
    {
        match self {
            LogEntryLevel::TRACE => 0,
            LogEntryLevel::DEBUG => 1,
            LogEntryLevel::INFO => 2,
            LogEntryLevel::WARN => 3,
            LogEntryLevel::ERROR => 4,
        }
    }

    /// Whether an entry of this level passes a filter that asks for `minimum`
    /// or anything more serious.
    pub fn at_least(self, minimum: LogEntryLevel) -> (r: bool)
        ensures
            r == (self.rank() >= minimum.rank()),
    {
        self.severity() >= minimum.severity()
    }
}

impl Default for LogEntryLevel {
    fn default() -> (r: Self)
        ensures
            r == LogEntryLevel::INFO,
    {
        LogEntryLevel::INFO
    }
}

impl From<LogEntryLevel> for u8 {
    fn from(level: LogEntryLevel) -> (r: u8) {
        level.severity()
    }
}

impl FromSpecImpl<LogEntryLevel> for u8 {
    open spec fn obeys_from_spec() -> bool {
        true
    }

    open spec fn from_spec(level: LogEntryLevel) -> u8 {
        level.rank() as u8
    }
}

impl TryFrom<u8> for LogEntryLevel {
    type Error = String;

    fn try_from(value: u8) -> (r: Result<Self, String>)
        ensures
            match r {
                Ok(level) => LogEntryLevel::of_rank(value as int) == Some(level),
                Err(message) => LogEntryLevel::of_rank(value as int) is None && message@
                    == LogEntryLevel::invalid_message(value),
            },
    {
        match value {
            0 => Ok(LogEntryLevel::TRACE),
            1 => Ok(LogEntryLevel::DEBUG),
            2 => Ok(LogEntryLevel::INFO),
            3 => Ok(LogEntryLevel::WARN),
            4 => Ok(LogEntryLevel::ERROR),
            _ => {
                let mut message = String::from_str("Invalid LogEntryLevel: ");
                crate::text::push_decimal(&mut message, value as u64);
                Err(message)
            },
        }
    }
}

impl TryFromSpecImpl<u8> for LogEntryLevel {
    open spec fn obeys_try_from_spec() -> bool {
        false
    }

    open spec fn try_from_spec(value: u8) -> Result<Self, String> {
        arbitrary()
    }
}

impl From<&str> for LogEntryLevel {
    fn from(value: &str) -> (r: Self) {
        match parse_tracing_level(value) {
            Some(level) => level,
            None => LogEntryLevel::INFO,
        }
    }
}

impl FromSpecImpl<&str> for LogEntryLevel {
    open spec fn obeys_from_spec() -> bool {
        true
    }

    open spec fn from_spec(value: &str) -> Self {
        match parse_level(value@) {
            Some(level) => level,
            None => LogEntryLevel::INFO,
        }
    }
}

impl PartialOrd for LogEntryLevel {
    fn partial_cmp(&self, other: &Self) -> (r: Option<Ordering>) {
        let a = self.severity();
        let b = other.severity();
        if a < b {
            Some(Ordering::Less)
        } else if a == b {
            Some(Ordering::Equal)
        } else {
            Some(Ordering::Greater)
        }
    }
}

impl PartialOrdSpecImpl for LogEntryLevel {
    open spec fn obeys_partial_cmp_spec() -> bool {
        true
    }

    open spec fn partial_cmp_spec(&self, other: &Self) -> Option<Ordering> {
        if self.rank() < other.rank() {
            Some(Ordering::Less)
        } else if self.rank() == other.rank() {
            Some(Ordering::Equal)
        } else {
            Some(Ordering::Greater)
        }
    }
}

} // verus!

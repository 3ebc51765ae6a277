//! Value formatting shared by the collectors: byte counts and dates.

use vstd::prelude::*;
use vstd::string::StringExecFns;
use crate::clock::{format_local, format_utc, spec_utc_text};
use crate::json::JsonValue;
use crate::stats_collector::{DateFormat, StatsConfig};

verus! {

/// A byte count as a document value: either the plain number of bytes or,
/// when asked for, a human-readable text in whole mebibytes.
#[derive(Debug, PartialEq, Eq)]
pub enum MemorySize {
    Bytes(u64),
    HumanReadable(String),
}

/// A point in time as a document value, in the shape the request asked for.
#[derive(Debug, PartialEq, Eq)]
pub enum Date {
    Epoch(u64),
    Local(String),
    Utc(String),
}

/// The character for the decimal digit `d`.
pub open spec fn spec_digit_char(d: nat) -> char {
    if d == 0 {
        '0'
    } else if d == 1 {
        '1'
    } else if d == 2 {
        '2'
    } else if d == 3 {
        '3'
    } else if d == 4 {
        '4'
    } else if d == 5 {
        '5'
    } else if d == 6 {
        '6'
    } else if d == 7 {
        '7'
    } else if d == 8 {
        '8'
    } else {
        '9'
    }
}

/// The decimal digits of `n`, most significant first, with no leading zero
/// except for `n == 0` itself.
pub open spec fn spec_dec_digits(n: nat) -> Seq<char>
    decreases n,
{
    if n < 10 {
        seq![spec_digit_char(n)]
    } else {
        spec_dec_digits(n / 10) + seq![spec_digit_char(n % 10)]
    }
}

fn digit_str(d: u64) -> (r: &'static str)
    requires
        d < 10,
    ensures
        r@ == seq![spec_digit_char(d as nat)],
{
    let r: &'static str = match d {
        0 => "0",
        1 => "1",
        2 => "2",
        3 => "3",
        4 => "4",
        5 => "5",
        6 => "6",
        7 => "7",
        8 => "8",
        _ => "9",
    };
    proof {
        reveal_strlit("0");
        reveal_strlit("1");
        reveal_strlit("2");
        reveal_strlit("3");
        reveal_strlit("4");
        reveal_strlit("5");
        reveal_strlit("6");
        reveal_strlit("7");
        reveal_strlit("8");
        reveal_strlit("9");
        assert(r@ =~= seq![spec_digit_char(d as nat)]);
    }
    r
}

/// Writes `n` in decimal.
pub fn u64_to_string(n: u64) -> (r: String)
    ensures
        r@ == spec_dec_digits(n as nat),
    decreases n,
{
    if n < 10 {
        digit_str(n).to_owned()
    } else {
        let mut s = u64_to_string(n / 10);
        s.append(digit_str(n % 10));
        s
    }
}

/// What `to_memorysize` owes: the plain byte count, or the count in whole
/// mebibytes (integer division by 1048576) written in decimal with `MiB`
/// appended.
pub open spec fn spec_memory_size(human_readable: bool, size: u64, m: MemorySize) -> bool {
    if human_readable {
        m matches MemorySize::HumanReadable(s) && s@ == spec_dec_digits(
            (size / 1048576) as nat,
        ) + "MiB"@
    } else {
        m == MemorySize::Bytes(size)
    }
}

/// Renders a byte count the way the request asked for.
pub fn to_memorysize(cfg: &StatsConfig, size: u64) -> (r: MemorySize)
    ensures
        spec_memory_size(cfg.human_readable, size, r),
{
    if cfg.human_readable {
        let mut s = u64_to_string(size / 1048576);
        s.append("MiB");
        MemorySize::HumanReadable(s)
    } else {
        MemorySize::Bytes(size)
    }
}

impl MemorySize {
    /// The document value for this size: a number for a byte count, text for
    /// a human-readable size.
    pub fn to_json(self) -> (r: JsonValue)
        ensures
            match self {
                MemorySize::Bytes(n) => r == JsonValue::UInt(n),
                MemorySize::HumanReadable(s) => r matches JsonValue::Text(t) && t@ == s@,
            },
    {
        match self {
            MemorySize::Bytes(n) => JsonValue::UInt(n),
            MemorySize::HumanReadable(s) => JsonValue::Text(s),
        }
    }
}

/// What a byte count looks like as a document value under the request's
/// formatting choice.
pub open spec fn spec_size_json(human_readable: bool, size: u64, v: JsonValue) -> bool {
    if human_readable {
        v matches JsonValue::Text(s) && s@ == spec_dec_digits((size / 1048576) as nat) + "MiB"@
    } else {
        v == JsonValue::UInt(size)
    }
}

/// Renders a byte count straight to a document value.
pub fn size_json(cfg: &StatsConfig, size: u64) -> (r: JsonValue)
    ensures
        spec_size_json(cfg.human_readable, size, r),
{
    to_memorysize(cfg, size).to_json()
}

/// What `convert_to_date` owes for an instant of `secs` seconds since the
/// Unix epoch: the bare seconds for the epoch format; otherwise rendered
/// text, pinned to the named UTC rendering (or its decimal fallback) for the
/// UTC format, and nonempty for the machine-dependent local zone.
pub open spec fn spec_date(date_format: DateFormat, secs: u64, d: Date) -> bool {
    match date_format {
        DateFormat::Epoch => d == Date::Epoch(secs),
        DateFormat::Local => d matches Date::Local(s) && s@.len() > 0,
        DateFormat::Utc => d matches Date::Utc(s) && spec_utc_text(secs, s@),
    }
}

/// Renders an instant the way the request asked for.
pub fn convert_to_date(cfg: &StatsConfig, secs: u64) -> (r: Date)
    ensures
        spec_date(cfg.date_format, secs, r),
{
    match cfg.date_format {
        DateFormat::Epoch => Date::Epoch(secs),
        DateFormat::Local => Date::Local(format_local(secs)),
        DateFormat::Utc => Date::Utc(format_utc(secs)),
    }
}

impl Date {
    /// The document value for this date: a number for epoch seconds, text
    /// otherwise.
    pub fn to_json(self) -> (r: JsonValue)
        ensures
            match self {
                Date::Epoch(n) => r == JsonValue::UInt(n),
                Date::Local(s) => r matches JsonValue::Text(t) && t@ == s@,
                Date::Utc(s) => r matches JsonValue::Text(t) && t@ == s@,
            },
    {
        match self {
            Date::Epoch(n) => JsonValue::UInt(n),
            Date::Local(s) => JsonValue::Text(s),
            Date::Utc(s) => JsonValue::Text(s),
        }
    }
}

/// What an instant looks like as a document value under the request's date
/// format.
pub open spec fn spec_date_json(date_format: DateFormat, secs: u64, v: JsonValue) -> bool {
    match date_format {
        DateFormat::Epoch => v == JsonValue::UInt(secs),
        DateFormat::Local => v matches JsonValue::Text(s) && s@.len() > 0,
        DateFormat::Utc => v matches JsonValue::Text(s) && spec_utc_text(secs, s@),
    }
}

/// Renders an instant straight to a document value.
pub fn date_json(cfg: &StatsConfig, secs: u64) -> (r: JsonValue)
    ensures
        spec_date_json(cfg.date_format, secs, r),
{
    convert_to_date(cfg, secs).to_json()
}

} // verus!

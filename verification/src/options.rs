//! Per-database operational parameters — retention window, shard count,
//! shard time-range, replication factor, timestamp precision — and the
//! compact textual encodings they are parsed from.

use vstd::prelude::*;

use crate::text::{parse_u64, parse_u64_spec};

verus! {

/// The resolution at which stored timestamps are interpreted.
#[derive(Debug, Clone, PartialEq, Eq, Structural)]
pub enum Precision {
    MS,
    US,
    NS,
}

/// Case-insensitive match of one character against its two cases.
pub open spec fn ci_eq(c: char, lower: char, upper: char) -> bool {
    c == lower || c == upper
}

/// What parsing a quoted precision token yields: `'MS'`, `'US'` or `'NS'`,
/// matched case-insensitively; anything else yields nothing.
pub open spec fn precision_parse_spec(s: Seq<char>) -> Option<Precision> {
    if s.len() == 4 && s[0] == '\'' && s[3] == '\'' && ci_eq(s[2], 's', 'S') {
        if ci_eq(s[1], 'm', 'M') {
            Some(Precision::MS)
        } else if ci_eq(s[1], 'u', 'U') {
            Some(Precision::US)
        } else if ci_eq(s[1], 'n', 'N') {
            Some(Precision::NS)
        } else {
            None
        }
    } else {
        None
    }
}

impl Precision {
    /// Parses a quoted precision token; absence means "use the default",
    /// never a hard failure.
    pub fn new(text: &str) -> (r: Option<Self>)
        ensures
            r == precision_parse_spec(text@),
    {
        let len: usize = text.unicode_len();
        if len != 4 {
            return None;
        }
        let c0: char = text.get_char(0);
        let c1: char = text.get_char(1);
        let c2: char = text.get_char(2);
        let c3: char = text.get_char(3);
        if c0 != '\'' || c3 != '\'' || (c2 != 's' && c2 != 'S') {
            return None;
        }
        if c1 == 'm' || c1 == 'M' {
            Some(Precision::MS)
        } else if c1 == 'u' || c1 == 'U' {
            Some(Precision::US)
        } else if c1 == 'n' || c1 == 'N' {
            Some(Precision::NS)
        } else {
            None
        }
    }
}

/// Unit of a retention or shard time-range magnitude.
#[derive(Debug, Clone, PartialEq, Eq, Structural)]
pub enum DurationUnit {
    Minutes,
    Hour,
    Day,
}

/// A retention window or shard time-range: an unsigned magnitude and its
/// unit.
#[derive(Debug, Clone, PartialEq, Eq, Structural)]
pub struct Duration {
    pub time_num: u64,
    pub unit: DurationUnit,
}

/// What parsing a quoted duration token yields: a string of at least 4
/// characters whose first and last-but-one characters delimit a decimal
/// magnitude, followed by a unit letter `d`/`h`/`m` matched
/// case-insensitively. A short string, a non-numeric magnitude or an
/// unrecognized unit yields nothing.
pub open spec fn duration_parse_spec(s: Seq<char>) -> Option<Duration> {
    if s.len() < 4 {
        None
    } else {
        let unit_c = s[s.len() - 2];
        match parse_u64_spec(s.subrange(1, s.len() - 2)) {
            Some(v) => if ci_eq(unit_c, 'd', 'D') {
                Some(Duration { time_num: v, unit: DurationUnit::Day })
            } else if ci_eq(unit_c, 'h', 'H') {
                Some(Duration { time_num: v, unit: DurationUnit::Hour })
            } else if ci_eq(unit_c, 'm', 'M') {
                Some(Duration { time_num: v, unit: DurationUnit::Minutes })
            } else {
                None
            },
            None => None,
        }
    }
}

impl Duration {
    /// Parses a quoted duration token such as `'10d'`; absence means "use
    /// the default", never a hard failure.
    pub fn new(text: &str) -> (r: Option<Self>)
        ensures
            r == duration_parse_spec(text@),
    {
        let len: usize = text.unicode_len();
        if len < 4 {
            return None;
        }
        let magnitude: &str = text.substring_char(1, len - 2);
        let time_num: u64 = match parse_u64(magnitude) {
            Some(v) => v,
            None => {
                return None;
            },
        };
        let unit_c: char = text.get_char(len - 2);
        if unit_c == 'd' || unit_c == 'D' {
            Some(Duration { time_num, unit: DurationUnit::Day })
        } else if unit_c == 'h' || unit_c == 'H' {
            Some(Duration { time_num, unit: DurationUnit::Hour })
        } else if unit_c == 'm' || unit_c == 'M' {
            Some(Duration { time_num, unit: DurationUnit::Minutes })
        } else {
            None
        }
    }
}

/// Per-database operational parameters. `shard_num` and `replica` are
/// always at least 1: zero is meaningless and is coerced at construction.
#[derive(Debug, Clone, PartialEq, Eq, Structural)]
pub struct DatabaseOptions {
    /// How long data is kept.
    pub ttl: Duration,
    pub shard_num: u64,
    /// The time range one shard covers.
    pub vnode_duration: Duration,
    pub replica: u64,
    /// The resolution of stored timestamps.
    pub precision: Precision,
}

impl DatabaseOptions {
    /// The documented defaults: 365-day retention, one shard, 365-day
    /// shard range, one replica, nanosecond precision.
    pub open spec fn spec_default() -> DatabaseOptions {
        DatabaseOptions {
            ttl: Duration { time_num: 365, unit: DurationUnit::Day },
            shard_num: 1,
            vnode_duration: Duration { time_num: 365, unit: DurationUnit::Day },
            replica: 1,
            precision: Precision::NS,
        }
    }

    /// Builds options from raw configuration input: each textual
    /// parameter that fails to parse falls back to its default, and a
    /// zero shard count or replication factor is coerced to 1.
    pub fn from_config(
        ttl_text: &str,
        shard_num: u64,
        vnode_duration_text: &str,
        replica: u64,
        precision_text: &str,
    ) -> (r: DatabaseOptions)
        ensures
            r.ttl == (match duration_parse_spec(ttl_text@) {
                Some(d) => d,
                None => DatabaseOptions::spec_default().ttl,
            }),
            r.shard_num == (if shard_num == 0 {
                1u64
            } else {
                shard_num
            }),
            r.vnode_duration == (match duration_parse_spec(vnode_duration_text@) {
                Some(d) => d,
                None => DatabaseOptions::spec_default().vnode_duration,
            }),
            r.replica == (if replica == 0 {
                1u64
            } else {
                replica
            }),
            r.precision == (match precision_parse_spec(precision_text@) {
                Some(p) => p,
                None => DatabaseOptions::spec_default().precision,
            }),
    {
        let defaults = DatabaseOptions::default();
        let ttl = match Duration::new(ttl_text) {
            Some(d) => d,
            None => defaults.ttl,
        };
        let vnode_duration = match Duration::new(vnode_duration_text) {
            Some(d) => d,
            None => defaults.vnode_duration,
        };
        let precision = match Precision::new(precision_text) {
            Some(p) => p,
            None => defaults.precision,
        };
        DatabaseOptions {
            ttl,
            shard_num: if shard_num == 0 {
                1
            } else {
                shard_num
            },
            vnode_duration,
            replica: if replica == 0 {
                1
            } else {
                replica
            },
            precision,
        }
    }
}

impl Default for DatabaseOptions {
    /// The documented defaults: 365-day retention, one shard, 365-day
    /// shard range, one replica, nanosecond precision.
    fn default() -> (r: Self)
        ensures
            r == DatabaseOptions::spec_default(),
    {
        Self {
            ttl: Duration { time_num: 365, unit: DurationUnit::Day },
            shard_num: 1,
            vnode_duration: Duration { time_num: 365, unit: DurationUnit::Day },
            replica: 1,
            precision: Precision::NS,
        }
    }
}

} // verus!

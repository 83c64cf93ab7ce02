//! The minimal line schema of the run log. A line must carry the schema
//! version, an RFC 3339 timestamp, the process id, the element count, the
//! two allocation counters, and non-empty example and run-id strings;
//! anything else is ignored for forward compatibility. The shell around
//! the library parses a JSON line into [`RunLineFields`] (a field that is
//! absent or of the wrong JSON type becomes `None`); the validation itself
//! is exact: it accepts a line if and only if the schema holds, and names
//! the first field that fails.

use vstd::prelude::*;

use crate::digits::{spec_u64_string, u64_to_string};

verus! {

/// Current schema version of the log lines.
pub const SCHEMA_VERSION: u8 = 1;

/// The schema-relevant fields of one run-log line. `None` stands for a
/// field that is absent or not of the JSON type the schema asks for.
#[derive(Debug)]
pub struct RunLineFields {
    pub schema_version: Option<u64>,
    pub ts: Option<String>,
    pub pid: Option<u64>,
    pub n: Option<u64>,
    pub allocs: Option<u64>,
    pub alloc_bytes: Option<u64>,
    pub example: Option<String>,
    pub run_id: Option<String>,
}

/// Whether a character sequence is a valid RFC 3339 date-time. The name
/// stands for what the date-time parser of the chrono crate accepts, which
/// depends on the characters alone.
pub uninterp spec fn is_rfc3339(s: Seq<char>) -> bool;

/// Relies on chrono's `DateTime::parse_from_rfc3339`: whether a string
/// parses as RFC 3339 is a function of its characters alone.
#[verifier::external_body]
fn rfc3339_ok(s: &str) -> (r: bool)
    ensures
        r == is_rfc3339(s@),
{
    chrono::DateTime::parse_from_rfc3339(s).is_ok()
}

/// The schema, as one predicate.
pub open spec fn spec_line_valid(v: RunLineFields) -> bool {
    &&& v.schema_version == Some(SCHEMA_VERSION as u64)
    &&& v.ts matches Some(t) && is_rfc3339(t@)
    &&& v.pid is Some
    &&& v.n is Some
    &&& v.allocs is Some
    &&& v.alloc_bytes is Some
    &&& v.example matches Some(e) && e@.len() > 0
    &&& v.run_id matches Some(rid) && rid@.len() > 0
}

/// The message naming the first schema violation of `v` (meaningful only
/// when the line is invalid).
pub open spec fn spec_first_error(v: RunLineFields) -> Seq<char> {
    if v.schema_version is None {
        "missing or non-integer `schema_version`"@
    } else if v.schema_version != Some(SCHEMA_VERSION as u64) {
        "schema_version mismatch: got "@ + spec_u64_string(v.schema_version.unwrap() as nat)
            + ", expected "@ + spec_u64_string(SCHEMA_VERSION as nat)
    } else if v.ts is None {
        "missing `ts`"@
    } else if !is_rfc3339(v.ts.unwrap()@) {
        "invalid `ts` RFC3339"@
    } else if v.pid is None {
        "missing or non-integer `pid`"@
    } else if v.n is None {
        "missing or non-integer `n`"@
    } else if v.allocs is None {
        "missing or non-integer `allocs`"@
    } else if v.alloc_bytes is None {
        "missing or non-integer `alloc_bytes`"@
    } else if v.example is None {
        "missing `example`"@
    } else if v.example.unwrap()@.len() == 0 {
        "`example` must be non-empty"@
    } else if v.run_id is None {
        "missing `run_id`"@
    } else {
        "`run_id` must be non-empty"@
    }
}

/// Validates one line against the minimal schema: accepts exactly the
/// valid lines, and on an invalid line returns the message of the first
/// violated rule, in schema order.
pub fn validate_value(v: &RunLineFields) -> (r: Result<(), String>)
    ensures
        match r {
            Ok(()) => spec_line_valid(*v),
            Err(m) => !spec_line_valid(*v) && m@ == spec_first_error(*v),
        },
{
    let sv = match v.schema_version {
        None => {
            return Err(String::from_str("missing or non-integer `schema_version`"));
        },
        Some(sv) => sv,
    };
    if sv != SCHEMA_VERSION as u64 {
        let mut m = String::from_str("schema_version mismatch: got ");
        m.append(u64_to_string(sv).as_str());
        m.append(", expected ");
        m.append(u64_to_string(SCHEMA_VERSION as u64).as_str());
        proof {
            assert(m@ =~= spec_first_error(*v));
        }
        return Err(m);
    }
    match &v.ts {
        None => {
            return Err(String::from_str("missing `ts`"));
        },
        Some(t) => {
            if !rfc3339_ok(t.as_str()) {
                return Err(String::from_str("invalid `ts` RFC3339"));
            }
        },
    }
    if v.pid.is_none() {
        return Err(String::from_str("missing or non-integer `pid`"));
    }
    if v.n.is_none() {
        return Err(String::from_str("missing or non-integer `n`"));
    }
    if v.allocs.is_none() {
        return Err(String::from_str("missing or non-integer `allocs`"));
    }
    if v.alloc_bytes.is_none() {
        return Err(String::from_str("missing or non-integer `alloc_bytes`"));
    }
    match &v.example {
        None => {
            return Err(String::from_str("missing `example`"));
        },
        Some(e) => {
            if e.as_str().is_empty() {
                return Err(String::from_str("`example` must be non-empty"));
            }
        },
    }
    match &v.run_id {
        None => {
            return Err(String::from_str("missing `run_id`"));
        },
        Some(rid) => {
            if rid.as_str().is_empty() {
                return Err(String::from_str("`run_id` must be non-empty"));
            }
        },
    }
    Ok(())
}

} // verus!

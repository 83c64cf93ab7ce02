//! The stable run identifier: `YYYYMMDD-HHMMSS-<SEED_HEX>-<PID>`. The
//! calendar arithmetic (Unix timestamp to UTC civil date) and the
//! formatting are verified; the clock and the seed come from outside and
//! nothing is promised of their values. The shell around the library
//! caches one identifier per process.

use vstd::prelude::*;

use crate::digits::{
    spec_u16_hex4, spec_u64_string, spec_zero_pad, u16_hex4, u64_to_string, zero_padded_u64,
};

verus! {

#[verifier::external_type_specification]
#[verifier::external_body]
pub struct ExOffsetDateTime(time::OffsetDateTime);

/// Relies on time's `OffsetDateTime::now_utc`: the current date and time;
/// nothing is promised of its value.
pub assume_specification[ time::OffsetDateTime::now_utc ]() -> time::OffsetDateTime;

/// Relies on time's `OffsetDateTime::unix_timestamp`: the whole seconds
/// since the Unix epoch; nothing is promised of its value.
pub assume_specification[ time::OffsetDateTime::unix_timestamp ](
    t: time::OffsetDateTime,
) -> i64;

/// Relies on fastrand::u16: a pseudo-random seed; nothing is promised of
/// its value.
#[verifier::external_body]
fn random_seed() -> (r: u16) {
    fastrand::u16(..)
}

/// The Gregorian leap-year rule.
pub open spec fn is_leap_year(y: nat) -> bool {
    y % 4 == 0 && (y % 100 != 0 || y % 400 == 0)
}

/// Days in year `y`.
pub open spec fn spec_days_in_year(y: nat) -> nat {
    if is_leap_year(y) {
        366
    } else {
        365
    }
}

/// Days in month `m` of year `y` (months counted 1 to 12).
pub open spec fn spec_days_in_month(y: nat, m: nat) -> nat {
    if m == 2 {
        if is_leap_year(y) {
            29
        } else {
            28
        }
    } else if m == 4 || m == 6 || m == 9 || m == 11 {
        30
    } else {
        31
    }
}

/// Days from the Unix epoch to the start of year `y`.
pub open spec fn spec_days_before_year(y: nat) -> nat
    decreases y,
{
    if y <= 1970 {
        0
    } else {
        spec_days_before_year((y - 1) as nat) + spec_days_in_year((y - 1) as nat)
    }
}

/// Days from the start of year `y` to the start of month `m`.
pub open spec fn spec_days_before_month(y: nat, m: nat) -> nat
    decreases m,
{
    if m <= 1 {
        0
    } else {
        spec_days_before_month(y, (m - 1) as nat) + spec_days_in_month(y, (m - 1) as nat)
    }
}

/// Days in a year, counted at least 365 per elapsed year.
proof fn lemma_days_before_year_lower(y: nat)
    requires
        y >= 1970,
    ensures
        spec_days_before_year(y) >= 365 * (y - 1970),
    decreases y,
{
    if y > 1970 {
        lemma_days_before_year_lower((y - 1) as nat);
        assert(365 * ((y - 1) - 1970) + 365 == 365 * (y - 1970)) by (nonlinear_arith)
            requires
                y >= 1971,
        ;
    }
}

/// The months of a year sum to the year's days.
proof fn lemma_year_month_sum(y: nat)
    ensures
        spec_days_before_month(y, 12) + spec_days_in_month(y, 12) == spec_days_in_year(y),
{
    reveal_with_fuel(spec_days_before_month, 13);
}

/// Days in year `y`, executable.
fn days_in_year(y: u64) -> (r: u64)
    ensures
        r == spec_days_in_year(y as nat),
{
    if y % 4 == 0 && (y % 100 != 0 || y % 400 == 0) {
        366
    } else {
        365
    }
}

/// Days in month `m` of year `y`, executable.
fn days_in_month(y: u64, m: u64) -> (r: u64)
    requires
        1 <= m <= 12,
    ensures
        r == spec_days_in_month(y as nat, m as nat),
{
    if m == 2 {
        if y % 4 == 0 && (y % 100 != 0 || y % 400 == 0) {
            29
        } else {
            28
        }
    } else if m == 4 || m == 6 || m == 9 || m == 11 {
        30
    } else {
        31
    }
}

/// Converts a day count since the Unix epoch to the UTC civil date: the
/// returned year, month and day are in range and place `days` exactly,
/// i.e. the days before the year plus the days before the month plus the
/// day offset reproduce the input.
pub fn civil_from_days(days: u64) -> (r: (u64, u64, u64))
    requires
        days <= 106_751_991_167,
    ensures
        ({
            let (y, m, d) = r;
            &&& 1970 <= y
            &&& 1 <= m <= 12
            &&& 1 <= d <= spec_days_in_month(y as nat, m as nat)
            &&& spec_days_before_year(y as nat) + spec_days_before_month(y as nat, m as nat) + (d
                - 1) == days
        }),
{
    let mut y: u64 = 1970;
    let mut rem: u64 = days;
    loop
        invariant
            1970 <= y,
            days <= 106_751_991_167,
            spec_days_before_year(y as nat) + rem == days,
        ensures
            spec_days_before_year(y as nat) + rem == days,
            rem < spec_days_in_year(y as nat),
            1970 <= y,
        decreases rem,
    {
        let diy = days_in_year(y);
        if rem < diy {
            break ;
        }
        proof {
            lemma_days_before_year_lower((y + 1) as nat);
            assert(365 * ((y + 1) - 1970) <= days) by {
                assert(spec_days_before_year((y + 1) as nat) == spec_days_before_year(y as nat)
                    + spec_days_in_year(y as nat));
            }
            assert(y + 1 - 1970 <= days / 365 + 1) by (nonlinear_arith)
                requires
                    365 * ((y + 1) - 1970) <= days,
            ;
        }
        rem = rem - diy;
        y = y + 1;
    }
    let mut m: u64 = 1;
    loop
        invariant
            1 <= m <= 12,
            1970 <= y,
            spec_days_before_year(y as nat) + spec_days_before_month(y as nat, m as nat) + rem
                == days,
            spec_days_before_month(y as nat, m as nat) + rem < spec_days_in_year(y as nat),
        ensures
            1 <= m <= 12,
            1970 <= y,
            spec_days_before_year(y as nat) + spec_days_before_month(y as nat, m as nat) + rem
                == days,
            rem < spec_days_in_month(y as nat, m as nat),
        decreases 12 - m,
    {
        let dim = days_in_month(y, m);
        if rem < dim {
            break ;
        }
        proof {
            lemma_year_month_sum(y as nat);
            if m == 12 {
                assert(false);
            }
        }
        rem = rem - dim;
        m = m + 1;
    }
    proof {
        assert(rem < 31) by {
            assert(spec_days_in_month(y as nat, m as nat) <= 31);
        }
    }
    (y, m, rem + 1)
}

/// The run identifier built from a civil date, a time of day, a seed and
/// a process id: `YYYYMMDD-HHMMSS-<SEED_HEX>-<PID>`.
pub open spec fn spec_run_id(
    y: u64,
    mo: u64,
    d: u64,
    h: u64,
    mi: u64,
    s: u64,
    seed: u16,
    pid: u32,
) -> Seq<char> {
    spec_zero_pad(spec_u64_string(y as nat), 4) + spec_zero_pad(spec_u64_string(mo as nat), 2)
        + spec_zero_pad(spec_u64_string(d as nat), 2) + seq!['-'] + spec_zero_pad(
        spec_u64_string(h as nat),
        2,
    ) + spec_zero_pad(spec_u64_string(mi as nat), 2) + spec_zero_pad(spec_u64_string(s as nat), 2)
        + seq!['-'] + spec_u16_hex4(seed) + seq!['-'] + spec_u64_string(pid as nat)
}

/// Formats the run identifier from its parts.
pub fn format_run_id(y: u64, mo: u64, d: u64, h: u64, mi: u64, s: u64, seed: u16, pid: u32) -> (r:
    String)
    ensures
        r@ == spec_run_id(y, mo, d, h, mi, s, seed, pid),
{
    let mut out = zero_padded_u64(y, 4);
    out.append(zero_padded_u64(mo, 2).as_str());
    out.append(zero_padded_u64(d, 2).as_str());
    out.append("-");
    out.append(zero_padded_u64(h, 2).as_str());
    out.append(zero_padded_u64(mi, 2).as_str());
    out.append(zero_padded_u64(s, 2).as_str());
    out.append("-");
    out.append(u16_hex4(seed).as_str());
    out.append("-");
    out.append(u64_to_string(pid as u64).as_str());
    proof {
        reveal_strlit("-");
        assert(("-")@ =~= seq!['-']);
        assert(out@ =~= spec_run_id(y, mo, d, h, mi, s, seed, pid));
    }
    out
}

/// A fresh run identifier for the process `pid`: the UTC date and time of
/// day now, a random 16-bit seed in hex, and the process id, in the
/// documented shape. The date and time parts are in calendar range; their
/// values come from the clock and the seed and are not promised.
pub fn current_run_id(pid: u32) -> (r: String)
    ensures
        exists|y: u64, mo: u64, d: u64, h: u64, mi: u64, s: u64, seed: u16|
            {
                &&& 1970 <= y
                &&& 1 <= mo <= 12
                &&& 1 <= d <= 31
                &&& h < 24
                &&& mi < 60
                &&& s < 60
                &&& r@ == #[trigger] spec_run_id(y, mo, d, h, mi, s, seed, pid)
            },
{
    let now = time::OffsetDateTime::now_utc();
    let ts: i64 = now.unix_timestamp();
    let tsu: u64 = if ts < 0 {
        0
    } else {
        ts as u64
    };
    let days0 = tsu / 86400;
    let days = if days0 > 106_751_991_167 {
        106_751_991_167
    } else {
        days0
    };
    let sod = tsu % 86400;
    let (y, mo, d) = civil_from_days(days);
    let h = sod / 3600;
    let mi = (sod % 3600) / 60;
    let s = sod % 60;
    let seed = random_seed();
    proof {
        assert(spec_days_in_month(y as nat, mo as nat) <= 31);
    }
    format_run_id(y, mo, d, h, mi, s, seed, pid)
}

} // verus!

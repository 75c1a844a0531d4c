//! Where log files go, and the UTC calendar arithmetic that names them.
use vstd::prelude::*;

use crate::config::{joined, join_path};
use crate::text::{chars_of, equals_at};

verus! {

/// Log files older than this many days are removed.
pub const LOG_RETENTION_DAYS: u64 = 3;

/// The civil date `(year, month, day)` of a day count from 1970-01-01, in the
/// proleptic Gregorian calendar: eras of 400 years counted from 0000-03-01.
pub open spec fn civil_from_days(days: int) -> (int, int, int) {
    let z = days + 719468;
    let era = z / 146097;
    let doe = z % 146097;
    let yoe = (doe - doe / 1460 + doe / 36524 - doe / 146096) / 365;
    let y = yoe + era * 400;
    let doy = doe - (365 * yoe + yoe / 4 - yoe / 100);
    let mp = (5 * doy + 2) / 153;
    let d = doy - (153 * mp + 2) / 5 + 1;
    let m = if mp < 10 { mp + 3 } else { mp - 9 };
    (if m <= 2 { y + 1 } else { y }, m, d)
}

/// Converts days since 1970-01-01 to `(year, month, day)`.
pub fn days_to_date(days_since_epoch: u64) -> (r: (u64, u64, u64))
    requires
        days_since_epoch <= u64::MAX - 719468,
    ensures
        (r.0 as int, r.1 as int, r.2 as int) == civil_from_days(days_since_epoch as int),
        1 <= r.1 <= 12,
        1 <= r.2 <= 31,
{
    let z: u64 = days_since_epoch + 719468;
    let era: u64 = z / 146097;
    let doe: u64 = z % 146097;
    let yoe: u64 = (doe - doe / 1460 + doe / 36524 - doe / 146096) / 365;
    assert(yoe <= 399) by (nonlinear_arith)
        requires
            doe < 146097,
            yoe == (doe - doe / 1460 + doe / 36524 - doe / 146096) / 365,
    ;
    assert(era <= u64::MAX / 146097) by (nonlinear_arith)
        requires
            era == z / 146097,
    ;
    let y: u64 = yoe + era * 400;
    assert(365 * yoe + yoe / 4 - yoe / 100 <= doe) by (nonlinear_arith)
        requires
            doe < 146097,
            yoe == (doe - doe / 1460 + doe / 36524 - doe / 146096) / 365,
    ;
    let doy: u64 = doe - (365 * yoe + yoe / 4 - yoe / 100);
    assert(doy <= 365) by (nonlinear_arith)
        requires
            doe < 146097,
            yoe == (doe - doe / 1460 + doe / 36524 - doe / 146096) / 365,
            doy == doe - (365 * yoe + yoe / 4 - yoe / 100),
    ;
    let mp: u64 = (5 * doy + 2) / 153;
    assert(mp <= 11) by (nonlinear_arith)
        requires
            doy <= 365,
            mp == (5 * doy + 2) / 153,
    ;
    assert((153 * mp + 2) / 5 <= doy) by (nonlinear_arith)
        requires
            mp == (5 * doy + 2) / 153,
    ;
    let d: u64 = doy - (153 * mp + 2) / 5 + 1;
    assert(d <= 31) by (nonlinear_arith)
        requires
            mp == (5 * doy + 2) / 153,
            d == doy - (153 * mp + 2) / 5 + 1,
            doy <= 365,
    ;
    let m: u64 = if mp < 10 {
        mp + 3
    } else {
        mp - 9
    };
    let year: u64 = if m <= 2 {
        y + 1
    } else {
        y
    };
    (year, m, d)
}

/// The decimal digit `v` as a character.
pub open spec fn digit_char(v: int) -> char {
    if v == 0 { '0' } else if v == 1 { '1' } else if v == 2 { '2' } else if v == 3 { '3' }
    else if v == 4 { '4' } else if v == 5 { '5' } else if v == 6 { '6' } else if v == 7 { '7' }
    else if v == 8 { '8' } else { '9' }
}

/// `v` in decimal, with leading zeros up to at least `w` digits.
pub open spec fn decimal(v: nat, w: nat) -> Seq<char>
    decreases v, w,
{
    if v < 10 && w <= 1 {
        seq![digit_char(v as int)]
    } else {
        decimal(v / 10, if w > 0 { (w - 1) as nat } else { 0 }).push(digit_char((v % 10) as int))
    }
}

/// Appends `v` in decimal with at least `w` digits.
fn append_decimal(out: &mut String, v: u64, w: u64)
    ensures
        final(out)@ == old(out)@ + decimal(v as nat, w as nat),
    decreases v, w,
{
    if v < 10 && w <= 1 {
        append_digit(out, v);
    } else {
        append_decimal(out, v / 10, if w > 0 { w - 1 } else { 0 });
        append_digit(out, v % 10);
        assert(decimal(v as nat, w as nat) == decimal((v / 10) as nat, (if w > 0 { w - 1 } else { 0 }) as nat).push(digit_char((v % 10) as int)));
    }
}

/// Appends one decimal digit.
fn append_digit(out: &mut String, v: u64)
    requires
        v < 10,
    ensures
        final(out)@ == old(out)@ + seq![digit_char(v as int)],
{
    let digits = "0123456789";
    proof {
        reveal_strlit("0123456789");
    }
    let ghost before = out@;
    out.append(digits.substring_char(v as usize, v as usize + 1));
    assert(out@ =~= before + seq![digit_char(v as int)]);
}

/// `secs` after the epoch as `YYYYMMDD_HHMMSS` in UTC.
pub open spec fn timestamp_of(secs: nat) -> Seq<char> {
    let date = civil_from_days((secs / 86400) as int);
    let tod = secs % 86400;
    decimal(date.0 as nat, 4) + decimal(date.1 as nat, 2) + decimal(date.2 as nat, 2) + seq!['_']
        + decimal(tod / 3600, 2) + decimal((tod % 3600) / 60, 2) + decimal(tod % 60, 2)
}

/// Formats seconds since the epoch as `YYYYMMDD_HHMMSS` in UTC.
pub fn format_utc_timestamp(secs: u64) -> (r: String)
    ensures
        r@ == timestamp_of(secs as nat),
{
    let days = secs / 86400;
    let tod = secs % 86400;
    let (year, month, day) = days_to_date(days);
    let mut out = String::new();
    append_decimal(&mut out, year, 4);
    append_decimal(&mut out, month, 2);
    append_decimal(&mut out, day, 2);
    proof {
        reveal_strlit("_");
    }
    out.append("_");
    append_decimal(&mut out, tod / 3600, 2);
    append_decimal(&mut out, (tod % 3600) / 60, 2);
    append_decimal(&mut out, tod % 60, 2);
    assert(out@ =~= timestamp_of(secs as nat));
    out
}

/// `<repo>/.gba/logs/<slug>/<timestamp>.log` for a time in seconds since the epoch.
pub open spec fn log_path_of(repo: Seq<char>, slug: Seq<char>, secs: nat) -> Seq<char> {
    joined(joined(joined(joined(repo, ".gba"@), "logs"@), slug), timestamp_of(secs) + ".log"@)
}

/// The log file of a feature for a run that began `secs` after the epoch.
pub fn log_path_at(repo_path: &str, slug: &str, secs: u64) -> (r: String)
    ensures
        r@ == log_path_of(repo_path@, slug@, secs as nat),
{
    let gba = join_path(repo_path, ".gba");
    let logs = join_path(gba.as_str(), "logs");
    let dir = join_path(logs.as_str(), slug);
    let mut file = format_utc_timestamp(secs);
    file.append(".log");
    join_path(dir.as_str(), file.as_str())
}

/// Relies on `SystemTime::now` and `SystemTime::duration_since`: the seconds
/// since the epoch by the system clock, or 0 for a clock set before it. The
/// value depends on when the call is made.
#[verifier::external_body]
fn now_secs() -> (r: u64) {
    match std::time::SystemTime::now().duration_since(std::time::UNIX_EPOCH) {
        Ok(d) => d.as_secs(),
        Err(_) => 0,
    }
}

/// The log file of a feature for a run that begins now.
pub fn build_log_path(repo_path: &str, slug: &str) -> (r: String)
    ensures
        exists|secs: nat| r@ == log_path_of(repo_path@, slug@, secs),
{
    let secs = now_secs();
    log_path_at(repo_path, slug, secs)
}

/// The oldest modification time, in seconds since the epoch, that a log file
/// may have and be kept, at time `now`.
pub fn log_cutoff(now: u64) -> (r: u64)
    ensures
        r == if now >= LOG_RETENTION_DAYS * 86400 { now - LOG_RETENTION_DAYS * 86400 } else { 0 },
{
    if now >= LOG_RETENTION_DAYS * 86400 {
        now - LOG_RETENTION_DAYS * 86400
    } else {
        0
    }
}

/// A log file is removed where its name has the extension `log` (a name that
/// is `.log` alone has none) and it was last modified before the cutoff.
pub open spec fn is_stale_log(name: Seq<char>, modified: nat, cutoff: nat) -> bool {
    name.len() > 4 && name.subrange(name.len() - 4, name.len() as int) == ".log"@ && modified
        < cutoff
}

/// Whether the file `name`, last modified at `modified`, is a log to remove.
pub fn should_remove_log(name: &str, modified: u64, cutoff: u64) -> (r: bool)
    ensures
        r == is_stale_log(name@, modified as nat, cutoff as nat),
{
    let chars = chars_of(name);
    let n = chars.len();
    if n <= 4 || modified >= cutoff {
        return false;
    }
    equals_at(&chars, n - 4, n, ".log")
}

} // verus!

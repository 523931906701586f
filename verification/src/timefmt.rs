//! The local wall-clock time, read as plain calendar and clock fields and
//! rendered as `YYYY/MM/DD HH:MM:SS.mmm +HHMM`.
use chrono::Datelike;
use chrono::Timelike;
use vstd::prelude::*;
use vstd::string::StringExecFns;

use crate::text::{padded_dec, push_dec_padded};

verus! {

/// One reading of the local wall clock, split into plain fields. The offset
/// is the local timezone's difference from UTC in seconds.
#[derive(Clone, Copy, PartialEq, Eq, Structural, Debug)]
pub struct TimeParts {
    pub year: i32,
    pub month: u8,
    pub day: u8,
    pub hour: u8,
    pub minute: u8,
    pub second: u8,
    pub millis: u16,
    pub offset_seconds: i32,
}

impl TimeParts {
    /// The ranges a clock reading is confined to: calendar fields in their
    /// calendar ranges, milliseconds below 2000 (a leap second can push them
    /// past 999), the offset strictly within one day, and the year within
    /// the supported calendar span.
    pub open spec fn wf(&self) -> bool {
        &&& 1 <= self.month <= 12
        &&& 1 <= self.day <= 31
        &&& self.hour <= 23
        &&& self.minute <= 59
        &&& self.second <= 59
        &&& self.millis <= 1999
        &&& -86400 < self.offset_seconds < 86400
        &&& -262145 <= self.year <= 262143
    }
}

/// The year, zero-padded to four digits, with a leading minus sign for
/// years before the common era.
pub open spec fn year_text(y: int) -> Seq<char> {
    if y >= 0 {
        padded_dec(y as nat, 4)
    } else {
        seq!['-'] + padded_dec((-y) as nat, 4)
    }
}

/// The UTC offset as a sign and zero-padded hours and minutes (`+HHMM`).
pub open spec fn offset_text(off: int) -> Seq<char> {
    let magnitude = if off >= 0 { off } else { -off };
    (if off >= 0 {
        seq!['+']
    } else {
        seq!['-']
    }) + padded_dec((magnitude / 3600) as nat, 2) + padded_dec(((magnitude % 3600) / 60) as nat, 2)
}

/// A clock reading rendered as `YYYY/MM/DD HH:MM:SS.mmm +HHMM`.
pub open spec fn time_text_of(p: TimeParts) -> Seq<char> {
    year_text(p.year as int) + "/"@ + padded_dec(p.month as nat, 2) + "/"@ + padded_dec(
        p.day as nat,
        2,
    ) + " "@ + padded_dec(p.hour as nat, 2) + ":"@ + padded_dec(p.minute as nat, 2) + ":"@
        + padded_dec(p.second as nat, 2) + "."@ + padded_dec(p.millis as nat, 3) + " "@
        + offset_text(p.offset_seconds as int)
}

/// Renders a clock reading as `YYYY/MM/DD HH:MM:SS.mmm +HHMM`.
pub fn local_time_text(p: &TimeParts) -> (r: String)
    requires
        p.wf(),
    ensures
        r@ == time_text_of(*p),
{
    let mut r = String::new();
    if p.year >= 0 {
        push_dec_padded(&mut r, p.year as u32, 4);
        assert(r@ =~= year_text(p.year as int));
    } else {
        r.append("-");
        push_dec_padded(&mut r, (-p.year) as u32, 4);
        proof {
            reveal_strlit("-");
            assert(r@ =~= year_text(p.year as int));
        }
    }
    r.append("/");
    push_dec_padded(&mut r, p.month as u32, 2);
    r.append("/");
    push_dec_padded(&mut r, p.day as u32, 2);
    assert(r@ =~= year_text(p.year as int) + "/"@ + padded_dec(p.month as nat, 2) + "/"@
        + padded_dec(p.day as nat, 2));
    r.append(" ");
    push_dec_padded(&mut r, p.hour as u32, 2);
    r.append(":");
    push_dec_padded(&mut r, p.minute as u32, 2);
    r.append(":");
    push_dec_padded(&mut r, p.second as u32, 2);
    assert(r@ =~= year_text(p.year as int) + "/"@ + padded_dec(p.month as nat, 2) + "/"@
        + padded_dec(p.day as nat, 2) + " "@ + padded_dec(p.hour as nat, 2) + ":"@ + padded_dec(
        p.minute as nat,
        2,
    ) + ":"@ + padded_dec(p.second as nat, 2));
    r.append(".");
    push_dec_padded(&mut r, p.millis as u32, 3);
    r.append(" ");
    let off = p.offset_seconds;
    let magnitude: u32 = if off >= 0 {
        off as u32
    } else {
        (-off) as u32
    };
    if off >= 0 {
        r.append("+");
    } else {
        r.append("-");
    }
    push_dec_padded(&mut r, magnitude / 3600, 2);
    push_dec_padded(&mut r, (magnitude % 3600) / 60, 2);
    proof {
        reveal_strlit("+");
        reveal_strlit("-");
    }
    assert(r@ =~= time_text_of(*p));
    r
}

/// Relies on chrono::Local::now for the wall clock, and on the documented
/// ranges of chrono's Datelike and Timelike accessors (month 1..=12, day
/// 1..=31, hour 0..=23, minute and second 0..=59), timestamp_subsec_millis
/// (at most 1999, past 999 only during a leap second), the year span of
/// chrono's calendar (about 262000 years around the epoch), and
/// FixedOffset::local_minus_utc (strictly within one day of seconds). What
/// time comes back depends on the clock, so only those ranges are promised.
#[verifier::external_body]
pub(crate) fn local_now_parts() -> (r: TimeParts)
    ensures
        r.wf(),
{
    let now: chrono::DateTime<chrono::Local> = chrono::Local::now();
    TimeParts {
        year: now.year(),
        month: now.month() as u8,
        day: now.day() as u8,
        hour: now.hour() as u8,
        minute: now.minute() as u8,
        second: now.second() as u8,
        millis: now.timestamp_subsec_millis() as u16,
        offset_seconds: now.offset().local_minus_utc(),
    }
}

} // verus!

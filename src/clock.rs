//! The current time, from the `chrono` crate.

use vstd::prelude::*;
use chrono::{Datelike, Timelike};
use crate::text::{push_signed_zero_padded, push_zero_padded, signed_zero_padded, string_push, zero_padded};

verus! {

/// A UTC date and time of day, as plain fields.
#[derive(Debug, Clone, Copy)]
pub struct Timestamp {
    pub year: i32,
    /// From 1 to 12.
    pub month: u32,
    /// From 1 to 31.
    pub day: u32,
    pub hour: u32,
    pub minute: u32,
    pub second: u32,
    /// Since the whole second; from 1,000,000,000 on during a leap second.
    pub nanosecond: u32,
}

impl Timestamp {
    /// The ranges that the calendar and the clock give each field.
    pub open spec fn wf(&self) -> bool {
        &&& 1 <= self.month <= 12
        &&& 1 <= self.day <= 31
        &&& self.hour < 24
        &&& self.minute < 60
        &&& self.second < 60
        &&& self.nanosecond < 2_000_000_000
    }
}

/// Relies on `chrono::Utc::now` and the `Datelike` / `Timelike` accessors,
/// whose documented ranges `Timestamp::wf` states.
#[verifier::external_body]
pub(crate) fn utc_now() -> (t: Timestamp)
    ensures
        t.wf(),
{
    let now = chrono::Utc::now();
    Timestamp {
        year: now.year(),
        month: now.month(),
        day: now.day(),
        hour: now.hour(),
        minute: now.minute(),
        second: now.second(),
        nanosecond: now.nanosecond(),
    }
}

/// Relies on `chrono::Local::now` and the `Display` of `DateTime<Local>`:
/// the local date and time as text. Nothing is known of its value.
#[verifier::external_body]
pub(crate) fn local_now_text() -> (r: String) {
    chrono::Local::now().to_string()
}

/// The protocol's timestamp text, `YYYY-MM-DDThh:mm:ss.fffffffZ`, with the
/// fraction in units of 100 ns.
pub open spec fn jellyfin_timestamp(t: Timestamp) -> Seq<char> {
    signed_zero_padded(t.year as int, 4) + seq!['-'] + zero_padded(t.month as nat, 2) + seq!['-']
        + zero_padded(t.day as nat, 2) + seq!['T'] + zero_padded(t.hour as nat, 2) + seq![':']
        + zero_padded(t.minute as nat, 2) + seq![':'] + zero_padded(t.second as nat, 2) + seq!['.']
        + zero_padded((t.nanosecond / 100) as nat, 7) + seq!['Z']
}

/// Writes `t` as `jellyfin_timestamp(t)`.
pub fn format_jellyfin_timestamp(t: &Timestamp) -> (r: String)
    ensures
        r@ == jellyfin_timestamp(*t),
{
    let mut r = String::new();
    push_signed_zero_padded(&mut r, t.year as i64, 4);
    string_push(&mut r, '-');
    push_zero_padded(&mut r, t.month as u64, 2);
    string_push(&mut r, '-');
    push_zero_padded(&mut r, t.day as u64, 2);
    string_push(&mut r, 'T');
    push_zero_padded(&mut r, t.hour as u64, 2);
    string_push(&mut r, ':');
    push_zero_padded(&mut r, t.minute as u64, 2);
    string_push(&mut r, ':');
    push_zero_padded(&mut r, t.second as u64, 2);
    string_push(&mut r, '.');
    push_zero_padded(&mut r, (t.nanosecond / 100) as u64, 7);
    string_push(&mut r, 'Z');
    assert(r@ =~= jellyfin_timestamp(*t));
    r
}

/// The current UTC time as protocol timestamp text.
pub fn create_jellyfin_timestamp() -> (r: String)
    ensures
        exists|t: Timestamp| t.wf() && r@ == jellyfin_timestamp(t),
{
    let t = utc_now();
    format_jellyfin_timestamp(&t)
}

} // verus!

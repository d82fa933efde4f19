//! The target timezone and the conversion of epoch seconds to its local
//! wall-clock representation. The timezone database and the calendar
//! conversion live in the `chrono` and `chrono-tz` crates; this module
//! declares their results so the row logic can be verified against them.
//!
//! The rendered form of a timestamp and its local time of day are functions
//! of the timezone's IANA name and the timestamp alone: `chrono-tz` compiles
//! a fixed table of timezones, keyed by name, and `chrono` converts without
//! consulting the clock, the environment or the locale.

use vstd::prelude::*;
use chrono::TimeZone;
use chrono::Timelike;
use crate::clock::TimeOfDay;

verus! {

#[verifier::external_type_specification]
#[verifier::external_body]
pub struct ExTz(chrono_tz::Tz);

/// Whether `name` is an IANA timezone name that the timezone database
/// resolves; the result of `chrono_tz`'s `Tz::from_str` on `name`.
pub uninterp spec fn is_tz_name(name: Seq<char>) -> bool;

/// Whether epoch second `ts` is within the range the calendar conversion
/// accepts for the timezone called `name`; the result of chrono's
/// `TimeZone::timestamp_opt`.
pub uninterp spec fn ts_renderable(name: Seq<char>, ts: int) -> bool;

/// The local datetime of epoch second `ts` in the timezone called `name`,
/// rendered as `YYYY-MM-DD HH:MM:SS +HHMM`; the output of chrono's
/// `DateTime::format`.
pub uninterp spec fn rendered_at(name: Seq<char>, ts: int) -> Seq<char>;

/// The local time of day (hour, minute, second) of epoch second `ts` in the
/// timezone called `name`; the result of chrono's `Timelike` accessors.
pub uninterp spec fn local_tod(name: Seq<char>, ts: int) -> (int, int, int);

/// A resolved target timezone. The handle pairs the opaque database entry
/// with the IANA name it was resolved from; only `resolve_timezone` builds
/// one, so the two always correspond.
pub struct Timezone {
    tz: chrono_tz::Tz,
    name: String,
}

impl Timezone {
    /// The IANA name this handle was resolved from.
    pub closed spec fn name_view(&self) -> Seq<char> {
        self.name@
    }

    /// The IANA name this handle was resolved from.
    pub fn iana_name(&self) -> (r: &str)
        ensures
            r@ == self.name_view(),
    {
        self.name.as_str()
    }
}

/// Relies on `chrono_tz`'s `Tz::from_str`: a lookup in the crate's fixed
/// table of IANA timezone names, succeeding exactly on the names the table
/// holds.
#[verifier::external_body]
pub fn resolve_timezone(name: &str) -> (r: Option<Timezone>)
    ensures
        r is Some <==> is_tz_name(name@),
        r matches Some(tz) ==> tz.name_view() == name@,
{
    match name.parse::<chrono_tz::Tz>() {
        Ok(tz) => Some(Timezone { tz, name: name.to_string() }),
        Err(_) => None,
    }
}

impl Timezone {
    /// Relies on chrono's `TimeZone::timestamp_opt`, which maps an in-range
    /// epoch second to the single local datetime it denotes and an
    /// out-of-range one to no datetime, and on `DateTime::format` with
    /// `%Y-%m-%d %H:%M:%S %z`, whose output depends only on that datetime.
    #[verifier::external_body]
    pub fn render_local(&self, ts: i64) -> (r: Option<String>)
        ensures
            r is Some <==> ts_renderable(self.name_view(), ts as int),
            r matches Some(s) ==> s@ == rendered_at(self.name_view(), ts as int),
    {
        match self.tz.timestamp_opt(ts, 0).single() {
            Some(dt) => Some(dt.format("%Y-%m-%d %H:%M:%S %z").to_string()),
            None => None,
        }
    }

    /// Relies on chrono's `TimeZone::timestamp_opt` (as above) and on the
    /// `Timelike` accessors `hour`, `minute` and `second`, each documented
    /// to lie within its calendar range.
    #[verifier::external_body]
    pub fn local_time_of_day(&self, ts: i64) -> (r: Option<TimeOfDay>)
        ensures
            r is Some <==> ts_renderable(self.name_view(), ts as int),
            r matches Some(t) ==> t.valid() && t.parts() == local_tod(self.name_view(), ts as int),
    {
        match self.tz.timestamp_opt(ts, 0).single() {
            Some(dt) => {
                let t = dt.time();
                Some(TimeOfDay { hour: t.hour(), minute: t.minute(), second: t.second() })
            },
            None => None,
        }
    }
}

} // verus!

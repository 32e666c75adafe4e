//! Showing a duration in a human-readable form.
//!
//! A duration is carried as its whole number of milliseconds.

use vstd::prelude::*;
use vstd::string::StringExecFns;
use crate::strings::{dec_chars, dec_seq, string_of};

verus! {

/// The millisecond part below one second.
pub fn milliseconds(duration_millis: u64) -> (r: u32)
    ensures
        r == duration_millis as int % 1000,
{
    (duration_millis % 1000) as u32
}

/// The second part below one minute.
pub fn seconds(duration_millis: u64) -> (r: u64)
    ensures
        r == duration_millis as int / 1000 % 60,
{
    duration_millis / 1000 % 60
}

/// The minute part below one hour.
pub fn minutes(duration_millis: u64) -> (r: u64)
    ensures
        r == duration_millis as int / 1000 / 60 % 60,
{
    duration_millis / 1000 / 60 % 60
}

/// The hour part.
pub fn hours(duration_millis: u64) -> (r: u64)
    ensures
        r == duration_millis as int / 1000 / 3600 % 60,
{
    duration_millis / 1000 / 3600 % 60
}

/// `n` in decimal, padded on the left with zeros to three digits.
pub open spec fn pad3_seq(n: nat) -> Seq<char> {
    if n < 10 {
        seq!['0', '0'] + dec_seq(n)
    } else if n < 100 {
        seq!['0'] + dec_seq(n)
    } else {
        dec_seq(n)
    }
}

/// A duration rendered for people: hours, minutes and seconds when an hour
/// passed; minutes and seconds when a minute passed; seconds with three
/// decimal places when at least a second or a tenth passed; a floor marker
/// otherwise.
pub open spec fn human_spec(millis: nat) -> Seq<char> {
    let h = millis / 1000 / 3600 % 60;
    let m = millis / 1000 / 60 % 60;
    let s = millis / 1000 % 60;
    let milli = millis % 1000;
    if h > 0 {
        dec_seq(h) + "h "@ + dec_seq(m) + "m "@ + dec_seq(s) + "s"@
    } else if m > 0 {
        dec_seq(m) + "m "@ + dec_seq(s) + "s"@
    } else if s > 0 || milli > 100 {
        dec_seq(s) + "."@ + pad3_seq(milli) + "s"@
    } else {
        "< 0.1s"@
    }
}

fn dec_string(n: u64) -> (r: String)
    ensures
        r@ == dec_seq(n as nat),
{
    let chars = dec_chars(n);
    string_of(&chars)
}

fn pad3_string(n: u64) -> (r: String)
    requires
        n < 1000,
    ensures
        r@ == pad3_seq(n as nat),
{
    let digits = dec_chars(n);
    let mut r = String::new();
    if n < 10 {
        r.append("00");
        proof {
            reveal_strlit("00");
            assert(Seq::<char>::empty() + "00"@ == "00"@);
            assert("00"@ =~= seq!['0', '0']);
        }
    } else if n < 100 {
        r.append("0");
        proof {
            reveal_strlit("0");
            assert(Seq::<char>::empty() + "0"@ == "0"@);
            assert("0"@ =~= seq!['0']);
        }
    }
    let tail = string_of(&digits);
    r.append(tail.as_str());
    proof {
        if n >= 100 {
            assert(Seq::<char>::empty() + dec_seq(n as nat) == dec_seq(n as nat));
        }
    }
    r
}

/// Renders a duration for people.
pub fn human(duration_millis: u64) -> (r: String)
    ensures
        r@ == human_spec(duration_millis as nat),
{
    let h = hours(duration_millis);
    let m = minutes(duration_millis);
    let s = seconds(duration_millis);
    let milli = milliseconds(duration_millis);
    if h > 0 {
        let mut r = dec_string(h);
        r.append("h ");
        let part = dec_string(m);
        r.append(part.as_str());
        r.append("m ");
        let part = dec_string(s);
        r.append(part.as_str());
        r.append("s");
        r
    } else if m > 0 {
        let mut r = dec_string(m);
        r.append("m ");
        let part = dec_string(s);
        r.append(part.as_str());
        r.append("s");
        r
    } else if s > 0 || milli > 100 {
        let mut r = dec_string(s);
        r.append(".");
        let part = pad3_string(milli as u64);
        r.append(part.as_str());
        r.append("s");
        r
    } else {
        String::from_str("< 0.1s")
    }
}

} // verus!

use std::time::Duration;
use vstd::prelude::*;

verus! {

/// What `Duration::as_secs` returns: the whole seconds of a duration.
pub uninterp spec fn duration_secs(d: Duration) -> u64;

/// What `Duration::subsec_nanos` returns: the nanoseconds past the whole
/// seconds.
pub uninterp spec fn duration_subsec_nanos(d: Duration) -> u32;

/// Relies on `Duration::as_secs`: the whole seconds of the duration.
pub assume_specification[ Duration::as_secs ](d: &Duration) -> (r: u64)
    ensures
        r == duration_secs(*d),
;

/// Relies on `Duration::subsec_nanos`: the fractional part in nanoseconds,
/// always less than one second.
pub assume_specification[ Duration::subsec_nanos ](d: &Duration) -> (r: u32)
    ensures
        r == duration_subsec_nanos(*d),
        r < 1_000_000_000,
;

/// Relies on `String::push`: appends one character.
#[verifier::external_body]
fn push_char(s: &mut String, c: char)
    ensures
        final(s)@ == old(s)@.push(c),
{
    s.push(c)
}

/// The decimal digit for `d`.
pub open spec fn digit(d: nat) -> char {
    if d == 0 {
        '0'
    } else if d == 1 {
        '1'
    } else if d == 2 {
        '2'
    } else if d == 3 {
        '3'
    } else if d == 4 {
        '4'
    } else if d == 5 {
        '5'
    } else if d == 6 {
        '6'
    } else if d == 7 {
        '7'
    } else if d == 8 {
        '8'
    } else {
        '9'
    }
}

/// `n` written in decimal, without leading zeros.
pub open spec fn decimal(n: nat) -> Seq<char>
    decreases n,
{
    if n < 10 {
        seq![digit(n)]
    } else {
        decimal(n / 10).push(digit(n % 10))
    }
}

/// How a latency of `secs` seconds and `nanos` nanoseconds reads: whole
/// microseconds below one millisecond; milliseconds and the microseconds past
/// them below one second; else seconds and the milliseconds past them. The
/// part after the point is written without leading zeros.
pub open spec fn latency_text(secs: nat, nanos: nat) -> Seq<char> {
    let micros = secs * 1_000_000 + nanos / 1000;
    let millis = secs * 1000 + nanos / 1_000_000;
    if micros < 1000 {
        decimal(micros) + seq![' ', 'μ', 's']
    } else if millis < 1000 {
        decimal(millis) + seq!['.'] + decimal((nanos / 1000) % 1000) + seq![' ', 'm', 's']
    } else {
        decimal(secs) + seq!['.'] + decimal(nanos / 1_000_000) + seq![' ', 's']
    }
}

fn digit_char(d: u128) -> (r: char)
    requires
        d < 10,
    ensures
        r == digit(d as nat),
{
    if d == 0 {
        '0'
    } else if d == 1 {
        '1'
    } else if d == 2 {
        '2'
    } else if d == 3 {
        '3'
    } else if d == 4 {
        '4'
    } else if d == 5 {
        '5'
    } else if d == 6 {
        '6'
    } else if d == 7 {
        '7'
    } else if d == 8 {
        '8'
    } else {
        '9'
    }
}

/// Appends `n` in decimal.
fn push_decimal(s: &mut String, n: u128)
    ensures
        final(s)@ == old(s)@ + decimal(n as nat),
    decreases n,
{
    if n >= 10 {
        push_decimal(s, n / 10);
    }
    push_char(s, digit_char(n % 10));
    proof {
        assert(old(s)@ + decimal(n as nat) =~= s@);
    }
}

/// How long a request took to be answered.
pub struct Latency {
    secs: u64,
    nanos: u32,
}

impl View for Latency {
    type V = (u64, u32);

    /// Whole seconds, and nanoseconds past them.
    closed spec fn view(&self) -> (u64, u32) {
        (self.secs, self.nanos)
    }
}

impl Latency {
    /// The latency of the given duration.
    pub fn new(duration: Duration) -> (r: Self)
        ensures
            r@ == (duration_secs(duration), duration_subsec_nanos(duration)),
            r@.1 < 1_000_000_000,
    {
        Latency { secs: duration.as_secs(), nanos: duration.subsec_nanos() }
    }

    /// The latency of `secs` seconds and `nanos` nanoseconds.
    pub fn from_parts(secs: u64, nanos: u32) -> (r: Self)
        requires
            nanos < 1_000_000_000,
        ensures
            r@ == (secs, nanos),
    {
        Latency { secs, nanos }
    }

    /// The latency written for a log line, such as `250 μs`, `12.500 ms` or
    /// `3.750 s`.
    pub fn to_text(&self) -> (r: String)
        ensures
            r@ == latency_text(self@.0 as nat, self@.1 as nat),
    {
        let secs = self.secs as u128;
        let nanos = self.nanos as u128;
        let micros = secs * 1_000_000 + nanos / 1000;
        let millis = secs * 1000 + nanos / 1_000_000;
        let mut s = String::new();
        if micros < 1000 {
            push_decimal(&mut s, micros);
            push_char(&mut s, ' ');
            push_char(&mut s, 'μ');
            push_char(&mut s, 's');
        } else if millis < 1000 {
            push_decimal(&mut s, millis);
            push_char(&mut s, '.');
            push_decimal(&mut s, (nanos / 1000) % 1000);
            push_char(&mut s, ' ');
            push_char(&mut s, 'm');
            push_char(&mut s, 's');
        } else {
            push_decimal(&mut s, secs);
            push_char(&mut s, '.');
            push_decimal(&mut s, nanos / 1_000_000);
            push_char(&mut s, ' ');
            push_char(&mut s, 's');
        }
        proof {
            assert(s@ =~= latency_text(self.secs as nat, self.nanos as nat));
        }
        s
    }
}

} // verus!

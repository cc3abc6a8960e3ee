use vstd::prelude::*;

verus! {

pub const NANOS_PER_SEC: u32 = 1000000000;

/// A span of time as whole seconds plus a sub-second nanosecond part,
/// mirroring how the shared playback clock publishes its fields.
#[derive(Clone, Copy, Debug, PartialEq, Eq, Structural)]
pub struct TimeSpan {
    pub secs: u64,
    pub nanos: u32,
}

impl TimeSpan {
    pub open spec fn wf(self) -> bool {
        self.nanos < NANOS_PER_SEC
    }

    /// The whole span in nanoseconds.
    pub open spec fn total(self) -> int {
        self.secs * (NANOS_PER_SEC as int) + self.nanos
    }

    pub fn new(secs: u64, nanos: u32) -> (r: TimeSpan)
        requires
            nanos < NANOS_PER_SEC,
        ensures
            r.wf(),
            r.secs == secs,
            r.nanos == nanos,
    {
        TimeSpan { secs, nanos }
    }

    pub fn zero() -> (r: TimeSpan)
        ensures
            r.wf(),
            r.total() == 0,
    {
        TimeSpan { secs: 0, nanos: 0 }
    }

    pub fn from_secs(secs: u64) -> (r: TimeSpan)
        ensures
            r.wf(),
            r.total() == secs * (NANOS_PER_SEC as int),
            r.secs == secs,
            r.nanos == 0,
    {
        TimeSpan { secs, nanos: 0 }
    }

    /// Sum of two spans.
    pub fn add_span(self, other: TimeSpan) -> (r: TimeSpan)
        requires
            self.wf(),
            other.wf(),
            self.secs + other.secs + 1 <= u64::MAX,
        ensures
            r.wf(),
            r.total() == self.total() + other.total(),
    {
        let mut secs = self.secs + other.secs;
        let mut nanos = self.nanos + other.nanos;
        if nanos >= NANOS_PER_SEC {
            nanos = nanos - NANOS_PER_SEC;
            secs = secs + 1;
        }
        TimeSpan { secs, nanos }
    }

    /// Difference of two spans, floored at zero.
    pub fn saturating_sub(self, other: TimeSpan) -> (r: TimeSpan)
        requires
            self.wf(),
            other.wf(),
        ensures
            r.wf(),
            r.total() == if self.total() >= other.total() {
                self.total() - other.total()
            } else {
                0
            },
    {
        if self.secs > other.secs {
            if self.nanos >= other.nanos {
                TimeSpan { secs: self.secs - other.secs, nanos: self.nanos - other.nanos }
            } else {
                TimeSpan {
                    secs: self.secs - other.secs - 1,
                    nanos: self.nanos + NANOS_PER_SEC - other.nanos,
                }
            }
        } else if self.secs == other.secs && self.nanos >= other.nanos {
            TimeSpan { secs: 0, nanos: self.nanos - other.nanos }
        } else {
            TimeSpan { secs: 0, nanos: 0 }
        }
    }

    pub fn lt(&self, other: &TimeSpan) -> (r: bool)
        requires
            self.wf(),
            other.wf(),
        ensures
            r == (self.total() < other.total()),
    {
        self.secs < other.secs || (self.secs == other.secs && self.nanos < other.nanos)
    }

    pub fn is_zero(&self) -> (r: bool)
        requires
            self.wf(),
        ensures
            r == (self.total() == 0),
    {
        self.secs == 0 && self.nanos == 0
    }
}

pub open spec fn digit_char(d: int) -> char {
    if d == 0 {
        '0'
    } else if d == 1 {
        '1'
    } else if d == 2 {
        '2'
    } else if d == 3 {
        '3'
    } else if d == 4 {
        '4'
    } else if d == 5 {
        '5'
    } else if d == 6 {
        '6'
    } else if d == 7 {
        '7'
    } else if d == 8 {
        '8'
    } else {
        '9'
    }
}

/// The decimal digits of `n`, most significant first.
#[verifier::opaque]
pub open spec fn dec_chars(n: int) -> Seq<char>
    decreases n,
{
    if n < 10 {
        seq![digit_char(n)]
    } else {
        dec_chars(n / 10) + seq![digit_char(n % 10)]
    }
}

/// The decimal digits of `n`, zero-padded on the left to at least two.
#[verifier::opaque]
pub open spec fn two_dec_chars(n: int) -> Seq<char> {
    if n < 10 {
        seq!['0'] + dec_chars(n)
    } else {
        dec_chars(n)
    }
}

/// A duration of `total_secs` seconds as the status line shows it:
/// `mm:ss`, or `hh:mm:ss` once a whole hour is reached.
#[verifier::opaque]
pub open spec fn spec_render_duration(total_secs: int) -> Seq<char> {
    let s = total_secs % 60;
    let m = total_secs / 60 % 60;
    let h = total_secs / 3600;
    if h > 0 {
        two_dec_chars(h) + seq![':'] + two_dec_chars(m) + seq![':'] + two_dec_chars(s)
    } else {
        two_dec_chars(m) + seq![':'] + two_dec_chars(s)
    }
}

fn digit_of(d: u64) -> (r: char)
    requires
        d < 10,
    ensures
        r == digit_char(d as int),
{
    if d == 0 {
        '0'
    } else if d == 1 {
        '1'
    } else if d == 2 {
        '2'
    } else if d == 3 {
        '3'
    } else if d == 4 {
        '4'
    } else if d == 5 {
        '5'
    } else if d == 6 {
        '6'
    } else if d == 7 {
        '7'
    } else if d == 8 {
        '8'
    } else {
        '9'
    }
}

/// Append the decimal digits of `n`.
pub fn push_dec(out: &mut Vec<char>, n: u64)
    ensures
        final(out)@ == old(out)@ + dec_chars(n as int),
    decreases n,
{
    proof {
        reveal(dec_chars);
    }
    if n < 10 {
        out.push(digit_of(n));
        proof {
            assert(final(out)@ =~= old(out)@ + dec_chars(n as int));
        }
    } else {
        push_dec(out, n / 10);
        out.push(digit_of(n % 10));
        proof {
            assert(final(out)@ =~= old(out)@ + dec_chars(n as int));
        }
    }
}

/// Append the decimal digits of `n`, zero-padded to at least two.
pub fn push_two_dec(out: &mut Vec<char>, n: u64)
    ensures
        final(out)@ == old(out)@ + two_dec_chars(n as int),
{
    proof {
        reveal(two_dec_chars);
    }
    if n < 10 {
        out.push('0');
    }
    push_dec(out, n);
    proof {
        if n < 10 {
            assert(final(out)@ =~= old(out)@ + two_dec_chars(n as int));
        }
    }
}

/// Append a duration as `mm:ss`, or `hh:mm:ss` beyond an hour.
pub fn render_duration(output: &mut Vec<char>, duration: TimeSpan)
    ensures
        final(output)@ == old(output)@ + spec_render_duration(duration.secs as int),
{
    proof {
        reveal(spec_render_duration);
    }
    let total = duration.secs;
    let s = total % 60;
    let m = total / 60 % 60;
    let h = total / 3600;
    if h > 0 {
        push_two_dec(output, h);
        output.push(':');
        push_two_dec(output, m);
        output.push(':');
        push_two_dec(output, s);
        proof {
            assert(final(output)@ =~= old(output)@ + spec_render_duration(duration.secs as int));
        }
    } else {
        push_two_dec(output, m);
        output.push(':');
        push_two_dec(output, s);
        proof {
            assert(final(output)@ =~= old(output)@ + spec_render_duration(duration.secs as int));
        }
    }
}

} // verus!

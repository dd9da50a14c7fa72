//! Text rendering of responses and timing breakdowns.

use crate::response::{lossy_text, Response, Timing};
use std::time::Duration;
use vstd::prelude::*;

verus! {

/// What `Duration::as_nanos` returns for a duration.
pub uninterp spec fn nanos_of(d: Duration) -> u128;

/// Relies on `Duration::as_nanos`: the whole number of nanoseconds in the
/// duration, a function of the duration alone.
#[verifier::external_body]
fn nanos(d: Duration) -> (r: u128)
    ensures
        r == nanos_of(d),
{
    d.as_nanos()
}

/// The character of a decimal digit.
pub open spec fn digit_char(d: nat) -> char {
    seq!['0', '1', '2', '3', '4', '5', '6', '7', '8', '9'][d as int]
}

/// The decimal digits of `n`, without leading zeros.
pub open spec fn decimal_text(n: nat) -> Seq<char>
    decreases n,
{
    if n < 10 {
        seq![digit_char(n)]
    } else {
        decimal_text(n / 10) + seq![digit_char(n % 10)]
    }
}

fn digit(d: u128) -> (r: String)
    requires
        d < 10,
    ensures
        r@ == seq![digit_char(d as nat)],
{
    let digits = "0123456789";
    proof {
        reveal_strlit("0123456789");
    }
    let k = d as usize;
    let r = String::from_str(digits.substring_char(k, k + 1));
    assert(r@ =~= seq![digit_char(d as nat)]);
    r
}

/// `n` in decimal.
pub fn decimal(n: u128) -> (r: String)
    ensures
        r@ == decimal_text(n as nat),
    decreases n,
{
    if n < 10 {
        digit(n)
    } else {
        let high = decimal(n / 10);
        let low = digit(n % 10);
        high.concat(low.as_str())
    }
}

/// `s` right-aligned in a field of `width` characters.
pub open spec fn pad_left(s: Seq<char>, width: nat) -> Seq<char> {
    if s.len() >= width {
        s
    } else {
        Seq::new((width - s.len()) as nat, |i: int| ' ') + s
    }
}

fn right_align(s: String, width: usize) -> (r: String)
    ensures
        r@ == pad_left(s@, width as nat),
{
    let n = s.as_str().unicode_len();
    if n >= width {
        return s;
    }
    let mut pad = String::new();
    let mut k: usize = 0;
    while k < width - n
        invariant
            n < width,
            k <= width - n,
            pad@ == Seq::new(k as nat, |i: int| ' '),
        decreases width - n - k,
    {
        pad.append(" ");
        proof {
            reveal_strlit(" ");
        }
        assert(pad@ =~= Seq::new((k + 1) as nat, |i: int| ' '));
        k = k + 1;
    }
    pad.concat(s.as_str())
}

/// A number of nanoseconds in milliseconds, rounded to the nearest
/// microsecond, with three decimals.
pub open spec fn millis_text(nanos: nat) -> Seq<char> {
    let micros = nanos / 1000 + (if nanos % 1000 >= 500 {
        1nat
    } else {
        0nat
    });
    let frac = micros % 1000;
    decimal_text(micros / 1000) + "."@ + (if frac < 10 {
        "00"@
    } else if frac < 100 {
        "0"@
    } else {
        Seq::empty()
    }) + decimal_text(frac)
}

/// One phase of a timing breakdown: its value right-aligned in eight
/// characters, then `ms`.
pub open spec fn phase_text(nanos: nat) -> Seq<char> {
    pad_left(millis_text(nanos), 8) + "ms"@
}

/// Renders a number of nanoseconds as one phase of a timing breakdown.
pub fn phase_field(nanos: u128) -> (r: String)
    ensures
        r@ == phase_text(nanos as nat),
{
    let micros = nanos / 1000 + if nanos % 1000 >= 500 {
        1
    } else {
        0
    };
    let frac = micros % 1000;
    let mut text = decimal(micros / 1000);
    text.append(".");
    if frac < 10 {
        text.append("00");
    } else if frac < 100 {
        text.append("0");
    }
    let f = decimal(frac);
    text.append(f.as_str());
    let padded = right_align(text, 8);
    padded.concat("ms")
}

/// The timing breakdown as text, one phase per line.
pub open spec fn timing_text(t: Timing) -> Seq<char> {
    "Timing:\n"@ + "  DNS lookup:    "@ + phase_text(nanos_of(t.dns) as nat) + "\n"@ + "  Connect:       "@
        + phase_text(nanos_of(t.connect) as nat) + "\n"@ + "  TLS handshake: "@ + phase_text(
        nanos_of(t.tls) as nat,
    ) + "\n"@ + "  First byte:    "@ + phase_text(nanos_of(t.starttransfer) as nat) + "\n"@
        + "  Redirect:      "@ + phase_text(nanos_of(t.redirect) as nat) + "\n"@ + "  Total:         "@
        + phase_text(nanos_of(t.total) as nat)
}

/// Header lines, each followed by a line break.
pub open spec fn lines_text(lines: Seq<Seq<char>>) -> Seq<char>
    decreases lines.len(),
{
    if lines.len() == 0 {
        Seq::empty()
    } else {
        lines_text(lines.drop_last()) + lines.last() + "\n"@
    }
}

/// A response as text: status, headers, a blank line, the body and, when
/// present, the timing breakdown after another blank line.
pub open spec fn response_text(r: Response) -> Seq<char> {
    "Status: "@ + decimal_text(r.status_code as nat) + "\n\n"@ + lines_text(r.headers.deep_view()) + "\n"@
        + lossy_text(r.body@) + match r.timing {
        Some(t) => "\n\n"@ + timing_text(t),
        None => Seq::empty(),
    }
}

impl Timing {
    /// The breakdown as text, one phase per line.
    pub fn to_string(&self) -> (r: String)
        ensures
            r@ == timing_text(*self),
    {
        let mut out = String::from_str("Timing:\n");
        out.append("  DNS lookup:    ");
        out.append(phase_field(nanos(self.dns)).as_str());
        out.append("\n");
        out.append("  Connect:       ");
        out.append(phase_field(nanos(self.connect)).as_str());
        out.append("\n");
        out.append("  TLS handshake: ");
        out.append(phase_field(nanos(self.tls)).as_str());
        out.append("\n");
        out.append("  First byte:    ");
        out.append(phase_field(nanos(self.starttransfer)).as_str());
        out.append("\n");
        out.append("  Redirect:      ");
        out.append(phase_field(nanos(self.redirect)).as_str());
        out.append("\n");
        out.append("  Total:         ");
        out.append(phase_field(nanos(self.total)).as_str());
        out
    }
}

impl Response {
    /// The response as text.
    pub fn to_string(&self) -> (r: String)
        ensures
            r@ == response_text(*self),
    {
        let mut out = String::from_str("Status: ");
        out.append(decimal(self.status_code as u128).as_str());
        out.append("\n\n");
        let mut i: usize = 0;
        let ghost start = out@;
        assert(self.headers.deep_view().subrange(0, 0) =~= Seq::<Seq<char>>::empty());
        while i < self.headers.len()
            invariant
                i <= self.headers@.len(),
                out@ == start + lines_text(self.headers.deep_view().subrange(0, i as int)),
            decreases self.headers@.len() - i,
        {
            let ghost before = out@;
            out.append(self.headers[i].as_str());
            out.append("\n");
            let ghost seen = self.headers.deep_view().subrange(0, i + 1);
            assert(seen.drop_last() =~= self.headers.deep_view().subrange(0, i as int));
            assert(seen.last() == self.headers@[i as int]@);
            assert(out@ =~= start + lines_text(seen));
            i = i + 1;
        }
        assert(self.headers.deep_view().subrange(0, i as int) =~= self.headers.deep_view());
        out.append("\n");
        out.append(self.body_string().as_str());
        if let Some(t) = &self.timing {
            out.append("\n\n");
            out.append(t.to_string().as_str());
        }
        assert(out@ =~= response_text(*self));
        out
    }
}

} // verus!

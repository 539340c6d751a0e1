//! Wire format of the status server's event stream: each change
//! notification is framed as one server-sent event whose data line carries a
//! small JSON object.

use vstd::prelude::*;
use vstd::slice::slice_to_vec;
use vstd::string::StringSliceAdditionalSpecFns;
use crate::reconcile::{ChangeNotification, NotificationModel};
use crate::util::extend_bytes;

verus! {

/// The decimal digits of `n`, most significant first.
pub open spec fn decimal(n: nat) -> Seq<u8>
    decreases n,
{
    if n < 10 {
        seq![(48 + n) as u8]
    } else {
        decimal(n / 10).push((48 + n % 10) as u8)
    }
}

/// Writes `n` in decimal.
pub fn u64_to_decimal(n: u64) -> (r: Vec<u8>)
    ensures
        r@ == decimal(n as nat),
{
    if n == 0 {
        let mut r: Vec<u8> = Vec::new();
        r.push(48);
        proof {
            assert(r@ =~= decimal(0));
        }
        return r;
    }
    let mut digits: Vec<u8> = Vec::new();
    let mut m: u64 = n;
    proof {
        assert(digits@.reverse() =~= Seq::<u8>::empty());
        assert(decimal(n as nat) =~= decimal(n as nat) + digits@.reverse());
    }
    while m > 0
        invariant
            m > 0 ==> decimal(n as nat) == decimal(m as nat) + digits@.reverse(),
            m == 0 ==> decimal(n as nat) == digits@.reverse(),
        decreases m,
    {
        let ghost prev = digits@;
        let d: u8 = (m % 10) as u8;
        digits.push(48 + d);
        let m2 = m / 10;
        proof {
            assert(digits@.reverse() =~= seq![(48 + (m as nat) % 10) as u8] + prev.reverse());
            if m2 > 0 {
                assert(m >= 10) by (nonlinear_arith)
                    requires
                        m2 == m / 10 && m2 > 0,
                ;
                assert(decimal(m as nat) == decimal((m as nat) / 10).push(
                    (48 + (m as nat) % 10) as u8,
                ));
                assert(m2 as nat == (m as nat) / 10);
                assert(decimal((m2 as nat)) + digits@.reverse() =~= decimal(m as nat)
                    + prev.reverse());
            } else {
                assert(m < 10) by (nonlinear_arith)
                    requires
                        m2 == m / 10 && m2 == 0 && m > 0,
                ;
                assert(decimal(m as nat) == seq![(48 + (m as nat) % 10) as u8]);
                assert(digits@.reverse() =~= decimal(m as nat) + prev.reverse());
                assert(digits@.reverse() =~= decimal(n as nat));
            }
        }
        m = m2;
    }
    let mut r: Vec<u8> = Vec::new();
    let mut i: usize = digits.len();
    while i > 0
        invariant
            i <= digits@.len(),
            r@ == digits@.reverse().subrange(0, digits@.len() - i),
        decreases i,
    {
        i = i - 1;
        r.push(digits[i]);
        proof {
            assert(digits@.reverse()[digits@.len() - i - 1] == digits@[i as int]);
            assert(r@ =~= digits@.reverse().subrange(0, digits@.len() - i));
        }
    }
    proof {
        assert(r@ =~= digits@.reverse());
    }
    r
}

/// How one byte of a summary is written inside a JSON string: quote and
/// backslash are escaped with a backslash, control bytes become `\u00` and
/// two hexadecimal digits, and everything else stands as itself.
pub open spec fn escaped_byte(b: u8) -> Seq<u8> {
    if b == 34 || b == 92 {
        seq![92u8, b]
    } else if b < 32 {
        seq![92u8, 117u8, 48u8, 48u8, hex_digit(b / 16), hex_digit(b % 16)]
    } else {
        seq![b]
    }
}

/// The lower-case hexadecimal digit for a value below 16.
pub open spec fn hex_digit(v: u8) -> u8 {
    if v < 10 {
        (48 + v) as u8
    } else {
        (87 + v) as u8
    }
}

/// A byte string written inside a JSON string, byte for byte.
pub open spec fn escaped(s: Seq<u8>) -> Seq<u8>
    decreases s,
{
    if s.len() == 0 {
        Seq::empty()
    } else {
        escaped(s.drop_last()) + escaped_byte(s.last())
    }
}

/// Escapes a byte string for inclusion in a JSON string.
pub fn escape_json(s: &[u8]) -> (r: Vec<u8>)
    ensures
        r@ == escaped(s@),
{
    let mut r: Vec<u8> = Vec::new();
    proof {
        assert(r@ =~= escaped(s@.subrange(0, 0)));
    }
    let mut i: usize = 0;
    while i < s.len()
        invariant
            i <= s@.len(),
            r@ == escaped(s@.subrange(0, i as int)),
        decreases s.len() - i,
    {
        let b = s[i];
        if b == 34 || b == 92 {
            r.push(92);
            r.push(b);
        } else if b < 32 {
            r.push(92);
            r.push(117);
            r.push(48);
            r.push(48);
            r.push(if b / 16 < 10 {
                48 + b / 16
            } else {
                87 + b / 16
            });
            r.push(if b % 16 < 10 {
                48 + b % 16
            } else {
                87 + b % 16
            });
        } else {
            r.push(b);
        }
        proof {
            let pre = s@.subrange(0, i as int);
            let now = s@.subrange(0, i + 1 as int);
            assert(now.drop_last() =~= pre);
            assert(now.last() == b);
            assert(r@ =~= escaped(pre) + escaped_byte(b));
        }
        i = i + 1;
    }
    proof {
        assert(s@.subrange(0, s@.len() as int) =~= s@);
    }
    r
}

/// The JSON object describing one change notification: its sequence number
/// and its escaped summary.
pub open spec fn notification_json(n: NotificationModel) -> Seq<u8> {
    "{\"seq\": ".spec_bytes() + decimal(n.sequence_number as nat) + ", \"summary\": \"".spec_bytes()
        + escaped(n.summary) + "\"}".spec_bytes()
}

/// One server-sent event frame around a payload: a `data: ` line and a blank
/// line.
pub open spec fn sse_frame_spec(payload: Seq<u8>) -> Seq<u8> {
    "data: ".spec_bytes() + payload + "\n\n".spec_bytes()
}

/// Frames a payload as one server-sent event.
pub fn sse_frame(payload: &[u8]) -> (r: Vec<u8>)
    ensures
        r@ == sse_frame_spec(payload@),
{
    let mut r = slice_to_vec("data: ".as_bytes());
    extend_bytes(&mut r, payload);
    extend_bytes(&mut r, "\n\n".as_bytes());
    proof {
        assert(r@ =~= sse_frame_spec(payload@));
    }
    r
}

/// Writes one change notification as the server-sent event the status page
/// receives.
pub fn notification_frame(n: &ChangeNotification) -> (r: Vec<u8>)
    ensures
        r@ == sse_frame_spec(notification_json(n@)),
{
    let mut json = slice_to_vec("{\"seq\": ".as_bytes());
    let digits = u64_to_decimal(n.sequence_number);
    extend_bytes(&mut json, digits.as_slice());
    extend_bytes(&mut json, ", \"summary\": \"".as_bytes());
    let esc = escape_json(n.summary.as_slice());
    extend_bytes(&mut json, esc.as_slice());
    extend_bytes(&mut json, "\"}".as_bytes());
    proof {
        assert(json@ =~= notification_json(n@));
    }
    sse_frame(json.as_slice())
}

} // verus!

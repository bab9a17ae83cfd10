use vstd::prelude::*;
use crate::text::chars_of;

verus! {

/// Why a port-range string was refused. Every refusal comes before any
/// connection is attempted.
#[derive(Clone, Copy, Debug, PartialEq, Eq, Structural)]
pub enum RangeFormatError {
    /// The text does not hold exactly one `-`.
    Separator,
    /// The part before the `-` is not a port number.
    BadStart,
    /// The part after the `-` is not a port number.
    BadEnd,
    /// The first port is greater than the last.
    StartAfterEnd,
}

/// A range of ports; both bounds are part of it.
#[derive(Clone, Copy, Debug, PartialEq, Eq, Structural)]
pub struct PortRange {
    pub start: u16,
    pub end: u16,
}

pub open spec fn is_digit(c: char) -> bool {
    '0' <= c && c <= '9'
}

pub open spec fn digit_value(c: char) -> int {
    c as int - '0' as int
}

/// The number that a string of decimal digits denotes.
pub open spec fn digits_value(s: Seq<char>) -> int
    decreases s.len(),
{
    if s.len() == 0 {
        0
    } else {
        digits_value(s.drop_last()) * 10 + digit_value(s.last())
    }
}

/// The digits of a port number: the text without one leading `+`.
pub open spec fn unsigned_digits(s: Seq<char>) -> Seq<char> {
    if s.len() > 0 && s[0] == '+' {
        s.drop_first()
    } else {
        s
    }
}

/// The port that a text denotes, as `u16::from_str` reads it: an optional
/// `+`, then one or more decimal digits, with a value of at most 65535.
pub open spec fn port_number(s: Seq<char>) -> Option<u16> {
    let d = unsigned_digits(s);
    if d.len() > 0 && (forall|i: int| 0 <= i < d.len() ==> is_digit(#[trigger] d[i]))
        && digits_value(d) <= 65535 {
        Some(digits_value(d) as u16)
    } else {
        None
    }
}

spec fn capped(v: int) -> int {
    if v > 65535 {
        65536
    } else {
        v
    }
}

/// Reads a port number.
pub fn parse_port(s: &str) -> (r: Option<u16>)
    ensures
        r == port_number(s@),
{
    let c = chars_of(s);
    let n = c.len();
    let mut start: usize = 0;
    if n > 0 && c[0] == '+' {
        start = 1;
    }
    let ghost d = c@.subrange(start as int, n as int);
    assert(d =~= unsigned_digits(s@));
    if start == n {
        return None;
    }
    let mut acc: u32 = 0;
    let mut i: usize = start;
    while i < n
        invariant
            n == c@.len(),
            c@ == s@,
            d == c@.subrange(start as int, n as int),
            d == unsigned_digits(s@),
            start <= i <= n,
            forall|j: int| start <= j < i ==> is_digit(#[trigger] c@[j]),
            acc as int == capped(digits_value(c@.subrange(start as int, i as int))),
        decreases n - i,
    {
        let ch = c[i];
        if ch < '0' || ch > '9' {
            assert(!is_digit(d[i - start]));
            return None;
        }
        let digit: u32 = (ch as u32) - ('0' as u32);
        let ghost before = c@.subrange(start as int, i as int);
        let ghost now = c@.subrange(start as int, i + 1);
        assert(now.drop_last() =~= before);
        assert(digits_value(now) == digits_value(before) * 10 + digit);
        if acc > 65535 {
            acc = 65536;
        } else {
            let v: u32 = acc * 10 + digit;
            acc = if v > 65535 {
                65536
            } else {
                v
            };
        }
        i = i + 1;
    }
    assert(c@.subrange(start as int, n as int) == d);
    if acc > 65535 {
        None
    } else {
        Some(acc as u16)
    }
}

/// `i` is the position of the one `-` in `s`.
pub open spec fn is_sole_dash(s: Seq<char>, i: int) -> bool {
    0 <= i < s.len() && s[i] == '-' && forall|j: int|
        0 <= j < s.len() && j != i ==> #[trigger] s[j] != '-'
}

/// The range that a text `<start>-<end>` denotes, or why it denotes none.
pub open spec fn range_of(s: Seq<char>) -> Result<PortRange, RangeFormatError> {
    if exists|i: int| is_sole_dash(s, i) {
        let i = choose|i: int| is_sole_dash(s, i);
        match port_number(s.subrange(0, i)) {
            None => Err(RangeFormatError::BadStart),
            Some(a) => match port_number(s.subrange(i + 1, s.len() as int)) {
                None => Err(RangeFormatError::BadEnd),
                Some(b) => if a <= b {
                    Ok(PortRange { start: a, end: b })
                } else {
                    Err(RangeFormatError::StartAfterEnd)
                },
            },
        }
    } else {
        Err(RangeFormatError::Separator)
    }
}

/// Reads a range written `<start>-<end>`.
pub fn parse_range(s: &str) -> (r: Result<PortRange, RangeFormatError>)
    ensures
        r == range_of(s@),
{
    let c = chars_of(s);
    let n = c.len();
    let mut i: usize = 0;
    while i < n && c[i] != '-'
        invariant
            n == c@.len(),
            c@ == s@,
            i <= n,
            forall|j: int| 0 <= j < i ==> c@[j] != '-',
        decreases n - i,
    {
        i = i + 1;
    }
    if i == n {
        assert(!exists|k: int| is_sole_dash(s@, k));
        return Err(RangeFormatError::Separator);
    }
    let mut k: usize = i + 1;
    while k < n
        invariant
            n == c@.len(),
            c@ == s@,
            i < k <= n,
            c@[i as int] == '-',
            forall|j: int| 0 <= j < i ==> c@[j] != '-',
            forall|j: int| i < j < k ==> c@[j] != '-',
        decreases n - k,
    {
        if c[k] == '-' {
            assert forall|m: int| !is_sole_dash(s@, m) by {
                if is_sole_dash(s@, m) {
                    if m != i as int {
                        assert(s@[i as int] != '-');
                    } else {
                        assert(s@[k as int] != '-');
                    }
                }
            }
            return Err(RangeFormatError::Separator);
        }
        k = k + 1;
    }
    assert(is_sole_dash(s@, i as int));
    let ghost w = choose|m: int| is_sole_dash(s@, m);
    assert(w == i as int) by {
        if w != i as int {
            assert(s@[i as int] != '-');
        }
    }
    let first = parse_port(s.substring_char(0, i));
    let second = parse_port(s.substring_char(i + 1, n));
    match first {
        None => Err(RangeFormatError::BadStart),
        Some(a) => match second {
            None => Err(RangeFormatError::BadEnd),
            Some(b) => if a <= b {
                Ok(PortRange { start: a, end: b })
            } else {
                Err(RangeFormatError::StartAfterEnd)
            },
        },
    }
}

impl PortRange {
    /// The ports of the range, ascending, each once.
    pub fn ports(&self) -> (r: Vec<u16>)
        requires
            self.start <= self.end,
        ensures
            r@.len() == self.end - self.start + 1,
            forall|k: int| 0 <= k < r@.len() ==> #[trigger] r@[k] == self.start + k,
    {
        let mut r: Vec<u16> = Vec::new();
        let mut p: u16 = self.start;
        loop
            invariant
                self.start <= p <= self.end,
                r@.len() == p - self.start,
                forall|k: int| 0 <= k < r@.len() ==> #[trigger] r@[k] == self.start + k,
            decreases self.end - p,
        {
            r.push(p);
            if p == self.end {
                return r;
            }
            p = p + 1;
        }
    }
}

/// The ports that a scan of the range written `range` probes, or why the
/// text names no range.
pub fn plan_scan(range: &str) -> (r: Result<Vec<u16>, RangeFormatError>)
    ensures
        match range_of(range@) {
            Err(e) => r == Err::<Vec<u16>, RangeFormatError>(e),
            Ok(pr) => r is Ok && r->Ok_0@.len() == pr.end - pr.start + 1 && forall|k: int|
                0 <= k < r->Ok_0@.len() ==> #[trigger] r->Ok_0@[k] == pr.start + k,
        },
{
    match parse_range(range) {
        Err(e) => Err(e),
        Ok(pr) => Ok(pr.ports()),
    }
}

} // verus!

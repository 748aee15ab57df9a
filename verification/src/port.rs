use vstd::prelude::*;
use vstd::string::StrSliceExecFns;

verus! {

/// The outcome of reading a port number written in decimal.
pub enum PortScan {
    Value(u16),
    Empty,
    InvalidDigit,
    Overflow,
}

/// A decimal digit.
pub open spec fn is_dec_digit(c: char) -> bool {
    ('0' as u32) <= (c as u32) && (c as u32) <= ('9' as u32)
}

/// The numeric value of a decimal digit.
pub open spec fn digit_val(c: char) -> int {
    c as u32 - '0' as u32
}

/// Reads digits left to right onto the accumulator and reports the first
/// failure: a non-digit character, or a value that leaves the `u16` range.
pub open spec fn scan_digits(ds: Seq<char>, acc: int) -> PortScan
    decreases ds.len(),
{
    if ds.len() == 0 {
        PortScan::Value(acc as u16)
    } else if !is_dec_digit(ds[0]) {
        PortScan::InvalidDigit
    } else if acc * 10 + digit_val(ds[0]) > 65535 {
        PortScan::Overflow
    } else {
        scan_digits(ds.drop_first(), acc * 10 + digit_val(ds[0]))
    }
}

/// How a port string reads as a decimal `u16`: an optional leading `'+'`,
/// then at least one digit, with a value of at most 65535.
pub open spec fn spec_parse_port(s: Seq<char>) -> PortScan {
    if s.len() == 0 {
        PortScan::Empty
    } else {
        let ds = if s[0] == '+' {
            s.drop_first()
        } else {
            s
        };
        if ds.len() == 0 {
            PortScan::InvalidDigit
        } else {
            scan_digits(ds, 0)
        }
    }
}

/// Parses a TCP/UDP port number from decimal text; a failure is reported
/// as a descriptive message naming the first problem found.
pub fn parse_port(s: &str) -> (r: Result<u16, String>)
    ensures
        (match spec_parse_port(s@) {
            PortScan::Value(v) => r matches Ok(p) && p == v,
            PortScan::Empty => r matches Err(m) && m@
                == "failed to parse port: cannot parse integer from empty string"@,
            PortScan::InvalidDigit => r matches Err(m) && m@
                == "failed to parse port: invalid digit found in string"@,
            PortScan::Overflow => r matches Err(m) && m@
                == "failed to parse port: number too large to fit in target type"@,
        }),
{
    let n = s.unicode_len();
    if n == 0 {
        return Err("failed to parse port: cannot parse integer from empty string".to_owned());
    }
    let c0 = s.get_char(0);
    let start: usize = if c0 == '+' {
        1
    } else {
        0
    };
    proof {
        if s@[0] == '+' {
            assert(s@.drop_first() =~= s@.skip(1));
        } else {
            assert(s@ =~= s@.skip(0));
        }
    }
    if n == start {
        return Err("failed to parse port: invalid digit found in string".to_owned());
    }
    let mut acc: u32 = 0;
    let mut i: usize = start;
    while i < n
        invariant
            start <= i <= n,
            n == s@.len(),
            acc <= 65535,
            spec_parse_port(s@) == scan_digits(s@.skip(i as int), acc as int),
        decreases n - i,
    {
        let c = s.get_char(i);
        let u = c as u32;
        proof {
            assert(s@.skip(i as int)[0] == s@[i as int]);
            assert(s@.skip(i as int).drop_first() =~= s@.skip(i + 1));
        }
        if u < '0' as u32 || u > '9' as u32 {
            return Err("failed to parse port: invalid digit found in string".to_owned());
        }
        let d = u - '0' as u32;
        if acc * 10 + d > 65535 {
            return Err(
                "failed to parse port: number too large to fit in target type".to_owned(),
            );
        }
        acc = acc * 10 + d;
        i = i + 1;
    }
    proof {
        assert(s@.skip(n as int) =~= Seq::<char>::empty());
    }
    Ok(acc as u16)
}

} // verus!

//! Text the device composes itself: zero-padded decimal fields for the
//! clock, hexadecimal device identifiers, and the line wrapping used by
//! the debug overlay.

use vstd::prelude::*;
use vstd::string::{StrSliceExecFns, StringExecFns};

verus! {

/// The decimal digit character for a value below ten.
pub open spec fn spec_digit_char(d: int) -> char {
    if d == 0 {
        '0'
    } else if d == 1 {
        '1'
    } else if d == 2 {
        '2'
    } else if d == 3 {
        '3'
    } else if d == 4 {
        '4'
    } else if d == 5 {
        '5'
    } else if d == 6 {
        '6'
    } else if d == 7 {
        '7'
    } else if d == 8 {
        '8'
    } else {
        '9'
    }
}

/// A value below one hundred as two decimal digits, zero-padded.
pub open spec fn spec_two_digits(n: int) -> Seq<char> {
    seq![spec_digit_char(n / 10), spec_digit_char(n % 10)]
}

/// A value below ten thousand as four decimal digits, zero-padded.
pub open spec fn spec_four_digits(n: int) -> Seq<char> {
    spec_two_digits(n / 100) + spec_two_digits(n % 100)
}

/// One decimal digit as a string slice.
pub fn digit_str(d: u32) -> (r: &'static str)
    requires
        d < 10,
    ensures
        r@.len() == 1,
        r@[0] == spec_digit_char(d as int),
{
    if d == 0 {
        proof {
            reveal_strlit("0");
        }
        "0"
    } else if d == 1 {
        proof {
            reveal_strlit("1");
        }
        "1"
    } else if d == 2 {
        proof {
            reveal_strlit("2");
        }
        "2"
    } else if d == 3 {
        proof {
            reveal_strlit("3");
        }
        "3"
    } else if d == 4 {
        proof {
            reveal_strlit("4");
        }
        "4"
    } else if d == 5 {
        proof {
            reveal_strlit("5");
        }
        "5"
    } else if d == 6 {
        proof {
            reveal_strlit("6");
        }
        "6"
    } else if d == 7 {
        proof {
            reveal_strlit("7");
        }
        "7"
    } else if d == 8 {
        proof {
            reveal_strlit("8");
        }
        "8"
    } else {
        proof {
            reveal_strlit("9");
        }
        "9"
    }
}

/// A value below one hundred, zero-padded to two decimal digits.
pub fn two_digit_text(n: u32) -> (r: String)
    requires
        n < 100,
    ensures
        r@ == spec_two_digits(n as int),
{
    let mut r = String::from_str(digit_str(n / 10));
    r.append(digit_str(n % 10));
    proof {
        assert(r@ =~= spec_two_digits(n as int));
    }
    r
}

/// A value below ten thousand, zero-padded to four decimal digits.
pub fn four_digit_text(n: u32) -> (r: String)
    requires
        n < 10000,
    ensures
        r@ == spec_four_digits(n as int),
{
    let mut r = two_digit_text(n / 100);
    let low = two_digit_text(n % 100);
    r.append(low.as_str());
    r
}

/// The hexadecimal digit character for a value below sixteen, in lower
/// case.
pub open spec fn spec_hex_char(d: int) -> char {
    if d < 10 {
        spec_digit_char(d)
    } else if d == 10 {
        'a'
    } else if d == 11 {
        'b'
    } else if d == 12 {
        'c'
    } else if d == 13 {
        'd'
    } else if d == 14 {
        'e'
    } else {
        'f'
    }
}

/// A byte as two lower-case hexadecimal digits, zero-padded.
pub open spec fn spec_byte_hex(b: int) -> Seq<char> {
    seq![spec_hex_char(b / 16), spec_hex_char(b % 16)]
}

/// One hexadecimal digit as a string slice, in lower case.
pub fn hex_digit_str(d: u32) -> (r: &'static str)
    requires
        d < 16,
    ensures
        r@.len() == 1,
        r@[0] == spec_hex_char(d as int),
{
    if d < 10 {
        digit_str(d)
    } else if d == 10 {
        proof {
            reveal_strlit("a");
        }
        "a"
    } else if d == 11 {
        proof {
            reveal_strlit("b");
        }
        "b"
    } else if d == 12 {
        proof {
            reveal_strlit("c");
        }
        "c"
    } else if d == 13 {
        proof {
            reveal_strlit("d");
        }
        "d"
    } else if d == 14 {
        proof {
            reveal_strlit("e");
        }
        "e"
    } else {
        proof {
            reveal_strlit("f");
        }
        "f"
    }
}

/// A byte, zero-padded to two lower-case hexadecimal digits.
pub fn byte_hex_text(b: u8) -> (r: String)
    ensures
        r@ == spec_byte_hex(b as int),
{
    let v = b as u32;
    let mut r = String::from_str(hex_digit_str(v / 16));
    r.append(hex_digit_str(v % 16));
    proof {
        assert(r@ =~= spec_byte_hex(b as int));
    }
    r
}

/// A six-byte hardware address, its bytes in hexadecimal and separated
/// by colons.
pub open spec fn spec_mac_text(mac: Seq<u8>) -> Seq<char> {
    spec_byte_hex(mac[0] as int) + seq![':'] + spec_byte_hex(mac[1] as int) + seq![':']
        + spec_byte_hex(mac[2] as int) + seq![':'] + spec_byte_hex(mac[3] as int) + seq![':']
        + spec_byte_hex(mac[4] as int) + seq![':'] + spec_byte_hex(mac[5] as int)
}

/// A device's six-byte hardware (MAC) address. Reading it from the
/// hardware is a collaborator's job; this type renders it.
pub struct DeviceID(pub [u8; 6]);

impl DeviceID {
    /// The address in the conventional colon-separated lower-case
    /// hexadecimal form, seventeen characters long.
    pub fn text(&self) -> (r: String)
        ensures
            r@ == spec_mac_text(self.0@),
    {
        let mut r = byte_hex_text(self.0[0]);
        proof {
            reveal_strlit(":");
        }
        r.append(":");
        r.append(byte_hex_text(self.0[1]).as_str());
        r.append(":");
        r.append(byte_hex_text(self.0[2]).as_str());
        r.append(":");
        r.append(byte_hex_text(self.0[3]).as_str());
        r.append(":");
        r.append(byte_hex_text(self.0[4]).as_str());
        r.append(":");
        r.append(byte_hex_text(self.0[5]).as_str());
        proof {
            assert(r@ =~= spec_mac_text(self.0@));
        }
        r
    }
}

/// A text chunked into runs of at most `p` characters, each run
/// followed by a line feed; the final, possibly shorter run also gets
/// one.
pub open spec fn spec_chunked(s: Seq<char>, p: int) -> Seq<char>
    recommends
        p >= 1,
    decreases s.len(),
        when p >= 1
{
    if s.len() == 0 {
        s
    } else if s.len() <= p {
        s + "\n"@
    } else {
        s.take(p) + "\n"@ + spec_chunked(s.skip(p), p)
    }
}

/// What [`inert_lf`] returns: a text shorter than `p` characters stays
/// as it is, a longer one is chunked with a line feed after every run
/// of `p` characters, the trailing partial run included.
pub open spec fn spec_inert_lf(s: Seq<char>, p: int) -> Seq<char> {
    if s.len() >= p {
        spec_chunked(s, p)
    } else {
        s
    }
}

/// Insert an inert line feed after every run of `p` characters, so a
/// long message wraps on a narrow overlay. A message shorter than one
/// run is returned unchanged, without a trailing line feed.
pub fn inert_lf(buffer: &str, p: usize) -> (r: String)
    requires
        p >= 1,
    ensures
        r@ == spec_inert_lf(buffer@, p as int),
{
    let len = buffer.unicode_len();
    let mut msg = String::new();
    if len >= p {
        let ghost s = buffer@;
        proof {
            assert(s.skip(0) =~= s);
            assert(msg@ + spec_chunked(s, p as int) =~= spec_chunked(s, p as int));
        }
        let mut i: usize = 0;
        while i < len
            invariant
                p >= 1,
                i <= len,
                len == s.len(),
                s == buffer@,
                spec_chunked(s, p as int) == msg@ + spec_chunked(s.skip(i as int), p as int),
            decreases len - i,
        {
            let o = if len - i > p {
                i + p
            } else {
                len
            };
            let chunk = buffer.substring_char(i, o);
            proof {
                let tail = s.skip(i as int);
                if len - i > p {
                    assert(tail.take(p as int) =~= s.subrange(i as int, o as int));
                    assert(tail.skip(p as int) =~= s.skip(o as int));
                    assert(msg@ + (tail.take(p as int) + "\n"@ + spec_chunked(
                        tail.skip(p as int),
                        p as int,
                    )) =~= (msg@ + chunk@ + "\n"@) + spec_chunked(s.skip(o as int), p as int));
                } else {
                    assert(tail =~= s.subrange(i as int, o as int));
                    assert(s.skip(o as int) =~= Seq::<char>::empty());
                    assert(msg@ + (tail + "\n"@) =~= (msg@ + chunk@ + "\n"@) + spec_chunked(
                        s.skip(o as int),
                        p as int,
                    ));
                }
            }
            msg.append(chunk);
            proof {
                reveal_strlit("\n");
            }
            msg.append("\n");
            i = o;
        }
        proof {
            assert(msg@ + spec_chunked(s.skip(len as int), p as int) =~= msg@);
        }
    } else {
        msg.append(buffer);
        proof {
            assert(msg@ =~= buffer@);
        }
    }
    msg
}

} // verus!

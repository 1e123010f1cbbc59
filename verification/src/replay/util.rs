//! Small shared helpers used by the crate's byte parsers and error paths:
//! little-endian field reads, decimal text and message trimming.

use vstd::prelude::*;
use vstd::string::*;

verus! {

/// The little-endian `u16` value of the two bytes at `o`.
pub open spec fn le16(b: Seq<u8>, o: int) -> int {
    b[o] as int + 256 * (b[o + 1] as int)
}

/// The little-endian `u32` value of the four bytes at `o`.
pub open spec fn le32(b: Seq<u8>, o: int) -> int {
    le16(b, o) + 65536 * le16(b, o + 2)
}

/// The little-endian `u64` value of the eight bytes at `o`.
pub open spec fn le64(b: Seq<u8>, o: int) -> int {
    le32(b, o) + 4294967296 * le32(b, o + 4)
}

/// Read a little-endian `u16` at byte offset `o`.
pub fn u16_at(b: &[u8], o: usize) -> (r: u16)
    requires
        o + 2 <= b.len(),
    ensures
        r as int == le16(b@, o as int),
{
    (b[o] as u16) + 256 * (b[o + 1] as u16)
}

/// Read a little-endian `u32` at byte offset `o`.
pub fn u32_at(b: &[u8], o: usize) -> (r: u32)
    requires
        o + 4 <= b.len(),
    ensures
        r as int == le32(b@, o as int),
{
    let lo = u16_at(b, o) as u32;
    let hi = u16_at(b, o + 2) as u32;
    lo + 65536 * hi
}

/// Read a little-endian `u64` at byte offset `o`.
pub fn u64_at(b: &[u8], o: usize) -> (r: u64)
    requires
        o + 8 <= b.len(),
    ensures
        r as int == le64(b@, o as int),
{
    let lo = u32_at(b, o) as u64;
    let hi = u32_at(b, o + 4) as u64;
    lo + 4294967296 * hi
}

/// The character of decimal digit `d`.
pub open spec fn digit_char(d: nat) -> char {
    (d + 48) as char
}

/// The decimal representation of `n`, most significant digit first.
pub open spec fn decimal(n: nat) -> Seq<char>
    decreases n,
{
    if n < 10 {
        seq![digit_char(n)]
    } else {
        decimal(n / 10).push(digit_char(n % 10))
    }
}

/// The decimal representation of a signed value, with a leading `-` when
/// negative.
pub open spec fn signed_decimal(x: int) -> Seq<char> {
    if x < 0 {
        seq!['-'] + decimal((-x) as nat)
    } else {
        decimal(x as nat)
    }
}

fn digit_str(d: u64) -> (s: &'static str)
    requires
        d < 10,
    ensures
        s@ == seq![digit_char(d as nat)],
{
    match d {
        0 => {
            proof {
                reveal_strlit("0");
            }
            "0"
        },
        1 => {
            proof {
                reveal_strlit("1");
            }
            "1"
        },
        2 => {
            proof {
                reveal_strlit("2");
            }
            "2"
        },
        3 => {
            proof {
                reveal_strlit("3");
            }
            "3"
        },
        4 => {
            proof {
                reveal_strlit("4");
            }
            "4"
        },
        5 => {
            proof {
                reveal_strlit("5");
            }
            "5"
        },
        6 => {
            proof {
                reveal_strlit("6");
            }
            "6"
        },
        7 => {
            proof {
                reveal_strlit("7");
            }
            "7"
        },
        8 => {
            proof {
                reveal_strlit("8");
            }
            "8"
        },
        _ => {
            proof {
                reveal_strlit("9");
            }
            "9"
        },
    }
}

/// The decimal text of `n`.
pub fn decimal_text(n: u64) -> (s: String)
    ensures
        s@ == decimal(n as nat),
    decreases n,
{
    if n < 10 {
        String::from_str(digit_str(n))
    } else {
        let head = decimal_text(n / 10);
        head.concat(digit_str(n % 10))
    }
}

/// The decimal text of a signed `i32`, with a leading `-` when negative.
pub fn signed_decimal_text(x: i32) -> (s: String)
    ensures
        s@ == signed_decimal(x as int),
{
    if x < 0 {
        let mag: u64 = (0 - (x as i64)) as u64;
        proof {
            reveal_strlit("-");
        }
        let sign = String::from_str("-");
        let digits = decimal_text(mag);
        sign.concat(digits.as_str())
    } else {
        decimal_text(x as u64)
    }
}

/// The character of hexadecimal digit `d` (lower case).
pub open spec fn hex_digit_char(d: nat) -> char {
    if d < 10 {
        (d + 48) as char
    } else {
        (d + 87) as char
    }
}

/// The lower-case hexadecimal representation of `n`, most significant digit
/// first, without prefix.
pub open spec fn hex(n: nat) -> Seq<char>
    decreases n,
{
    if n < 16 {
        seq![hex_digit_char(n)]
    } else {
        hex(n / 16).push(hex_digit_char(n % 16))
    }
}

fn hex_digit_str(d: u64) -> (s: &'static str)
    requires
        d < 16,
    ensures
        s@ == seq![hex_digit_char(d as nat)],
{
    if d < 10 {
        digit_str(d)
    } else if d == 10 {
        proof {
            reveal_strlit("a");
        }
        "a"
    } else if d == 11 {
        proof {
            reveal_strlit("b");
        }
        "b"
    } else if d == 12 {
        proof {
            reveal_strlit("c");
        }
        "c"
    } else if d == 13 {
        proof {
            reveal_strlit("d");
        }
        "d"
    } else if d == 14 {
        proof {
            reveal_strlit("e");
        }
        "e"
    } else {
        proof {
            reveal_strlit("f");
        }
        "f"
    }
}

/// The lower-case hexadecimal text of `n`, without prefix.
pub fn hex_text(n: u64) -> (s: String)
    ensures
        s@ == hex(n as nat),
    decreases n,
{
    if n < 16 {
        String::from_str(hex_digit_str(n))
    } else {
        let head = hex_text(n / 16);
        head.concat(hex_digit_str(n % 16))
    }
}

/// The number of characters kept by [`truncate`].
pub const TRUNCATE_LIMIT: usize = 512;

/// What [`truncate`] gives for text `s`: `s` itself when it has at most
/// [`TRUNCATE_LIMIT`] characters, else its first [`TRUNCATE_LIMIT`]
/// characters followed by a truncation marker.
pub open spec fn truncated(s: Seq<char>) -> Seq<char> {
    if s.len() <= TRUNCATE_LIMIT {
        s
    } else {
        s.subrange(0, TRUNCATE_LIMIT as int) + " ... (truncated)"@
    }
}

/// Trim a replayer error description to a readable length. The framework's
/// descriptions embed a whole call stack; keep enough to name the failure
/// without turning a diagnostic into a page of frames.
pub fn truncate(s: &str) -> (r: String)
    ensures
        r@ == truncated(s@),
{
    let n = s.unicode_len();
    if n <= TRUNCATE_LIMIT {
        return s.to_owned();
    }
    let head = s.substring_char(0, TRUNCATE_LIMIT);
    let out = String::from_str(head);
    out.concat(" ... (truncated)")
}

} // verus!

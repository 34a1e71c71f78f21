//! Verified text helpers: decimal and hexadecimal rendering of the crate's
//! numeric types, and character-level string comparison.

use vstd::prelude::*;
use vstd::string::{StrSliceExecFns, StringExecFns};
use crate::fixed::{abs_u64, Fixed};

verus! {

/// The decimal digit character for `d` (`0 <= d <= 9`).
pub open spec fn digit_char(d: int) -> char {
    if d == 0 {
        '0'
    } else if d == 1 {
        '1'
    } else if d == 2 {
        '2'
    } else if d == 3 {
        '3'
    } else if d == 4 {
        '4'
    } else if d == 5 {
        '5'
    } else if d == 6 {
        '6'
    } else if d == 7 {
        '7'
    } else if d == 8 {
        '8'
    } else {
        '9'
    }
}

/// The uppercase hexadecimal digit character for `d` (`0 <= d <= 15`).
pub open spec fn hex_char(d: int) -> char {
    if d < 10 {
        digit_char(d)
    } else if d == 10 {
        'A'
    } else if d == 11 {
        'B'
    } else if d == 12 {
        'C'
    } else if d == 13 {
        'D'
    } else if d == 14 {
        'E'
    } else {
        'F'
    }
}

/// Decimal digit sequence of `n`, most significant digit first.
pub open spec fn dec_seq(n: nat) -> Seq<char>
    decreases n,
{
    if n < 10 {
        seq![digit_char(n as int)]
    } else {
        dec_seq(n / 10).push(digit_char((n % 10) as int))
    }
}

/// Exactly `width` decimal digits of `n`, zero padded, most significant first.
pub open spec fn pad_seq(n: nat, width: nat) -> Seq<char>
    decreases width,
{
    if width == 0 {
        Seq::empty()
    } else {
        pad_seq(n / 10, (width - 1) as nat).push(digit_char((n % 10) as int))
    }
}

/// `s` with every trailing `'0'` removed.
pub open spec fn trim_zeros(s: Seq<char>) -> Seq<char>
    decreases s.len(),
{
    if s.len() > 0 && s.last() == '0' {
        trim_zeros(s.drop_last())
    } else {
        s
    }
}

/// Decimal rendering of a signed integer.
pub open spec fn int_dec_seq(m: int) -> Seq<char> {
    if m < 0 {
        seq!['-'] + dec_seq((-m) as nat)
    } else {
        dec_seq(m as nat)
    }
}

/// Decimal rendering of a fixed-point value in micro-units: optional sign,
/// whole part, and a fractional part with trailing zeros trimmed, omitted
/// entirely when it is zero.
pub open spec fn fixed_dec_seq(m: int) -> Seq<char> {
    let mag = if m >= 0 {
        m
    } else {
        -m
    };
    let whole = mag / 1000000;
    let frac = mag % 1000000;
    let digits = if frac == 0 {
        dec_seq(whole as nat)
    } else {
        dec_seq(whole as nat) + seq!['.'] + trim_zeros(pad_seq(frac as nat, 6))
    };
    if m < 0 && mag != 0 {
        seq!['-'] + digits
    } else {
        digits
    }
}

/// The single-character string for decimal digit `d`.
pub fn digit_str(d: u64) -> (r: &'static str)
    requires
        d < 10,
    ensures
        r@ == seq![digit_char(d as int)],
{
    let s: &'static str = if d == 0 {
        "0"
    } else if d == 1 {
        "1"
    } else if d == 2 {
        "2"
    } else if d == 3 {
        "3"
    } else if d == 4 {
        "4"
    } else if d == 5 {
        "5"
    } else if d == 6 {
        "6"
    } else if d == 7 {
        "7"
    } else if d == 8 {
        "8"
    } else {
        "9"
    };
    proof {
        reveal_strlit("0");
        reveal_strlit("1");
        reveal_strlit("2");
        reveal_strlit("3");
        reveal_strlit("4");
        reveal_strlit("5");
        reveal_strlit("6");
        reveal_strlit("7");
        reveal_strlit("8");
        reveal_strlit("9");
        assert(s@ =~= seq![digit_char(d as int)]);
    }
    s
}

/// The single-character string for hexadecimal digit `d`.
pub fn hex_digit_str(d: u64) -> (r: &'static str)
    requires
        d < 16,
    ensures
        r@ == seq![hex_char(d as int)],
{
    if d < 10 {
        digit_str(d)
    } else {
        let s: &'static str = if d == 10 {
            "A"
        } else if d == 11 {
            "B"
        } else if d == 12 {
            "C"
        } else if d == 13 {
            "D"
        } else if d == 14 {
            "E"
        } else {
            "F"
        };
        proof {
            reveal_strlit("A");
            reveal_strlit("B");
            reveal_strlit("C");
            reveal_strlit("D");
            reveal_strlit("E");
            reveal_strlit("F");
            assert(s@ =~= seq![hex_char(d as int)]);
        }
        s
    }
}

/// Decimal rendering of an unsigned 64-bit integer.
pub fn u64_to_string(n: u64) -> (r: String)
    ensures
        r@ == dec_seq(n as nat),
    decreases n,
{
    if n < 10 {
        String::from_str(digit_str(n))
    } else {
        let mut s = u64_to_string(n / 10);
        s.append(digit_str(n % 10));
        proof {
            assert(dec_seq((n / 10) as nat) + seq![digit_char((n % 10) as int)] =~= dec_seq(
                (n / 10) as nat,
            ).push(digit_char((n % 10) as int)));
        }
        s
    }
}

/// Decimal rendering of a signed 64-bit integer.
pub fn i64_to_string(n: i64) -> (r: String)
    ensures
        r@ == int_dec_seq(n as int),
{
    let mag = abs_u64(n);
    if n < 0 {
        let mut s = String::from_str("-");
        s.append(u64_to_string(mag).as_str());
        proof {
            reveal_strlit("-");
            assert("-"@ =~= seq!['-']);
        }
        s
    } else {
        u64_to_string(mag)
    }
}

/// Exactly `width` zero-padded decimal digits of `n`.
fn pad_string(n: u64, width: u64) -> (r: String)
    ensures
        r@ == pad_seq(n as nat, width as nat),
    decreases width,
{
    if width == 0 {
        String::new()
    } else {
        let mut s = pad_string(n / 10, width - 1);
        s.append(digit_str(n % 10));
        proof {
            assert(pad_seq((n / 10) as nat, (width - 1) as nat) + seq![digit_char(
                (n % 10) as int,
            )] =~= pad_seq((n / 10) as nat, (width - 1) as nat).push(digit_char((n % 10) as int)));
        }
        s
    }
}

/// A digit character is `'0'` exactly for the digit zero.
proof fn lemma_digit_char_zero(d: int)
    requires
        0 <= d <= 9,
    ensures
        (digit_char(d) == '0') == (d == 0),
{
}

/// Dropping a trailing zero digit of the padded rendering divides by ten.
proof fn lemma_trim_step(n: nat, width: nat)
    requires
        width > 0,
    ensures
        n % 10 == 0 ==> trim_zeros(pad_seq(n, width)) == trim_zeros(
            pad_seq(n / 10, (width - 1) as nat),
        ),
        n % 10 != 0 ==> trim_zeros(pad_seq(n, width)) == pad_seq(n, width),
{
    let s = pad_seq(n, width);
    assert(s == pad_seq(n / 10, (width - 1) as nat).push(digit_char((n % 10) as int)));
    assert(s.last() == digit_char((n % 10) as int));
    assert(s.drop_last() =~= pad_seq(n / 10, (width - 1) as nat));
    lemma_digit_char_zero((n % 10) as int);
}

/// Decimal rendering of a fixed-point value.
pub fn fixed_to_string(x: Fixed) -> (r: String)
    ensures
        r@ == fixed_dec_seq(x.micros as int),
{
    let mag: u64 = abs_u64(x.micros);
    let whole: u64 = mag / 1000000;
    let frac: u64 = mag % 1000000;
    let mut s = if x.micros < 0 && mag != 0 {
        let t = String::from_str("-");
        proof {
            reveal_strlit("-");
            assert("-"@ =~= seq!['-']);
        }
        t
    } else {
        String::new()
    };
    s.append(u64_to_string(whole).as_str());
    if frac != 0 {
        s.append(".");
        proof {
            reveal_strlit(".");
            assert("."@ =~= seq!['.']);
        }
        let mut f: u64 = frac;
        let mut width: u64 = 6;
        proof {
            assert(frac < 1000000);
            lemma_pow10_table();
        }
        while f % 10 == 0
            invariant
                1 <= width <= 6,
                0 < f,
                f < pow10_spec(width as nat),
                trim_zeros(pad_seq(frac as nat, 6)) == trim_zeros(pad_seq(f as nat, width as nat)),
            decreases f,
        {
            proof {
                lemma_trim_step(f as nat, width as nat);
                assert(f / 10 < pow10_spec((width - 1) as nat));
                assert(f / 10 > 0);
                assert(width - 1 >= 1) by {
                    lemma_pow10_table();
                    if width == 1 {
                        assert(f < 10);
                        assert(f / 10 == 0);
                    }
                };
            }
            f = f / 10;
            width = width - 1;
        }
        proof {
            lemma_trim_step(f as nat, width as nat);
        }
        s.append(pad_string(f, width).as_str());
    }
    proof {
        if frac == 0 {
            assert(s@ =~= fixed_dec_seq(x.micros as int));
        } else {
            assert(s@ =~= fixed_dec_seq(x.micros as int));
        }
    }
    s
}

/// Ten to the power `w`.
pub open spec fn pow10_spec(w: nat) -> nat
    decreases w,
{
    if w == 0 {
        1
    } else {
        10 * pow10_spec((w - 1) as nat)
    }
}

/// Small powers of ten, unfolded.
proof fn lemma_pow10_table()
    ensures
        pow10_spec(0) == 1,
        pow10_spec(1) == 10,
        pow10_spec(2) == 100,
        pow10_spec(3) == 1000,
        pow10_spec(4) == 10000,
        pow10_spec(5) == 100000,
        pow10_spec(6) == 1000000,
{
    assert(pow10_spec(0) == 1);
    assert(pow10_spec(1) == 10);
    assert(pow10_spec(2) == 100);
    assert(pow10_spec(3) == 1000);
    assert(pow10_spec(4) == 10000);
    assert(pow10_spec(5) == 100000);
    assert(pow10_spec(6) == 1000000);
}

/// Character-for-character string equality.
pub fn str_eq(a: &str, b: &str) -> (r: bool)
    ensures
        r == (a@ == b@),
{
    let la = a.unicode_len();
    let lb = b.unicode_len();
    if la != lb {
        proof {
            assert(a@ != b@) by {
                if a@ == b@ {
                    assert(a@.len() == b@.len());
                }
            };
        }
        return false;
    }
    let mut i: usize = 0;
    while i < la
        invariant
            i <= la,
            la == a@.len(),
            la == b@.len(),
            forall|j: int| 0 <= j < i ==> a@[j] == b@[j],
        decreases la - i,
    {
        if a.get_char(i) != b.get_char(i) {
            proof {
                assert(a@ != b@) by {
                    if a@ == b@ {
                        assert(a@[i as int] == b@[i as int]);
                    }
                };
            }
            return false;
        }
        i = i + 1;
    }
    proof {
        assert(a@ =~= b@);
    }
    true
}

/// Lowercasing of a single ASCII character.
pub open spec fn lower_char(c: char) -> char {
    if 'A' <= c && c <= 'Z' {
        ((c as u8) + 32) as char
    } else {
        c
    }
}

/// Case-insensitive comparison of ASCII strings, character for character.
pub fn str_eq_ignore_ascii_case(a: &str, b: &str) -> (r: bool)
    ensures
        r == (a@.map_values(|c: char| lower_char(c)) == b@.map_values(|c: char| lower_char(c))),
{
    let ghost la_map = a@.map_values(|c: char| lower_char(c));
    let ghost lb_map = b@.map_values(|c: char| lower_char(c));
    let la = a.unicode_len();
    let lb = b.unicode_len();
    if la != lb {
        proof {
            assert(la_map.len() == a@.len());
            assert(lb_map.len() == b@.len());
            assert(la_map != lb_map) by {
                if la_map == lb_map {
                    assert(la_map.len() == lb_map.len());
                }
            };
        }
        return false;
    }
    let mut i: usize = 0;
    while i < la
        invariant
            i <= la,
            la == a@.len(),
            la == b@.len(),
            la_map == a@.map_values(|c: char| lower_char(c)),
            lb_map == b@.map_values(|c: char| lower_char(c)),
            forall|j: int| 0 <= j < i ==> la_map[j] == lb_map[j],
        decreases la - i,
    {
        let ca = lower_char_exec(a.get_char(i));
        let cb = lower_char_exec(b.get_char(i));
        proof {
            assert(la_map[i as int] == lower_char(a@[i as int]));
            assert(lb_map[i as int] == lower_char(b@[i as int]));
        }
        if ca != cb {
            proof {
                assert(la_map != lb_map) by {
                    if la_map == lb_map {
                        assert(la_map[i as int] == lb_map[i as int]);
                    }
                };
            }
            return false;
        }
        i = i + 1;
    }
    proof {
        assert(la_map =~= lb_map);
    }
    true
}

/// Executable ASCII lowercasing of one character.
pub fn lower_char_exec(c: char) -> (r: char)
    ensures
        r == lower_char(c),
{
    if 'A' <= c && c <= 'Z' {
        let v = c as u8;
        (v + 32) as char
    } else {
        c
    }
}

} // verus!

//! Decimal rendering of a `LocalTime` as the backup timestamp
//! `YYYYMMDD_HHMMSS`: the year zero-padded to at least four digits (with a
//! leading sign for years before the common era), every other field to two.

use vstd::prelude::*;

use crate::clock::LocalTime;

verus! {

/// The decimal digit character for `d` in 0..=9.
pub open spec fn digit_char(d: int) -> char {
    if d == 0 {
        '0'
    } else if d == 1 {
        '1'
    } else if d == 2 {
        '2'
    } else if d == 3 {
        '3'
    } else if d == 4 {
        '4'
    } else if d == 5 {
        '5'
    } else if d == 6 {
        '6'
    } else if d == 7 {
        '7'
    } else if d == 8 {
        '8'
    } else {
        '9'
    }
}

/// The decimal digits of `n`, most significant first, no leading zeros.
pub open spec fn dec_seq(n: nat) -> Seq<char>
    decreases n,
{
    if n < 10 {
        seq![digit_char(n as int)]
    } else {
        dec_seq(n / 10).push(digit_char((n % 10) as int))
    }
}

/// `s` zero-padded on the left to at least four characters.
pub open spec fn zero_pad4(s: Seq<char>) -> Seq<char> {
    if s.len() >= 4 {
        s
    } else {
        Seq::new((4 - s.len()) as nat, |i: int| '0') + s
    }
}

/// Two decimal digits for `n` in 0..=99, zero-padded.
pub open spec fn two_digits(n: int) -> Seq<char> {
    seq![digit_char(n / 10), digit_char(n % 10)]
}

/// The year as rendered in a timestamp: at least four digits, a leading `-`
/// for negative years.
pub open spec fn year_digits(y: int) -> Seq<char> {
    if y < 0 {
        seq!['-'] + zero_pad4(dec_seq((-y) as nat))
    } else {
        zero_pad4(dec_seq(y as nat))
    }
}

/// The full timestamp `YYYYMMDD_HHMMSS` of a local time.
pub open spec fn timestamp_seq(t: LocalTime) -> Seq<char> {
    year_digits(t.year as int) + two_digits(t.month as int) + two_digits(t.day as int) + seq!['_']
        + two_digits(t.hour as int) + two_digits(t.minute as int) + two_digits(t.second as int)
}

/// The one-character string of a single decimal digit.
fn digit_str(d: u32) -> (s: &'static str)
    requires
        d < 10,
    ensures
        s@ == seq![digit_char(d as int)],
{
    if d == 0 {
        proof {
            reveal_strlit("0");
            assert("0"@ =~= seq![digit_char(d as int)]);
        }
        "0"
    } else if d == 1 {
        proof {
            reveal_strlit("1");
            assert("1"@ =~= seq![digit_char(d as int)]);
        }
        "1"
    } else if d == 2 {
        proof {
            reveal_strlit("2");
            assert("2"@ =~= seq![digit_char(d as int)]);
        }
        "2"
    } else if d == 3 {
        proof {
            reveal_strlit("3");
            assert("3"@ =~= seq![digit_char(d as int)]);
        }
        "3"
    } else if d == 4 {
        proof {
            reveal_strlit("4");
            assert("4"@ =~= seq![digit_char(d as int)]);
        }
        "4"
    } else if d == 5 {
        proof {
            reveal_strlit("5");
            assert("5"@ =~= seq![digit_char(d as int)]);
        }
        "5"
    } else if d == 6 {
        proof {
            reveal_strlit("6");
            assert("6"@ =~= seq![digit_char(d as int)]);
        }
        "6"
    } else if d == 7 {
        proof {
            reveal_strlit("7");
            assert("7"@ =~= seq![digit_char(d as int)]);
        }
        "7"
    } else if d == 8 {
        proof {
            reveal_strlit("8");
            assert("8"@ =~= seq![digit_char(d as int)]);
        }
        "8"
    } else {
        proof {
            reveal_strlit("9");
            assert("9"@ =~= seq![digit_char(d as int)]);
        }
        "9"
    }
}

/// The decimal digits of `n`, no leading zeros.
fn dec_str(n: u32) -> (s: String)
    ensures
        s@ == dec_seq(n as nat),
    decreases n,
{
    if n < 10 {
        String::from_str(digit_str(n))
    } else {
        let mut s = dec_str(n / 10);
        s.append(digit_str(n % 10));
        proof {
            assert(s@ =~= dec_seq(n as nat));
        }
        s
    }
}

/// `d` zero-padded on the left to at least four characters.
fn pad4_str(d: String) -> (s: String)
    ensures
        s@ == zero_pad4(d@),
{
    let len = d.as_str().unicode_len();
    if len >= 4 {
        d
    } else {
        let prefix = if len == 0 {
            proof {
                reveal_strlit("0000");
            }
            "0000"
        } else if len == 1 {
            proof {
                reveal_strlit("000");
            }
            "000"
        } else if len == 2 {
            proof {
                reveal_strlit("00");
            }
            "00"
        } else {
            proof {
                reveal_strlit("0");
            }
            "0"
        };
        proof {
            assert(prefix@ =~= Seq::new((4 - d@.len()) as nat, |i: int| '0'));
        }
        let mut s = String::from_str(prefix);
        s.append(d.as_str());
        s
    }
}

/// The year as rendered in a timestamp.
fn year_str(y: i32) -> (s: String)
    requires
        -262143 <= y <= 262142,
    ensures
        s@ == year_digits(y as int),
{
    if y < 0 {
        let mag: u32 = (-y) as u32;
        let digits = pad4_str(dec_str(mag));
        let mut s = String::from_str("-");
        proof {
            reveal_strlit("-");
            assert("-"@ =~= seq!['-']);
        }
        s.append(digits.as_str());
        s
    } else {
        pad4_str(dec_str(y as u32))
    }
}

/// Formats a local time as `YYYYMMDD_HHMMSS`, the timestamp a backup folder
/// name carries.
pub fn timestamp_string(t: &LocalTime) -> (s: String)
    requires
        t.wf(),
    ensures
        s@ == timestamp_seq(*t),
{
    let mut s = year_str(t.year);
    let month = two_digit_str(t.month);
    s.append(month.as_str());
    let day = two_digit_str(t.day);
    s.append(day.as_str());
    proof {
        reveal_strlit("_");
        assert("_"@ =~= seq!['_']);
    }
    s.append("_");
    let hour = two_digit_str(t.hour);
    s.append(hour.as_str());
    let minute = two_digit_str(t.minute);
    s.append(minute.as_str());
    let second = two_digit_str(t.second);
    s.append(second.as_str());
    s
}

/// Two zero-padded decimal digits for `n` in 0..=99.
fn two_digit_str(n: u32) -> (s: String)
    requires
        n < 100,
    ensures
        s@ == two_digits(n as int),
{
    let mut s = String::from_str(digit_str(n / 10));
    s.append(digit_str(n % 10));
    proof {
        assert(s@ =~= two_digits(n as int));
    }
    s
}

} // verus!

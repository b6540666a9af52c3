//! Verified text assembly: decimal numbers, the date line the player's
//! banner and the clip's metadata carry, and the seconds field handed to
//! the transcoder.

use vstd::prelude::*;
use vstd::string::StringExecFns;
use crate::timestamp::CivilDateTime;
use crate::timestamp::civil_wf;

verus! {

/// The decimal digit character of a value below ten.
pub open spec fn digit_char(d: int) -> char {
    if d == 0 {
        '0'
    } else if d == 1 {
        '1'
    } else if d == 2 {
        '2'
    } else if d == 3 {
        '3'
    } else if d == 4 {
        '4'
    } else if d == 5 {
        '5'
    } else if d == 6 {
        '6'
    } else if d == 7 {
        '7'
    } else if d == 8 {
        '8'
    } else {
        '9'
    }
}

/// The decimal digits of a non-negative value, most significant first,
/// with no leading zeros (a single zero for zero itself).
pub open spec fn dec_digits(n: nat) -> Seq<char>
    decreases n,
{
    if n < 10 {
        seq![digit_char(n as int)]
    } else {
        dec_digits(n / 10).push(digit_char((n % 10) as int))
    }
}

/// A value below one hundred as exactly two digits, zero-padded.
pub open spec fn two_digits(n: int) -> Seq<char> {
    seq![digit_char(n / 10), digit_char(n % 10)]
}

fn digit_str(d: u64) -> (r: &'static str)
    requires
        d < 10,
    ensures
        r@ == seq![digit_char(d as int)],
{
    proof {
        reveal_strlit("0");
        reveal_strlit("1");
        reveal_strlit("2");
        reveal_strlit("3");
        reveal_strlit("4");
        reveal_strlit("5");
        reveal_strlit("6");
        reveal_strlit("7");
        reveal_strlit("8");
        reveal_strlit("9");
    }
    let r = match d {
        0 => "0",
        1 => "1",
        2 => "2",
        3 => "3",
        4 => "4",
        5 => "5",
        6 => "6",
        7 => "7",
        8 => "8",
        _ => "9",
    };
    proof {
        assert(r@ =~= seq![digit_char(d as int)]);
    }
    r
}

/// A non-negative value in decimal.
pub fn u64_dec(n: u64) -> (s: String)
    ensures
        s@ == dec_digits(n as nat),
    decreases n,
{
    if n < 10 {
        digit_str(n).to_owned()
    } else {
        let mut s = u64_dec(n / 10);
        s.append(digit_str(n % 10));
        proof {
            assert(s@ =~= dec_digits(n as nat));
        }
        s
    }
}

/// A value below one hundred as two zero-padded digits.
pub fn pad2(n: u64) -> (s: String)
    requires
        n < 100,
    ensures
        s@ == two_digits(n as int),
{
    let mut s = digit_str(n / 10).to_owned();
    s.append(digit_str(n % 10));
    proof {
        assert(s@ =~= two_digits(n as int));
    }
    s
}

/// A year: zero-padded to four digits within the common era's first ten
/// thousand years, plain digits beyond, a leading minus sign before it
/// when negative.
pub open spec fn year_chars(y: int) -> Seq<char> {
    if y < 0 {
        seq!['-'] + year_magnitude_chars(-y)
    } else {
        year_magnitude_chars(y)
    }
}

/// The digits of a year's magnitude, zero-padded to four.
pub open spec fn year_magnitude_chars(n: int) -> Seq<char> {
    if n < 10000 {
        seq![
            digit_char(n / 1000),
            digit_char((n / 100) % 10),
            digit_char((n / 10) % 10),
            digit_char(n % 10),
        ]
    } else {
        dec_digits(n as nat)
    }
}

fn year_magnitude(n: u64) -> (s: String)
    ensures
        s@ == year_magnitude_chars(n as int),
{
    if n < 10000 {
        let mut s = digit_str(n / 1000).to_owned();
        s.append(digit_str((n / 100) % 10));
        s.append(digit_str((n / 10) % 10));
        s.append(digit_str(n % 10));
        proof {
            assert(s@ =~= year_magnitude_chars(n as int));
        }
        s
    } else {
        u64_dec(n)
    }
}

/// A year as the banner writes it.
pub fn year_string(y: i32) -> (s: String)
    ensures
        s@ == year_chars(y as int),
{
    if y < 0 {
        let mag: u64 = (-(y as i64)) as u64;
        let mut s = "-".to_owned();
        s.append(year_magnitude(mag).as_str());
        proof {
            reveal_strlit("-");
            assert(s@ =~= year_chars(y as int));
        }
        s
    } else {
        year_magnitude(y as u64)
    }
}

/// The written-out month name of a month number in 1..=12.
pub open spec fn month_name(m: int) -> Seq<char> {
    if m == 1 {
        "January"@
    } else if m == 2 {
        "February"@
    } else if m == 3 {
        "March"@
    } else if m == 4 {
        "April"@
    } else if m == 5 {
        "May"@
    } else if m == 6 {
        "June"@
    } else if m == 7 {
        "July"@
    } else if m == 8 {
        "August"@
    } else if m == 9 {
        "September"@
    } else if m == 10 {
        "October"@
    } else if m == 11 {
        "November"@
    } else {
        "December"@
    }
}

fn month_str(m: u8) -> (r: &'static str)
    requires
        1 <= m <= 12,
    ensures
        r@ == month_name(m as int),
{
    match m {
        1 => "January",
        2 => "February",
        3 => "March",
        4 => "April",
        5 => "May",
        6 => "June",
        7 => "July",
        8 => "August",
        9 => "September",
        10 => "October",
        11 => "November",
        _ => "December",
    }
}

/// The hour on the twelve-hour clock: twelve at midnight and noon.
pub open spec fn hour_on_twelve_clock(h: int) -> int {
    if h % 12 == 0 {
        12
    } else {
        h % 12
    }
}

/// The meridiem mark: hours before noon are AM, noon onward PM.
pub open spec fn meridiem(h: int) -> Seq<char> {
    if h < 12 {
        "AM"@
    } else {
        "PM"@
    }
}

/// The banner's date line for a civil time: month name, zero-padded day,
/// year, then the twelve-hour clock time, the meridiem mark, and the
/// time-zone label.
pub open spec fn date_display(c: CivilDateTime) -> Seq<char> {
    month_name(c.month as int) + " "@ + two_digits(c.day as int) + ", "@ + year_chars(c.year as int)
        + " at "@ + two_digits(hour_on_twelve_clock(c.hour as int)) + ":"@ + two_digits(
        c.minute as int,
    ) + ":"@ + two_digits(c.second as int) + " "@ + meridiem(c.hour as int) + " UTC"@
}

/// Write out a civil time as the banner's date line.
pub fn format_date(c: CivilDateTime) -> (s: String)
    requires
        civil_wf(c),
    ensures
        s@ == date_display(c),
{
    let hour12: u64 = if c.hour % 12 == 0 {
        12
    } else {
        (c.hour % 12) as u64
    };
    let mut s = month_str(c.month).to_owned();
    s.append(" ");
    s.append(pad2(c.day as u64).as_str());
    s.append(", ");
    s.append(year_string(c.year).as_str());
    s.append(" at ");
    s.append(pad2(hour12).as_str());
    s.append(":");
    s.append(pad2(c.minute as u64).as_str());
    s.append(":");
    s.append(pad2(c.second as u64).as_str());
    s.append(" ");
    s.append(if c.hour < 12 {
        "AM"
    } else {
        "PM"
    });
    s.append(" UTC");
    proof {
        assert(s@ =~= date_display(c));
    }
    s
}

/// A millisecond count as seconds with three decimal places.
pub open spec fn seconds_chars(ms: nat) -> Seq<char> {
    dec_digits(ms / 1000) + "."@ + seq![
        digit_char(((ms / 100) % 10) as int),
        digit_char(((ms / 10) % 10) as int),
        digit_char((ms % 10) as int),
    ]
}

/// Write a millisecond count as seconds with three decimal places, as
/// handed to the transcoder's seek and length arguments.
pub fn seconds_string(ms: u64) -> (s: String)
    ensures
        s@ == seconds_chars(ms as nat),
{
    let mut s = u64_dec(ms / 1000);
    s.append(".");
    s.append(digit_str((ms / 100) % 10));
    s.append(digit_str((ms / 10) % 10));
    s.append(digit_str(ms % 10));
    proof {
        assert(s@ =~= seconds_chars(ms as nat));
    }
    s
}

} // verus!

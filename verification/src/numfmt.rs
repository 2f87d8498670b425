use vstd::prelude::*;

verus! {

/// The character for one decimal digit.
pub open spec fn digit_char(d: int) -> char {
    if d == 0 {
        '0'
    } else if d == 1 {
        '1'
    } else if d == 2 {
        '2'
    } else if d == 3 {
        '3'
    } else if d == 4 {
        '4'
    } else if d == 5 {
        '5'
    } else if d == 6 {
        '6'
    } else if d == 7 {
        '7'
    } else if d == 8 {
        '8'
    } else {
        '9'
    }
}

/// The decimal digit string of a non-negative number, most significant first.
pub open spec fn dec_digits(n: int) -> Seq<char>
    decreases n,
{
    if n < 10 {
        seq![digit_char(n)]
    } else {
        dec_digits(n / 10) + seq![digit_char(n % 10)]
    }
}

/// The textual form of a value counted in hundredths, printed with two
/// decimal places: a minus sign for negative values, the whole part, a dot,
/// then exactly two fraction digits.
pub open spec fn spec_hundredths_str(v: int) -> Seq<char> {
    let a = if v < 0 {
        -v
    } else {
        v
    };
    let digits = dec_digits(a / 100) + seq!['.', digit_char((a / 10) % 10), digit_char(a % 10)];
    if v < 0 {
        seq!['-'] + digits
    } else {
        digits
    }
}

fn digit_str(d: u64) -> (r: &'static str)
    requires
        d < 10,
    ensures
        r@ == seq![digit_char(d as int)],
{
    proof {
        reveal_strlit("0");
        reveal_strlit("1");
        reveal_strlit("2");
        reveal_strlit("3");
        reveal_strlit("4");
        reveal_strlit("5");
        reveal_strlit("6");
        reveal_strlit("7");
        reveal_strlit("8");
        reveal_strlit("9");
    }
    if d == 0 {
        "0"
    } else if d == 1 {
        "1"
    } else if d == 2 {
        "2"
    } else if d == 3 {
        "3"
    } else if d == 4 {
        "4"
    } else if d == 5 {
        "5"
    } else if d == 6 {
        "6"
    } else if d == 7 {
        "7"
    } else if d == 8 {
        "8"
    } else {
        "9"
    }
}

/// The decimal digit string of a non-negative number.
pub fn dec_string(n: u64) -> (s: String)
    ensures
        s@ == dec_digits(n as int),
    decreases n,
{
    if n < 10 {
        digit_str(n).to_owned()
    } else {
        let mut s = dec_string(n / 10);
        s.append(digit_str(n % 10));
        s
    }
}

/// Prints a value counted in hundredths with exactly two decimal places,
/// the way slider change events carry their value.
pub fn hundredths_string(v: i64) -> (s: String)
    requires
        v > i64::MIN,
    ensures
        s@ == spec_hundredths_str(v as int),
{
    let a: u64 = if v < 0 {
        (-v) as u64
    } else {
        v as u64
    };
    let mut s: String = if v < 0 {
        proof {
            reveal_strlit("-");
        }
        "-".to_owned()
    } else {
        String::new()
    };
    s.append(dec_string(a / 100).as_str());
    proof {
        reveal_strlit(".");
    }
    s.append(".");
    s.append(digit_str((a / 10) % 10));
    s.append(digit_str(a % 10));
    proof {
        assert(s@ =~= spec_hundredths_str(v as int));
    }
    s
}

} // verus!

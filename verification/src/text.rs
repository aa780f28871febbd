use vstd::prelude::*;
use vstd::string::*;

verus! {

/// The character of a decimal digit.
pub open spec fn digit_char(digit: int) -> char {
    if digit == 0 {
        '0'
    } else if digit == 1 {
        '1'
    } else if digit == 2 {
        '2'
    } else if digit == 3 {
        '3'
    } else if digit == 4 {
        '4'
    } else if digit == 5 {
        '5'
    } else if digit == 6 {
        '6'
    } else if digit == 7 {
        '7'
    } else if digit == 8 {
        '8'
    } else {
        '9'
    }
}

/// The decimal digits of a natural number, without leading zeros.
pub open spec fn decimal(n: nat) -> Seq<char>
    decreases n,
{
    if n < 10 {
        seq![digit_char(n as int)]
    } else {
        decimal(n / 10).push(digit_char((n % 10) as int))
    }
}

/// The decimal digits of a whole number, with a minus sign before a negative one.
pub open spec fn signed_decimal(n: int) -> Seq<char> {
    if n < 0 {
        seq!['-'] + decimal((-n) as nat)
    } else {
        decimal(n as nat)
    }
}

/// `count` zeros.
pub open spec fn zeros(count: nat) -> Seq<char> {
    Seq::new(count, |i: int| '0')
}

/// The decimal digits of a natural number, with zeros in front up to `width` characters.
pub open spec fn zero_padded(n: nat, width: nat) -> Seq<char> {
    if decimal(n).len() >= width {
        decimal(n)
    } else {
        zeros((width - decimal(n).len()) as nat) + decimal(n)
    }
}

/// Appends one decimal digit.
fn push_digit(out: &mut String, digit: u32)
    requires
        digit < 10,
    ensures
        final(out)@ == old(out)@.push(digit_char(digit as int)),
{
    proof {
        reveal_strlit("0");
        reveal_strlit("1");
        reveal_strlit("2");
        reveal_strlit("3");
        reveal_strlit("4");
        reveal_strlit("5");
        reveal_strlit("6");
        reveal_strlit("7");
        reveal_strlit("8");
        reveal_strlit("9");
    }
    let text: &str = if digit == 0 {
        "0"
    } else if digit == 1 {
        "1"
    } else if digit == 2 {
        "2"
    } else if digit == 3 {
        "3"
    } else if digit == 4 {
        "4"
    } else if digit == 5 {
        "5"
    } else if digit == 6 {
        "6"
    } else if digit == 7 {
        "7"
    } else if digit == 8 {
        "8"
    } else {
        "9"
    };
    out.append(text);
}

/// Appends the decimal digits of a number.
pub fn push_decimal(out: &mut String, n: u32)
    ensures
        final(out)@ == old(out)@ + decimal(n as nat),
    decreases n,
{
    if n >= 10 {
        push_decimal(out, n / 10);
    }
    push_digit(out, n % 10);
}

/// Appends the decimal digits of a whole number, with a minus sign before a negative one.
pub fn push_signed_decimal(out: &mut String, n: i32)
    ensures
        final(out)@ == old(out)@ + signed_decimal(n as int),
{
    if n < 0 {
        proof {
            reveal_strlit("-");
        }
        out.append("-");
        let magnitude: u32 = if n == i32::MIN {
            2147483648
        } else {
            (-n) as u32
        };
        push_decimal(out, magnitude);
    } else {
        push_decimal(out, n as u32);
    }
}

/// The number of decimal digits of a number.
fn digit_count(n: u32) -> (result: u64)
    ensures
        result == decimal(n as nat).len(),
{
    let mut count: u64 = 1;
    let mut rest: u32 = n;
    while rest >= 10
        invariant
            1 <= count,
            count + rest <= n + 1,
            decimal(n as nat).len() == decimal(rest as nat).len() + count - 1,
        decreases rest,
    {
        rest = rest / 10;
        count = count + 1;
    }
    count
}

/// Appends the decimal digits of a number, with zeros in front up to `width` characters.
pub fn push_zero_padded(out: &mut String, n: u32, width: u32)
    ensures
        final(out)@ == old(out)@ + zero_padded(n as nat, width as nat),
{
    let digits = digit_count(n);
    let mut written: u64 = digits;
    proof {
        reveal_strlit("0");
    }
    while written < width as u64
        invariant
            digits <= written,
            digits == decimal(n as nat).len(),
            written <= width || written == digits,
            out@ == old(out)@ + zeros((written - digits) as nat),
            "0"@ == seq!['0'],
        decreases width - written,
    {
        out.append("0");
        written = written + 1;
    }
    push_decimal(out, n);
}

} // verus!

//! Text that the library puts together: decimal and hexadecimal numbers.
use vstd::prelude::*;
use vstd::string::*;

verus! {

/// The character of one decimal or hexadecimal digit.
pub open spec fn digit(d: int) -> char {
    if d < 10 {
        (48 + d) as char
    } else {
        (87 + d) as char
    }
}

/// `n` in decimal, without leading zeros.
pub open spec fn decimal(n: nat) -> Seq<char>
    decreases n,
{
    if n < 10 {
        seq![digit(n as int)]
    } else {
        decimal(n / 10).push(digit((n % 10) as int))
    }
}

/// `bytes` in lower case hexadecimal, two digits for each byte.
pub open spec fn hexadecimal(bytes: Seq<u8>) -> Seq<char> {
    Seq::new(
        2 * bytes.len(),
        |i: int|
            if i % 2 == 0 {
                digit(bytes[i / 2] as int / 16)
            } else {
                digit(bytes[i / 2] as int % 16)
            },
    )
}

/// One decimal digit as text.
fn digit_text(d: u64) -> (r: &'static str)
    requires
        d < 10,
    ensures
        r@ == seq![digit(d as int)],
{
    proof {
        reveal_strlit("0");
        reveal_strlit("1");
        reveal_strlit("2");
        reveal_strlit("3");
        reveal_strlit("4");
        reveal_strlit("5");
        reveal_strlit("6");
        reveal_strlit("7");
        reveal_strlit("8");
        reveal_strlit("9");
    }
    let r: &'static str = match d {
        0 => "0",
        1 => "1",
        2 => "2",
        3 => "3",
        4 => "4",
        5 => "5",
        6 => "6",
        7 => "7",
        8 => "8",
        _ => "9",
    };
    assert(r@ =~= seq![digit(d as int)]);
    r
}

/// `n` in decimal.
pub fn decimal_text(n: u64) -> (r: String)
    ensures
        r@ == decimal(n as nat),
    decreases n,
{
    if n < 10 {
        let r: String = digit_text(n).to_string();
        r
    } else {
        let mut r: String = decimal_text(n / 10);
        r.append(digit_text(n % 10));
        assert(r@ =~= decimal(n as nat));
        r
    }
}

} // verus!

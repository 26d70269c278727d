use vstd::prelude::*;
use vstd::string::StringExecFns;

verus! {

/// The character for one digit value below 16 (lower case for 10..15).
pub open spec fn spec_digit(d: nat) -> char {
    if d == 0 {
        '0'
    } else if d == 1 {
        '1'
    } else if d == 2 {
        '2'
    } else if d == 3 {
        '3'
    } else if d == 4 {
        '4'
    } else if d == 5 {
        '5'
    } else if d == 6 {
        '6'
    } else if d == 7 {
        '7'
    } else if d == 8 {
        '8'
    } else if d == 9 {
        '9'
    } else if d == 10 {
        'a'
    } else if d == 11 {
        'b'
    } else if d == 12 {
        'c'
    } else if d == 13 {
        'd'
    } else if d == 14 {
        'e'
    } else {
        'f'
    }
}

/// The decimal digits of `n`, most significant first, no leading zeros
/// (a single `'0'` for zero).
pub open spec fn spec_dec(n: nat) -> Seq<char>
    decreases n,
{
    if n < 10 {
        seq![spec_digit(n)]
    } else {
        spec_dec(n / 10) + seq![spec_digit(n % 10)]
    }
}

/// The hexadecimal digits of `n`, most significant first, no leading
/// zeros and no prefix.
pub open spec fn spec_hex(n: nat) -> Seq<char>
    decreases n,
{
    if n < 16 {
        seq![spec_digit(n)]
    } else {
        spec_hex(n / 16) + seq![spec_digit(n % 16)]
    }
}

/// The decimal digits of `k` with a leading minus sign when negative.
pub open spec fn spec_dec_signed(k: int) -> Seq<char> {
    if k < 0 {
        seq!['-'] + spec_dec((-k) as nat)
    } else {
        spec_dec(k as nat)
    }
}

/// The one-character string for a digit value below 16.
fn digit_str(d: u8) -> (r: &'static str)
    requires
        d < 16,
    ensures
        r@ == seq![spec_digit(d as nat)],
{
    if d == 0 {
        proof {
            reveal_strlit("0");
            assert("0"@ =~= seq![spec_digit(d as nat)]);
        }
        return "0";
    }
    if d == 1 {
        proof {
            reveal_strlit("1");
            assert("1"@ =~= seq![spec_digit(d as nat)]);
        }
        return "1";
    }
    if d == 2 {
        proof {
            reveal_strlit("2");
            assert("2"@ =~= seq![spec_digit(d as nat)]);
        }
        return "2";
    }
    if d == 3 {
        proof {
            reveal_strlit("3");
            assert("3"@ =~= seq![spec_digit(d as nat)]);
        }
        return "3";
    }
    if d == 4 {
        proof {
            reveal_strlit("4");
            assert("4"@ =~= seq![spec_digit(d as nat)]);
        }
        return "4";
    }
    if d == 5 {
        proof {
            reveal_strlit("5");
            assert("5"@ =~= seq![spec_digit(d as nat)]);
        }
        return "5";
    }
    if d == 6 {
        proof {
            reveal_strlit("6");
            assert("6"@ =~= seq![spec_digit(d as nat)]);
        }
        return "6";
    }
    if d == 7 {
        proof {
            reveal_strlit("7");
            assert("7"@ =~= seq![spec_digit(d as nat)]);
        }
        return "7";
    }
    if d == 8 {
        proof {
            reveal_strlit("8");
            assert("8"@ =~= seq![spec_digit(d as nat)]);
        }
        return "8";
    }
    if d == 9 {
        proof {
            reveal_strlit("9");
            assert("9"@ =~= seq![spec_digit(d as nat)]);
        }
        return "9";
    }
    if d == 10 {
        proof {
            reveal_strlit("a");
            assert("a"@ =~= seq![spec_digit(d as nat)]);
        }
        return "a";
    }
    if d == 11 {
        proof {
            reveal_strlit("b");
            assert("b"@ =~= seq![spec_digit(d as nat)]);
        }
        return "b";
    }
    if d == 12 {
        proof {
            reveal_strlit("c");
            assert("c"@ =~= seq![spec_digit(d as nat)]);
        }
        return "c";
    }
    if d == 13 {
        proof {
            reveal_strlit("d");
            assert("d"@ =~= seq![spec_digit(d as nat)]);
        }
        return "d";
    }
    if d == 14 {
        proof {
            reveal_strlit("e");
            assert("e"@ =~= seq![spec_digit(d as nat)]);
        }
        return "e";
    }
    proof {
        reveal_strlit("f");
        assert("f"@ =~= seq![spec_digit(d as nat)]);
    }
    "f"
}

/// Renders `n` in decimal.
pub fn dec_str_u16(n: u16) -> (s: String)
    ensures
        s@ == spec_dec(n as nat),
    decreases n,
{
    if n < 10 {
        digit_str(n as u8).to_owned()
    } else {
        let front = dec_str_u16(n / 10);
        front.concat(digit_str((n % 10) as u8))
    }
}

/// Renders `n` in hexadecimal, without a prefix.
pub fn hex_str_u32(n: u32) -> (s: String)
    ensures
        s@ == spec_hex(n as nat),
    decreases n,
{
    if n < 16 {
        digit_str(n as u8).to_owned()
    } else {
        let front = hex_str_u32(n / 16);
        front.concat(digit_str((n % 16) as u8))
    }
}

/// Renders `k` in decimal, with a minus sign when negative.
pub fn dec_str_i16(k: i16) -> (s: String)
    ensures
        s@ == spec_dec_signed(k as int),
{
    if k < 0 {
        let magnitude: u16 = (-(k as i32)) as u16;
        let sign = "-".to_owned();
        proof {
            reveal_strlit("-");
            assert("-"@ =~= seq!['-']);
        }
        sign.concat(dec_str_u16(magnitude).as_str())
    } else {
        dec_str_u16(k as u16)
    }
}

} // verus!

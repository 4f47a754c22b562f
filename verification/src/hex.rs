use vstd::prelude::*;

verus! {

/// The upper-case character for one hexadecimal digit value.
pub open spec fn hex_digit(n: int) -> char {
    if n == 0x0 {
        '0'
    } else if n == 0x1 {
        '1'
    } else if n == 0x2 {
        '2'
    } else if n == 0x3 {
        '3'
    } else if n == 0x4 {
        '4'
    } else if n == 0x5 {
        '5'
    } else if n == 0x6 {
        '6'
    } else if n == 0x7 {
        '7'
    } else if n == 0x8 {
        '8'
    } else if n == 0x9 {
        '9'
    } else if n == 0xA {
        'A'
    } else if n == 0xB {
        'B'
    } else if n == 0xC {
        'C'
    } else if n == 0xD {
        'D'
    } else if n == 0xE {
        'E'
    } else {
        'F'
    }
}

/// One hex digit: the text of a 4-bit value (a register index or a nibble
/// operand).
pub open spec fn hex1(n: int) -> Seq<char> {
    seq![hex_digit(n % 0x10)]
}

/// Two hex digits, zero padded: the text of a byte operand.
pub open spec fn hex2(n: int) -> Seq<char> {
    seq![hex_digit((n / 0x10) % 0x10), hex_digit(n % 0x10)]
}

/// Three hex digits, zero padded: the text of a 12-bit address operand.
pub open spec fn hex3(n: int) -> Seq<char> {
    seq![hex_digit((n / 0x100) % 0x10), hex_digit((n / 0x10) % 0x10), hex_digit(n % 0x10)]
}

/// Minimal-width hexadecimal of `n`: no leading zeroes, at least one digit.
/// Used for the memory-address labels, which carry no fixed width.
pub open spec fn hex_min(n: nat) -> Seq<char>
    decreases n,
{
    if n < 0x10 {
        seq![hex_digit(n as int)]
    } else {
        hex_min(n / 0x10).push(hex_digit(n as int % 0x10))
    }
}

/// The text of one hex digit value.
pub fn hex_digit_str(n: u8) -> (r: &'static str)
    requires
        n < 0x10,
    ensures
        r@ == seq![hex_digit(n as int)],
{
    match n {
        0x0 => {
            proof {
                reveal_strlit("0");
                assert("0"@ =~= seq![hex_digit(0x0)]);
            }
            "0"
        },
        0x1 => {
            proof {
                reveal_strlit("1");
                assert("1"@ =~= seq![hex_digit(0x1)]);
            }
            "1"
        },
        0x2 => {
            proof {
                reveal_strlit("2");
                assert("2"@ =~= seq![hex_digit(0x2)]);
            }
            "2"
        },
        0x3 => {
            proof {
                reveal_strlit("3");
                assert("3"@ =~= seq![hex_digit(0x3)]);
            }
            "3"
        },
        0x4 => {
            proof {
                reveal_strlit("4");
                assert("4"@ =~= seq![hex_digit(0x4)]);
            }
            "4"
        },
        0x5 => {
            proof {
                reveal_strlit("5");
                assert("5"@ =~= seq![hex_digit(0x5)]);
            }
            "5"
        },
        0x6 => {
            proof {
                reveal_strlit("6");
                assert("6"@ =~= seq![hex_digit(0x6)]);
            }
            "6"
        },
        0x7 => {
            proof {
                reveal_strlit("7");
                assert("7"@ =~= seq![hex_digit(0x7)]);
            }
            "7"
        },
        0x8 => {
            proof {
                reveal_strlit("8");
                assert("8"@ =~= seq![hex_digit(0x8)]);
            }
            "8"
        },
        0x9 => {
            proof {
                reveal_strlit("9");
                assert("9"@ =~= seq![hex_digit(0x9)]);
            }
            "9"
        },
        0xA => {
            proof {
                reveal_strlit("A");
                assert("A"@ =~= seq![hex_digit(0xA)]);
            }
            "A"
        },
        0xB => {
            proof {
                reveal_strlit("B");
                assert("B"@ =~= seq![hex_digit(0xB)]);
            }
            "B"
        },
        0xC => {
            proof {
                reveal_strlit("C");
                assert("C"@ =~= seq![hex_digit(0xC)]);
            }
            "C"
        },
        0xD => {
            proof {
                reveal_strlit("D");
                assert("D"@ =~= seq![hex_digit(0xD)]);
            }
            "D"
        },
        0xE => {
            proof {
                reveal_strlit("E");
                assert("E"@ =~= seq![hex_digit(0xE)]);
            }
            "E"
        },
        _ => {
            proof {
                reveal_strlit("F");
                assert("F"@ =~= seq![hex_digit(0xF)]);
            }
            "F"
        },
    }
}

/// Append one hex digit of a 4-bit value to `out`.
pub fn push_hex1(out: &mut String, n: u8)
    requires
        n < 0x10,
    ensures
        final(out)@ == old(out)@ + hex1(n as int),
{
    out.append(hex_digit_str(n));
    assert(final(out)@ =~= old(out)@ + hex1(n as int));
}

/// Append a byte value as two zero-padded hex digits to `out`.
pub fn push_hex2(out: &mut String, n: u8)
    ensures
        final(out)@ == old(out)@ + hex2(n as int),
{
    out.append(hex_digit_str(n / 0x10));
    out.append(hex_digit_str(n % 0x10));
    assert(final(out)@ =~= old(out)@ + hex2(n as int));
}

/// Append a 12-bit value as three zero-padded hex digits to `out`.
pub fn push_hex3(out: &mut String, n: u16)
    requires
        n < 0x1000,
    ensures
        final(out)@ == old(out)@ + hex3(n as int),
{
    out.append(hex_digit_str((n / 0x100) as u8));
    out.append(hex_digit_str(((n / 0x10) % 0x10) as u8));
    out.append(hex_digit_str((n % 0x10) as u8));
    assert(final(out)@ =~= old(out)@ + hex3(n as int));
}

/// Append the minimal-width hexadecimal of `n` to `out`.
pub fn push_hex_min(out: &mut String, n: u64)
    ensures
        final(out)@ == old(out)@ + hex_min(n as nat),
    decreases n,
{
    if n < 0x10 {
        out.append(hex_digit_str(n as u8));
        assert(final(out)@ =~= old(out)@ + hex_min(n as nat));
    } else {
        push_hex_min(out, n / 0x10);
        out.append(hex_digit_str((n % 0x10) as u8));
        assert(final(out)@ =~= old(out)@ + hex_min(n as nat));
    }
}

} // verus!

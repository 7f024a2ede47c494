//! Decimal and hexadecimal text, and the line logged for each admitted
//! process.

use vstd::prelude::*;

verus! {

/// The lower-case hexadecimal digit for `d < 16`.
pub open spec fn hex_char(d: nat) -> char {
    if d < 10 {
        (('0' as u8) + d) as char
    } else {
        (('a' as u8) + (d - 10)) as char
    }
}

/// Decimal digits of `n`, most significant first, without leading zeros.
pub open spec fn dec_digits(n: nat) -> Seq<char>
    decreases n,
{
    if n < 10 {
        seq![hex_char(n)]
    } else {
        dec_digits(n / 10).push(hex_char(n % 10))
    }
}

/// The last `width` hexadecimal digits of `n`, zero-padded.
pub open spec fn hex_digits(n: nat, width: nat) -> Seq<char>
    decreases width,
{
    if width == 0 {
        seq![]
    } else {
        hex_digits(n / 16, (width - 1) as nat).push(hex_char(n % 16))
    }
}

fn digit_str(d: u32) -> (r: &'static str)
    requires
        d < 16,
    ensures
        r@ == seq![hex_char(d as nat)],
{
    proof {
        reveal_strlit("0");
        reveal_strlit("1");
        reveal_strlit("2");
        reveal_strlit("3");
        reveal_strlit("4");
        reveal_strlit("5");
        reveal_strlit("6");
        reveal_strlit("7");
        reveal_strlit("8");
        reveal_strlit("9");
        reveal_strlit("a");
        reveal_strlit("b");
        reveal_strlit("c");
        reveal_strlit("d");
        reveal_strlit("e");
        reveal_strlit("f");
    }
    let r = match d {
        0 => "0",
        1 => "1",
        2 => "2",
        3 => "3",
        4 => "4",
        5 => "5",
        6 => "6",
        7 => "7",
        8 => "8",
        9 => "9",
        10 => "a",
        11 => "b",
        12 => "c",
        13 => "d",
        14 => "e",
        _ => "f",
    };
    assert(r@ =~= seq![hex_char(d as nat)]);
    r
}

/// Appends `n` in decimal.
pub fn push_decimal(s: &mut String, n: u32)
    ensures
        final(s)@ == old(s)@ + dec_digits(n as nat),
    decreases n,
{
    if n >= 10 {
        push_decimal(s, n / 10);
    }
    s.append(digit_str(n % 10));
    assert(final(s)@ =~= old(s)@ + dec_digits(n as nat));
}

/// Appends the last `width` hexadecimal digits of `n`, zero-padded.
pub fn push_hex(s: &mut String, n: u32, width: u32)
    ensures
        final(s)@ == old(s)@ + hex_digits(n as nat, width as nat),
    decreases width,
{
    if width > 0 {
        push_hex(s, n / 16, width - 1);
        s.append(digit_str(n % 16));
    }
    assert(final(s)@ =~= old(s)@ + hex_digits(n as nat, width as nat));
}

/// The line announcing that slot `proc_num` holds process `name`, whose code
/// starts at `text_addr`.
pub open spec fn hook_line(proc_num: nat, name: Seq<char>, text_addr: nat) -> Seq<char> {
    "Loading app "@ + dec_digits(proc_num) + ": name \""@ + name + "\", `.text` 0x"@
        + hex_digits(text_addr, 8)
}

/// Formats the line logged for each admitted process, so that a debugger can
/// match the process to its symbols.
pub fn load_process_hook(proc_num: u32, name: &str, text_addr: u32) -> (r: String)
    ensures
        r@ == hook_line(proc_num as nat, name@, text_addr as nat),
{
    let mut s = String::from_str("Loading app ");
    push_decimal(&mut s, proc_num);
    s.append(": name \"");
    s.append(name);
    s.append("\", `.text` 0x");
    push_hex(&mut s, text_addr, 8);
    s
}

} // verus!

use vstd::prelude::*;

use crate::names::{command_name, command_set_to_name, command_to_name, set_name};

verus! {

/// Size in bytes of the fixed prefix of every framed message.
pub const HEADER_LEN: usize = 11;

/// The `flags` value that marks a reply.
pub const REPLY_FLAG: u8 = 0x80;

/// Unsigned big-endian value of four bytes.
pub open spec fn be32(a: u8, b: u8, c: u8, d: u8) -> nat {
    a as nat * 16777216 + b as nat * 65536 + c as nat * 256 + d as nat
}

/// Unsigned big-endian value of two bytes.
pub open spec fn be16(a: u8, b: u8) -> nat {
    a as nat * 256 + b as nat
}

/// The `length` field: total size of the message, header included.
pub open spec fn length_of(h: Seq<u8>) -> nat {
    be32(h[0], h[1], h[2], h[3])
}

/// The `id` field, a correlation identifier.
pub open spec fn id_of(h: Seq<u8>) -> nat {
    be32(h[4], h[5], h[6], h[7])
}

/// Whether the header belongs to a reply rather than a command.
pub open spec fn is_reply(h: Seq<u8>) -> bool {
    h[8] == REPLY_FLAG
}

/// The error code of a reply.
pub open spec fn error_of(h: Seq<u8>) -> nat {
    be16(h[9], h[10])
}

/// The character for a decimal digit.
pub open spec fn digit_char(d: nat) -> char {
    if d == 0 {
        '0'
    } else if d == 1 {
        '1'
    } else if d == 2 {
        '2'
    } else if d == 3 {
        '3'
    } else if d == 4 {
        '4'
    } else if d == 5 {
        '5'
    } else if d == 6 {
        '6'
    } else if d == 7 {
        '7'
    } else if d == 8 {
        '8'
    } else {
        '9'
    }
}

/// Decimal notation of a natural number, without leading zeros.
pub open spec fn decimal(n: nat) -> Seq<char>
    decreases n,
{
    if n < 10 {
        seq![digit_char(n)]
    } else {
        decimal(n / 10) + seq![digit_char(n % 10)]
    }
}

/// `s` followed by spaces up to a total of `width` characters.
pub open spec fn pad_right(s: Seq<char>, width: nat) -> Seq<char> {
    if s.len() < width {
        s + Seq::new((width - s.len()) as nat, |i: int| ' ')
    } else {
        s
    }
}

/// The aligned length and id columns that open every display line.
pub open spec fn columns(h: Seq<u8>) -> Seq<char> {
    "length = "@ + pad_right(decimal(length_of(h)), 5) + "| id = "@ + pad_right(decimal(id_of(h)), 4)
}

/// The display line for a header: length and id in aligned columns, then
/// the error code of a reply or the names of a command.
pub open spec fn render(h: Seq<u8>) -> Seq<char> {
    columns(h) + if is_reply(h) {
        "| error = "@ + decimal(error_of(h))
    } else {
        "| command = "@ + set_name(h[9]) + "."@ + command_name(h[9], h[10])
    }
}

/// The `length` field of a header.
pub fn frame_length(header: &[u8; 11]) -> (r: u32)
    ensures
        r as nat == length_of(header@),
{
    let r = read_be32(header[0], header[1], header[2], header[3]);
    r
}

fn read_be32(a: u8, b: u8, c: u8, d: u8) -> (r: u32)
    ensures
        r as nat == be32(a, b, c, d),
{
    proof {
        assert(a as nat * 16777216 <= 255 * 16777216) by (nonlinear_arith)
            requires
                a <= 255,
        ;
        assert(b as nat * 65536 <= 255 * 65536) by (nonlinear_arith)
            requires
                b <= 255,
        ;
        assert(c as nat * 256 <= 255 * 256) by (nonlinear_arith)
            requires
                c <= 255,
        ;
    }
    a as u32 * 16777216 + b as u32 * 65536 + c as u32 * 256 + d as u32
}

fn read_be16(a: u8, b: u8) -> (r: u32)
    ensures
        r as nat == be16(a, b),
{
    a as u32 * 256 + b as u32
}

fn digit_str(d: u32) -> (r: &'static str)
    requires
        d < 10,
    ensures
        r@ == seq![digit_char(d as nat)],
{
    proof {
        reveal_strlit("0");
        reveal_strlit("1");
        reveal_strlit("2");
        reveal_strlit("3");
        reveal_strlit("4");
        reveal_strlit("5");
        reveal_strlit("6");
        reveal_strlit("7");
        reveal_strlit("8");
        reveal_strlit("9");
    }
    match d {
        0 => "0",
        1 => "1",
        2 => "2",
        3 => "3",
        4 => "4",
        5 => "5",
        6 => "6",
        7 => "7",
        8 => "8",
        _ => "9",
    }
}

fn decimal_len(n: u32) -> (r: usize)
    ensures
        r as nat == decimal(n as nat).len(),
        r <= n as int + 1,
    decreases n,
{
    if n < 10 {
        1
    } else {
        let k = decimal_len(n / 10);
        k + 1
    }
}

fn push_decimal(s: &mut String, n: u32)
    ensures
        final(s)@ == old(s)@ + decimal(n as nat),
    decreases n,
{
    if n >= 10 {
        push_decimal(s, n / 10);
    }
    s.append(digit_str(n % 10));
    proof {
        if n < 10 {
            assert(decimal(n as nat) == seq![digit_char(n as nat)]);
        } else {
            assert(decimal(n as nat) == decimal(n as nat / 10) + seq![digit_char(n as nat % 10)]);
        }
    }
    assert(s@ =~= old(s)@ + decimal(n as nat));
}

fn push_padded_decimal(s: &mut String, n: u32, width: usize)
    ensures
        final(s)@ == old(s)@ + pad_right(decimal(n as nat), width as nat),
{
    let ghost start = s@;
    push_decimal(s, n);
    let digits = decimal_len(n);
    let mut k: usize = digits;
    proof {
        reveal_strlit(" ");
    }
    while k < width
        invariant
            digits as nat == decimal(n as nat).len(),
            " "@ == seq![' '],
            digits <= k,
            k <= width || k == digits,
            s@ == start + decimal(n as nat) + Seq::new((k - digits) as nat, |i: int| ' '),
        decreases width - k,
    {
        s.append(" ");
        k = k + 1;
        assert(s@ =~= start + decimal(n as nat) + Seq::new((k - digits) as nat, |i: int| ' '));
    }
    assert(s@ =~= start + pad_right(decimal(n as nat), width as nat));
}

/// The display line for a message header.
pub fn header_to_string(header: &[u8; 11]) -> (r: String)
    ensures
        r@ == render(header@),
{
    let len = read_be32(header[0], header[1], header[2], header[3]);
    let id = read_be32(header[4], header[5], header[6], header[7]);
    let mut s = String::new();
    s.append("length = ");
    push_padded_decimal(&mut s, len, 5);
    s.append("| id = ");
    push_padded_decimal(&mut s, id, 4);
    let ghost prefix = s@;
    if header[8] == REPLY_FLAG {
        let error = read_be16(header[9], header[10]);
        s.append("| error = ");
        push_decimal(&mut s, error);
    } else {
        let command_set = header[9];
        let command = header[10];
        s.append("| command = ");
        s.append(command_set_to_name(command_set));
        s.append(".");
        s.append(command_to_name(command_set, command));
    }
    assert(s@ =~= render(header@));
    s
}

} // verus!

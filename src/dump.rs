use vstd::prelude::*;

verus! {

/// Position from which a dump is cut off.
pub const DUMP_LIMIT: usize = 80;

/// Number of bytes per line of a dump.
pub const DUMP_WIDTH: usize = 20;

/// The lower-case hexadecimal character for a value below sixteen.
pub open spec fn hex_char(d: nat) -> char {
    if d < 10 {
        crate::header::digit_char(d)
    } else if d == 10 {
        'a'
    } else if d == 11 {
        'b'
    } else if d == 12 {
        'c'
    } else if d == 13 {
        'd'
    } else if d == 14 {
        'e'
    } else {
        'f'
    }
}

/// A byte as two hexadecimal digits and a separating space.
pub open spec fn hex_cell(b: u8) -> Seq<char> {
    seq![hex_char(b as nat / 16), hex_char(b as nat % 16), ' ']
}

/// The dump of `bytes` from index `i` on, where index 0 stands at
/// position `start` of the message: a line break before every twentieth
/// position, and a truncation mark in place of position eighty and all
/// that follows.
pub open spec fn dump_from(bytes: Seq<u8>, i: nat, start: nat) -> Seq<char>
    decreases bytes.len() - i,
{
    if i >= bytes.len() {
        Seq::empty()
    } else if i + start == DUMP_LIMIT as nat {
        "\n[truncated]\n"@
    } else {
        let pos = i + start;
        (if pos % (DUMP_WIDTH as nat) == 0 && pos > 0 {
            "\n"@
        } else {
            Seq::empty()
        }) + hex_cell(bytes[i as int]) + dump_from(bytes, i + 1, start)
    }
}

/// Whether a dump of `len` bytes from `start` reaches the cut-off.
pub open spec fn is_truncated(len: nat, start: nat) -> bool {
    start <= DUMP_LIMIT as nat && (DUMP_LIMIT as nat) < start + len
}

/// The dump of a header (no start, no closing line break) or of a body
/// that follows at a given start position (closed by a line break unless
/// cut off).
pub open spec fn hex_dump_spec(bytes: Seq<u8>, start: Option<usize>) -> Seq<char> {
    let s: nat = match start {
        Some(p) => p as nat,
        None => 0,
    };
    dump_from(bytes, 0, s) + if start is Some && !is_truncated(bytes.len(), s) {
        "\n"@
    } else {
        Seq::empty()
    }
}

fn hex_str(d: u8) -> (r: &'static str)
    requires
        d < 16,
    ensures
        r@ == seq![hex_char(d as nat)],
{
    proof {
        reveal_strlit("0");
        reveal_strlit("1");
        reveal_strlit("2");
        reveal_strlit("3");
        reveal_strlit("4");
        reveal_strlit("5");
        reveal_strlit("6");
        reveal_strlit("7");
        reveal_strlit("8");
        reveal_strlit("9");
        reveal_strlit("a");
        reveal_strlit("b");
        reveal_strlit("c");
        reveal_strlit("d");
        reveal_strlit("e");
        reveal_strlit("f");
    }
    match d {
        0 => "0",
        1 => "1",
        2 => "2",
        3 => "3",
        4 => "4",
        5 => "5",
        6 => "6",
        7 => "7",
        8 => "8",
        9 => "9",
        10 => "a",
        11 => "b",
        12 => "c",
        13 => "d",
        14 => "e",
        _ => "f",
    }
}

/// Text of a hex dump of `bytes`; `start` is the position of the first
/// byte within its message when the bytes are a body.
pub fn hex_dump(bytes: &[u8], start: Option<usize>) -> (r: String)
    requires
        bytes@.len() + match start {
            Some(p) => p as int,
            None => 0,
        } <= usize::MAX,
    ensures
        r@ == hex_dump_spec(bytes@, start),
{
    let offset: usize = match start {
        Some(p) => p,
        None => 0,
    };
    let ghost s = offset as nat;
    let mut out = String::new();
    let mut i: usize = 0;
    proof {
        reveal_strlit("\n");
        reveal_strlit(" ");
    }
    while i < bytes.len()
        invariant
            i <= bytes@.len(),
            bytes@.len() + offset <= usize::MAX,
            s == offset as nat,
            s == match start {
                Some(p) => p as nat,
                None => 0nat,
            },
            " "@ == seq![' '],
            "\n"@ == seq!['\n'],
            out@ + dump_from(bytes@, i as nat, s) == dump_from(bytes@, 0, s),
            i + offset <= DUMP_LIMIT || !is_truncated(bytes@.len(), s),
        decreases bytes.len() - i,
    {
        let pos = i + offset;
        if pos == DUMP_LIMIT {
            out.append("\n[truncated]\n");
            assert(out@ =~= dump_from(bytes@, 0, s));
            assert(is_truncated(bytes@.len(), s));
            assert(out@ =~= hex_dump_spec(bytes@, start));
            return out;
        }
        let ghost before = out@;
        if pos % DUMP_WIDTH == 0 && pos > 0 {
            out.append("\n");
        }
        let b = bytes[i];
        out.append(hex_str(b / 16));
        out.append(hex_str(b % 16));
        out.append(" ");
        assert(out@ =~= before + (if pos as nat % (DUMP_WIDTH as nat) == 0 && pos > 0 {
            "\n"@
        } else {
            Seq::empty()
        }) + hex_cell(b));
        i = i + 1;
        assert(out@ + dump_from(bytes@, i as nat, s) =~= dump_from(bytes@, 0, s));
    }
    assert(dump_from(bytes@, i as nat, s) =~= Seq::<char>::empty());
    assert(out@ =~= dump_from(bytes@, 0, s));
    if start.is_some() {
        out.append("\n");
    }
    out
}

} // verus!

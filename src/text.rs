//! Number and byte formatting, each stated over `Seq<char>`.
use vstd::prelude::*;

verus! {

/// The sixteen digit characters, lowercase.
pub open spec fn digit_chars() -> Seq<char> {
    "0123456789abcdef"@
}

/// The digit character for `d` (below 16).
pub open spec fn digit_char(d: nat) -> char {
    digit_chars()[d as int]
}

/// Lowercase hexadecimal representation of `n`, without padding.
pub open spec fn hex_of(n: nat) -> Seq<char>
    decreases n,
{
    if n < 16 {
        seq![digit_char(n)]
    } else {
        hex_of(n / 16).push(digit_char(n % 16))
    }
}

/// Decimal representation of `n`, without padding.
pub open spec fn dec_of(n: nat) -> Seq<char>
    decreases n,
{
    if n < 10 {
        seq![digit_char(n)]
    } else {
        dec_of(n / 10).push(digit_char(n % 10))
    }
}

/// The parts in order, with `sep` between each two neighbours.
pub open spec fn join(parts: Seq<Seq<char>>, sep: Seq<char>) -> Seq<char>
    decreases parts.len(),
{
    if parts.len() == 0 {
        Seq::empty()
    } else if parts.len() == 1 {
        parts[0]
    } else {
        join(parts.drop_last(), sep) + sep + parts.last()
    }
}

/// A byte as exactly two lowercase hexadecimal digits.
pub open spec fn byte_hex(b: u8) -> Seq<char> {
    seq![digit_char(b as nat / 16), digit_char(b as nat % 16)]
}

/// Bytes as two-digit hex pairs separated by single spaces.
pub open spec fn runtime_bytes(bytes: Seq<u8>) -> Seq<char> {
    join(bytes.map_values(|b: u8| byte_hex(b)), " "@)
}

/// Bytes as `0x`-prefixed two-digit tokens separated by `", "`.
pub open spec fn compiletime_bytes(bytes: Seq<u8>) -> Seq<char> {
    join(bytes.map_values(|b: u8| "0x"@ + byte_hex(b)), ", "@)
}

/// Appends the digit character for `d`.
fn push_digit(s: &mut String, d: u8)
    requires
        d < 16,
    ensures
        final(s)@ == old(s)@.push(digit_char(d as nat)),
{
    let digits = "0123456789abcdef";
    proof {
        reveal_strlit("0123456789abcdef");
    }
    let one = digits.substring_char(d as usize, d as usize + 1);
    assert(one@ =~= seq![digit_char(d as nat)]);
    s.append(one);
}

/// Appends the hexadecimal representation of `n`.
pub fn push_hex(s: &mut String, n: u32)
    ensures
        final(s)@ == old(s)@ + hex_of(n as nat),
    decreases n,
{
    if n >= 16 {
        push_hex(s, n / 16);
    }
    push_digit(s, (n % 16) as u8);
    assert(final(s)@ =~= old(s)@ + hex_of(n as nat));
}

/// Appends the decimal representation of `n`.
pub fn push_dec(s: &mut String, n: u64)
    ensures
        final(s)@ == old(s)@ + dec_of(n as nat),
    decreases n,
{
    if n >= 10 {
        push_dec(s, n / 10);
    }
    push_digit(s, (n % 10) as u8);
    assert(final(s)@ =~= old(s)@ + dec_of(n as nat));
}

/// Appends one byte as two hexadecimal digits.
fn push_byte_hex(s: &mut String, b: u8)
    ensures
        final(s)@ == old(s)@ + byte_hex(b),
{
    push_digit(s, b / 16);
    push_digit(s, b % 16);
    assert(final(s)@ =~= old(s)@ + byte_hex(b));
}

/// Formats bytes for the runtime listing: `01 02 ff`.
pub fn format_bytes_runtime(bytes: &[u8]) -> (r: String)
    ensures
        r@ == runtime_bytes(bytes@),
{
    let mut s = String::new();
    let mut i: usize = 0;
    while i < bytes.len()
        invariant
            i <= bytes@.len(),
            s@ == runtime_bytes(bytes@.subrange(0, i as int)),
        decreases bytes@.len() - i,
    {
        let ghost prev = bytes@.subrange(0, i as int);
        let ghost next = bytes@.subrange(0, i as int + 1);
        if i > 0 {
            s.append(" ");
        }
        push_byte_hex(&mut s, bytes[i]);
        proof {
            let pn = next.map_values(|b: u8| byte_hex(b));
            assert(pn.drop_last() =~= prev.map_values(|b: u8| byte_hex(b)));
            assert(pn.last() == byte_hex(bytes@[i as int]));
            if i == 0 {
                assert(pn.len() == 1);
            }
        }
        i = i + 1;
    }
    assert(bytes@.subrange(0, i as int) =~= bytes@);
    s
}

/// Formats bytes for the compile-time table: `0x01, 0x02, 0xff`.
pub fn format_bytes_compiletime(bytes: &[u8]) -> (r: String)
    ensures
        r@ == compiletime_bytes(bytes@),
{
    let mut s = String::new();
    let mut i: usize = 0;
    while i < bytes.len()
        invariant
            i <= bytes@.len(),
            s@ == compiletime_bytes(bytes@.subrange(0, i as int)),
        decreases bytes@.len() - i,
    {
        let ghost prev = bytes@.subrange(0, i as int);
        let ghost next = bytes@.subrange(0, i as int + 1);
        let ghost before = s@;
        if i > 0 {
            s.append(", ");
        }
        s.append("0x");
        push_byte_hex(&mut s, bytes[i]);
        proof {
            let pn = next.map_values(|b: u8| "0x"@ + byte_hex(b));
            assert(pn.drop_last() =~= prev.map_values(|b: u8| "0x"@ + byte_hex(b)));
            assert(pn.last() == "0x"@ + byte_hex(bytes@[i as int]));
            if i == 0 {
                assert(pn.len() == 1);
                assert(s@ =~= pn[0]);
            } else {
                assert(s@ =~= before + ", "@ + pn.last());
            }
        }
        i = i + 1;
    }
    assert(bytes@.subrange(0, i as int) =~= bytes@);
    s
}

} // verus!

//! Rendering of numbers and byte lists as text, the way the messages of
//! this library show them: decimal, hexadecimal padded with zeros, and
//! bracketed lists of hexadecimal bytes.

use vstd::prelude::*;

verus! {

/// The lower-case hexadecimal (and decimal) digit for `d < 16`.
pub open spec fn lower_digit(d: nat) -> char {
    if d < 10 {
        (('0' as nat) + d) as char
    } else {
        (('a' as nat) + (d - 10)) as char
    }
}

/// The upper-case hexadecimal digit for `d < 16`.
pub open spec fn upper_digit(d: nat) -> char {
    if d < 10 {
        (('0' as nat) + d) as char
    } else {
        (('A' as nat) + (d - 10)) as char
    }
}

/// The decimal text of `n`, without leading zeros.
pub open spec fn decimal(n: nat) -> Seq<char>
    decreases n,
{
    if n < 10 {
        seq![lower_digit(n)]
    } else {
        decimal(n / 10) + seq![lower_digit(n % 10)]
    }
}

/// The lower-case hexadecimal text of `n`, without leading zeros.
pub open spec fn hex_lower(n: nat) -> Seq<char>
    decreases n,
{
    if n < 16 {
        seq![lower_digit(n)]
    } else {
        hex_lower(n / 16) + seq![lower_digit(n % 16)]
    }
}

/// The upper-case hexadecimal text of `n`, without leading zeros.
pub open spec fn hex_upper(n: nat) -> Seq<char>
    decreases n,
{
    if n < 16 {
        seq![upper_digit(n)]
    } else {
        hex_upper(n / 16) + seq![upper_digit(n % 16)]
    }
}

/// `s` preceded by as many `'0'` as make it at least `width` long.
pub open spec fn zero_pad(s: Seq<char>, width: nat) -> Seq<char> {
    if s.len() >= width {
        s
    } else {
        Seq::new((width - s.len()) as nat, |i: int| '0') + s
    }
}

/// One byte of a list: lower-case hex, padded to two digits when `padded`.
pub open spec fn byte_item(b: u8, padded: bool) -> Seq<char> {
    if padded {
        zero_pad(hex_lower(b as nat), 2)
    } else {
        hex_lower(b as nat)
    }
}

/// The bytes' items separated by `", "`.
pub open spec fn byte_items(bytes: Seq<u8>, padded: bool) -> Seq<char>
    decreases bytes.len(),
{
    if bytes.len() == 0 {
        Seq::empty()
    } else if bytes.len() == 1 {
        byte_item(bytes[0], padded)
    } else {
        byte_items(bytes.drop_last(), padded) + ", "@ + byte_item(bytes.last(), padded)
    }
}

/// A bracketed list of the bytes in hex, as `{:x?}` (or, padded, `{:02x?}`)
/// shows a byte slice.
pub open spec fn byte_list(bytes: Seq<u8>, padded: bool) -> Seq<char> {
    "["@ + byte_items(bytes, padded) + "]"@
}

/// A one-character string holding the hex digit `d`.
fn digit_str(d: u8, upper: bool) -> (r: &'static str)
    requires
        d < 16,
    ensures
        r@ == seq![if upper { upper_digit(d as nat) } else { lower_digit(d as nat) }],
{
    match d {
        0 => { proof { reveal_strlit("0"); } "0" },
        1 => { proof { reveal_strlit("1"); } "1" },
        2 => { proof { reveal_strlit("2"); } "2" },
        3 => { proof { reveal_strlit("3"); } "3" },
        4 => { proof { reveal_strlit("4"); } "4" },
        5 => { proof { reveal_strlit("5"); } "5" },
        6 => { proof { reveal_strlit("6"); } "6" },
        7 => { proof { reveal_strlit("7"); } "7" },
        8 => { proof { reveal_strlit("8"); } "8" },
        9 => { proof { reveal_strlit("9"); } "9" },
        10 => if upper { proof { reveal_strlit("A"); } "A" } else { proof { reveal_strlit("a"); } "a" },
        11 => if upper { proof { reveal_strlit("B"); } "B" } else { proof { reveal_strlit("b"); } "b" },
        12 => if upper { proof { reveal_strlit("C"); } "C" } else { proof { reveal_strlit("c"); } "c" },
        13 => if upper { proof { reveal_strlit("D"); } "D" } else { proof { reveal_strlit("d"); } "d" },
        14 => if upper { proof { reveal_strlit("E"); } "E" } else { proof { reveal_strlit("e"); } "e" },
        _ => if upper { proof { reveal_strlit("F"); } "F" } else { proof { reveal_strlit("f"); } "f" },
    }
}

/// Appends the decimal text of `n`.
pub(crate) fn push_decimal(s: &mut String, n: u64)
    ensures
        final(s)@ == old(s)@ + decimal(n as nat),
    decreases n,
{
    if n >= 10 {
        push_decimal(s, n / 10);
    }
    let d = (n % 10) as u8;
    s.append(digit_str(d, false));
    assert(final(s)@ =~= old(s)@ + decimal(n as nat));
}

/// Appends the hexadecimal text of `n`, in upper or lower case.
pub(crate) fn push_hex(s: &mut String, n: u64, upper: bool)
    ensures
        final(s)@ == old(s)@ + (if upper { hex_upper(n as nat) } else { hex_lower(n as nat) }),
    decreases n,
{
    if n >= 16 {
        push_hex(s, n / 16, upper);
    }
    let d = (n % 16) as u8;
    s.append(digit_str(d, upper));
    assert(final(s)@ =~= old(s)@ + (if upper { hex_upper(n as nat) } else { hex_lower(n as nat) }));
}


/// The length of the hex text of `n` grows with `n`: under 16 it is one
/// digit, under 256 two, under 4096 three, and at least four above.
proof fn lemma_hex_len(n: nat, upper: bool)
    ensures
        ({
            let h = if upper { hex_upper(n) } else { hex_lower(n) };
            &&& n < 16 ==> h.len() == 1
            &&& 16 <= n < 256 ==> h.len() == 2
            &&& 256 <= n < 4096 ==> h.len() == 3
            &&& 4096 <= n ==> h.len() >= 4
        }),
    decreases n,
{
    if n >= 16 {
        lemma_hex_len(n / 16, upper);
    }
}

/// Appends `n` in hexadecimal, padded with zeros to at least `width` digits.
pub(crate) fn push_hex_padded(s: &mut String, n: u64, upper: bool, width: u64)
    requires
        width <= 4,
    ensures
        final(s)@ == old(s)@ + zero_pad(
            if upper { hex_upper(n as nat) } else { hex_lower(n as nat) },
            width as nat,
        ),
{
    let ghost h = if upper { hex_upper(n as nat) } else { hex_lower(n as nat) };
    proof { lemma_hex_len(n as nat, upper); }
    let digits: u64 = if n < 16 { 1 } else if n < 256 { 2 } else if n < 4096 { 3 } else { 4 };
    assert(digits <= 4 && (digits < 4 ==> h.len() == digits) && (digits == 4 ==> h.len() >= 4));
    let mut k: u64 = digits;
    while k < width
        invariant
            digits <= k,
            digits < width ==> k <= width,
            digits >= width ==> k == digits,
            s@ == old(s)@ + Seq::new((k - digits) as nat, |i: int| '0'),
        decreases width - k,
    {
        proof { reveal_strlit("0"); }
        s.append("0");
        k = k + 1;
        assert(s@ =~= old(s)@ + Seq::new((k - digits) as nat, |i: int| '0'));
    }
    let ghost mid = s@;
    push_hex(s, n, upper);
    if digits >= width {
        assert(h.len() >= width);
        assert(mid =~= old(s)@);
        assert(s@ =~= old(s)@ + zero_pad(h, width as nat));
    } else {
        assert(k == width);
        assert(h.len() == digits);
        assert(s@ =~= old(s)@ + zero_pad(h, width as nat));
    }
}

/// Appends the bracketed list of the bytes in hex.
pub(crate) fn push_byte_list(s: &mut String, bytes: &[u8], padded: bool)
    ensures
        final(s)@ == old(s)@ + byte_list(bytes@, padded),
{
    proof { reveal_strlit("["); reveal_strlit(", "); reveal_strlit("]"); }
    s.append("[");
    let mut i: usize = 0;
    while i < bytes.len()
        invariant
            i <= bytes@.len(),
            s@ == old(s)@ + "["@ + byte_items(bytes@.take(i as int), padded),
        decreases bytes@.len() - i,
    {
        let ghost before = s@;
        if i > 0 {
            s.append(", ");
        }
        let b = bytes[i];
        if padded {
            push_hex_padded(s, b as u64, false, 2);
        } else {
            push_hex(s, b as u64, false);
        }
        assert(bytes@.take(i + 1).drop_last() =~= bytes@.take(i as int));
        i = i + 1;
        assert(s@ =~= old(s)@ + "["@ + byte_items(bytes@.take(i as int), padded));
    }
    s.append("]");
    assert(bytes@.take(bytes@.len() as int) =~= bytes@);
    assert(s@ =~= old(s)@ + byte_list(bytes@, padded));
}

} // verus!

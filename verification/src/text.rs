//! Numbers as text: the decimal and hexadecimal forms that messages are made of.

use vstd::prelude::*;
use vstd::string::StringExecFns;

verus! {

/// The digit that stands for `d` in a base up to sixteen, in lower case.
pub open spec fn digit(d: nat) -> Seq<char> {
    if d == 0 {
        "0"@
    } else if d == 1 {
        "1"@
    } else if d == 2 {
        "2"@
    } else if d == 3 {
        "3"@
    } else if d == 4 {
        "4"@
    } else if d == 5 {
        "5"@
    } else if d == 6 {
        "6"@
    } else if d == 7 {
        "7"@
    } else if d == 8 {
        "8"@
    } else if d == 9 {
        "9"@
    } else if d == 10 {
        "a"@
    } else if d == 11 {
        "b"@
    } else if d == 12 {
        "c"@
    } else if d == 13 {
        "d"@
    } else if d == 14 {
        "e"@
    } else {
        "f"@
    }
}

/// `n` in decimal, without leading zeros.
pub open spec fn decimal(n: nat) -> Seq<char>
    decreases n,
{
    if n < 10 {
        digit(n)
    } else {
        decimal(n / 10) + digit(n % 10)
    }
}

/// `n` in lower-case hexadecimal, without leading zeros.
pub open spec fn hex(n: nat) -> Seq<char>
    decreases n,
{
    if n < 16 {
        digit(n)
    } else {
        hex(n / 16) + digit(n % 16)
    }
}

/// `count` zeros.
pub open spec fn zeros(count: nat) -> Seq<char>
    decreases count,
{
    if count == 0 {
        Seq::empty()
    } else {
        zeros((count - 1) as nat) + "0"@
    }
}

/// `n` in hexadecimal, with zeros in front of it where it has fewer than `width` digits.
pub open spec fn hex_padded(n: nat, width: nat) -> Seq<char>
    decreases n,
{
    let front = if width == 0 {
        0
    } else {
        (width - 1) as nat
    };
    if n < 16 {
        zeros(front) + digit(n)
    } else {
        hex_padded(n / 16, front) + digit(n % 16)
    }
}

/// `n` in hexadecimal behind `0x`.
pub open spec fn hex_prefixed(n: nat) -> Seq<char> {
    "0x"@ + hex(n)
}

/// `n` in hexadecimal behind `0x`, with zeros in front of the digits until there are
/// eight of them.
pub open spec fn hex_word(n: nat) -> Seq<char> {
    "0x"@ + hex_padded(n, 8)
}

/// The digit that stands for `d`.
fn digit_str(d: u64) -> (r: &'static str)
    requires
        d < 16,
    ensures
        r@ == digit(d as nat),
{
    if d == 0 {
        "0"
    } else if d == 1 {
        "1"
    } else if d == 2 {
        "2"
    } else if d == 3 {
        "3"
    } else if d == 4 {
        "4"
    } else if d == 5 {
        "5"
    } else if d == 6 {
        "6"
    } else if d == 7 {
        "7"
    } else if d == 8 {
        "8"
    } else if d == 9 {
        "9"
    } else if d == 10 {
        "a"
    } else if d == 11 {
        "b"
    } else if d == 12 {
        "c"
    } else if d == 13 {
        "d"
    } else if d == 14 {
        "e"
    } else {
        "f"
    }
}

/// Appends `n` in decimal.
pub fn push_decimal(out: &mut String, n: u64)
    ensures
        final(out)@ == old(out)@ + decimal(n as nat),
    decreases n,
{
    if n < 10 {
        out.append(digit_str(n));
    } else {
        push_decimal(out, n / 10);
        out.append(digit_str(n % 10));
        assert(out@ =~= old(out)@ + (decimal((n / 10) as nat) + digit((n % 10) as nat)));
    }
}

/// Appends `n` in hexadecimal.
pub fn push_hex(out: &mut String, n: u64)
    ensures
        final(out)@ == old(out)@ + hex(n as nat),
    decreases n,
{
    if n < 16 {
        out.append(digit_str(n));
    } else {
        push_hex(out, n / 16);
        out.append(digit_str(n % 16));
        assert(out@ =~= old(out)@ + (hex((n / 16) as nat) + digit((n % 16) as nat)));
    }
}

/// Appends `count` zeros.
fn push_zeros(out: &mut String, count: usize)
    ensures
        final(out)@ == old(out)@ + zeros(count as nat),
    decreases count,
{
    if count == 0 {
        assert(out@ =~= old(out)@ + zeros(0));
    } else {
        push_zeros(out, count - 1);
        out.append("0");
        assert(out@ =~= old(out)@ + (zeros((count - 1) as nat) + "0"@));
    }
}

/// Appends `n` in hexadecimal, with zeros in front of it where it has fewer than `width`
/// digits.
pub fn push_hex_padded(out: &mut String, n: u64, width: usize)
    ensures
        final(out)@ == old(out)@ + hex_padded(n as nat, width as nat),
    decreases n,
{
    let front = if width == 0 {
        0
    } else {
        width - 1
    };
    if n < 16 {
        push_zeros(out, front);
        out.append(digit_str(n));
        assert(out@ =~= old(out)@ + (zeros(front as nat) + digit(n as nat)));
    } else {
        push_hex_padded(out, n / 16, front);
        out.append(digit_str(n % 16));
        assert(out@ =~= old(out)@ + (hex_padded((n / 16) as nat, front as nat) + digit(
            (n % 16) as nat,
        )));
    }
}

/// Appends `n` in hexadecimal behind `0x`.
pub fn push_hex_prefixed(out: &mut String, n: u64)
    ensures
        final(out)@ == old(out)@ + hex_prefixed(n as nat),
{
    out.append("0x");
    push_hex(out, n);
    assert(out@ =~= old(out)@ + ("0x"@ + hex(n as nat)));
}

/// Appends `n` in hexadecimal behind `0x`, with at least eight digits.
pub fn push_hex_word(out: &mut String, n: u64)
    ensures
        final(out)@ == old(out)@ + hex_word(n as nat),
{
    out.append("0x");
    push_hex_padded(out, n, 8);
    assert(out@ =~= old(out)@ + ("0x"@ + hex_padded(n as nat, 8)));
}


/// The bytes of `s`, each in hexadecimal behind `0x`, with `, ` between them.
pub open spec fn byte_list(s: Seq<u8>) -> Seq<char>
    decreases s.len(),
{
    if s.len() == 0 {
        Seq::empty()
    } else if s.len() == 1 {
        hex_prefixed(s[0] as nat)
    } else {
        byte_list(s.drop_last()) + ", "@ + hex_prefixed(s.last() as nat)
    }
}

/// The bytes of `s`, each as two hexadecimal digits, with nothing between them.
pub open spec fn byte_string(s: Seq<u8>) -> Seq<char>
    decreases s.len(),
{
    if s.len() == 0 {
        Seq::empty()
    } else {
        byte_string(s.drop_last()) + hex_padded(s.last() as nat, 2)
    }
}

/// Appends the bytes given, each in hexadecimal behind `0x`, with `, ` between them.
pub fn push_byte_list(out: &mut String, bytes: &[u8])
    ensures
        final(out)@ == old(out)@ + byte_list(bytes@),
{
    let mut i: usize = 0;
    assert(out@ =~= old(out)@ + byte_list(bytes@.take(0)));
    while i < bytes.len()
        invariant
            i <= bytes.len(),
            out@ == old(out)@ + byte_list(bytes@.take(i as int)),
        decreases bytes.len() - i,
    {
        let ghost head = bytes@.take(i as int);
        let ghost next = bytes@.take(i + 1);
        assert(next.drop_last() =~= head);
        if i > 0 {
            out.append(", ");
            push_hex_prefixed(out, bytes[i] as u64);
            assert(out@ =~= old(out)@ + (byte_list(head) + ", "@ + hex_prefixed(
                bytes@[i as int] as nat,
            )));
        } else {
            push_hex_prefixed(out, bytes[i] as u64);
            assert(out@ =~= old(out)@ + hex_prefixed(bytes@[i as int] as nat));
        }
        i = i + 1;
    }
    assert(bytes@.take(i as int) =~= bytes@);
}

/// Appends the bytes given, each as two hexadecimal digits.
pub fn push_byte_string(out: &mut String, bytes: &[u8])
    ensures
        final(out)@ == old(out)@ + byte_string(bytes@),
{
    let mut i: usize = 0;
    assert(out@ =~= old(out)@ + byte_string(bytes@.take(0)));
    while i < bytes.len()
        invariant
            i <= bytes.len(),
            out@ == old(out)@ + byte_string(bytes@.take(i as int)),
        decreases bytes.len() - i,
    {
        let ghost head = bytes@.take(i as int);
        let ghost next = bytes@.take(i + 1);
        assert(next.drop_last() =~= head);
        push_hex_padded(out, bytes[i] as u64, 2);
        assert(out@ =~= old(out)@ + (byte_string(head) + hex_padded(bytes@[i as int] as nat, 2)));
        i = i + 1;
    }
    assert(bytes@.take(i as int) =~= bytes@);
}

} // verus!

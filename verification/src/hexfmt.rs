//! Rendering a digest as a lowercase hexadecimal identifier.
//!
//! Each byte becomes two characters of the alphabet `0123456789abcdef`, most
//! significant nibble first, in byte order. The rendering is deterministic
//! and injective over byte sequences, so distinct digests always get
//! distinct identifiers.

use vstd::prelude::*;

verus! {

/// The lowercase hex digit of a nibble.
pub open spec fn hex_char(n: u8) -> char {
    if n == 0 {
        '0'
    } else if n == 1 {
        '1'
    } else if n == 2 {
        '2'
    } else if n == 3 {
        '3'
    } else if n == 4 {
        '4'
    } else if n == 5 {
        '5'
    } else if n == 6 {
        '6'
    } else if n == 7 {
        '7'
    } else if n == 8 {
        '8'
    } else if n == 9 {
        '9'
    } else if n == 10 {
        'a'
    } else if n == 11 {
        'b'
    } else if n == 12 {
        'c'
    } else if n == 13 {
        'd'
    } else if n == 14 {
        'e'
    } else {
        'f'
    }
}

/// The two hex digits of one byte, most significant nibble first.
pub open spec fn spec_hex_byte(b: u8) -> Seq<char> {
    seq![hex_char(b >> 4), hex_char(b & 0x0f)]
}

/// The lowercase hex rendering of a byte sequence, byte order preserved.
pub open spec fn spec_hex(bytes: Seq<u8>) -> Seq<char>
    decreases bytes.len(),
{
    if bytes.len() == 0 {
        Seq::empty()
    } else {
        spec_hex(bytes.drop_last()) + spec_hex_byte(bytes.last())
    }
}

/// A hex rendering is twice as long as its input.
pub proof fn lemma_spec_hex_len(bytes: Seq<u8>)
    ensures
        spec_hex(bytes).len() == 2 * bytes.len(),
    decreases bytes.len(),
{
    if bytes.len() > 0 {
        lemma_spec_hex_len(bytes.drop_last());
    }
}

/// The one-character string for a nibble.
fn hex_digit_str(n: u8) -> (r: &'static str)
    requires
        n < 16,
    ensures
        r@ == seq![hex_char(n)],
{
    proof {
        reveal_strlit("0");
        reveal_strlit("1");
        reveal_strlit("2");
        reveal_strlit("3");
        reveal_strlit("4");
        reveal_strlit("5");
        reveal_strlit("6");
        reveal_strlit("7");
        reveal_strlit("8");
        reveal_strlit("9");
        reveal_strlit("a");
        reveal_strlit("b");
        reveal_strlit("c");
        reveal_strlit("d");
        reveal_strlit("e");
        reveal_strlit("f");
    }
    if n == 0 {
        "0"
    } else if n == 1 {
        "1"
    } else if n == 2 {
        "2"
    } else if n == 3 {
        "3"
    } else if n == 4 {
        "4"
    } else if n == 5 {
        "5"
    } else if n == 6 {
        "6"
    } else if n == 7 {
        "7"
    } else if n == 8 {
        "8"
    } else if n == 9 {
        "9"
    } else if n == 10 {
        "a"
    } else if n == 11 {
        "b"
    } else if n == 12 {
        "c"
    } else if n == 13 {
        "d"
    } else if n == 14 {
        "e"
    } else {
        "f"
    }
}

/// Renders a byte sequence as its lowercase hex string.
pub fn bytes_to_hex_string(bytes: &Vec<u8>) -> (r: String)
    ensures
        r@ == spec_hex(bytes@),
{
    let mut r = String::new();
    let mut i: usize = 0;
    while i < bytes.len()
        invariant
            i <= bytes@.len(),
            r@ == spec_hex(bytes@.take(i as int)),
        decreases bytes@.len() - i,
    {
        let b = bytes[i];
        proof {
            assert(b >> 4 < 16 && b & 0x0f < 16) by (bit_vector);
        }
        r.append(hex_digit_str(b >> 4));
        r.append(hex_digit_str(b & 0x0f));
        i = i + 1;
        proof {
            assert(bytes@.take(i as int).drop_last() =~= bytes@.take(i - 1));
            assert(r@ =~= spec_hex(bytes@.take(i as int)));
        }
    }
    proof {
        assert(bytes@.take(bytes@.len() as int) =~= bytes@);
    }
    r
}

/// Hex digits are distinct, so a digit determines its nibble.
proof fn lemma_hex_char_injective(a: u8, b: u8)
    requires
        a < 16,
        b < 16,
        hex_char(a) == hex_char(b),
    ensures
        a == b,
{
}

/// The two digits of a byte determine the byte.
proof fn lemma_hex_byte_injective(a: u8, b: u8)
    requires
        spec_hex_byte(a) == spec_hex_byte(b),
    ensures
        a == b,
{
    assert(spec_hex_byte(a)[0] == spec_hex_byte(b)[0]);
    assert(spec_hex_byte(a)[1] == spec_hex_byte(b)[1]);
    assert(a >> 4 < 16 && a & 0x0f < 16) by (bit_vector);
    assert(b >> 4 < 16 && b & 0x0f < 16) by (bit_vector);
    lemma_hex_char_injective(a >> 4, b >> 4);
    lemma_hex_char_injective(a & 0x0f, b & 0x0f);
    assert(a >> 4 == b >> 4 && a & 0x0f == b & 0x0f ==> a == b) by (bit_vector);
}

/// Hex rendering is injective: equal renderings come from equal byte
/// sequences, so distinct digests always get distinct identifiers.
pub proof fn lemma_spec_hex_injective(a: Seq<u8>, b: Seq<u8>)
    requires
        spec_hex(a) == spec_hex(b),
    ensures
        a == b,
    decreases a.len(),
{
    lemma_spec_hex_len(a);
    lemma_spec_hex_len(b);
    if a.len() == 0 {
        assert(a =~= b);
    } else {
        let ha = spec_hex(a.drop_last());
        let hb = spec_hex(b.drop_last());
        lemma_spec_hex_len(a.drop_last());
        lemma_spec_hex_len(b.drop_last());
        assert(ha =~= spec_hex(a).subrange(0, 2 * a.len() - 2));
        assert(hb =~= spec_hex(b).subrange(0, 2 * b.len() - 2));
        assert(spec_hex_byte(a.last()) =~= spec_hex(a).subrange(2 * a.len() - 2, 2 * a.len() as int));
        assert(spec_hex_byte(b.last()) =~= spec_hex(b).subrange(2 * b.len() - 2, 2 * b.len() as int));
        lemma_hex_byte_injective(a.last(), b.last());
        lemma_spec_hex_injective(a.drop_last(), b.drop_last());
        assert(a =~= a.drop_last().push(a.last()));
        assert(b =~= b.drop_last().push(b.last()));
    }
}

} // verus!

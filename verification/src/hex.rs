//! Lowercase hexadecimal encoding of byte sequences, used to render a commit
//! object identifier in its display form.

use vstd::prelude::*;

verus! {

/// The lowercase hexadecimal digit for a value below sixteen.
pub open spec fn hex_char_of(n: int) -> char {
    if n == 0 {
        '0'
    } else if n == 1 {
        '1'
    } else if n == 2 {
        '2'
    } else if n == 3 {
        '3'
    } else if n == 4 {
        '4'
    } else if n == 5 {
        '5'
    } else if n == 6 {
        '6'
    } else if n == 7 {
        '7'
    } else if n == 8 {
        '8'
    } else if n == 9 {
        '9'
    } else if n == 10 {
        'a'
    } else if n == 11 {
        'b'
    } else if n == 12 {
        'c'
    } else if n == 13 {
        'd'
    } else if n == 14 {
        'e'
    } else {
        'f'
    }
}

/// The i-th half-byte of `bytes` in display order: the high half of a byte
/// comes before its low half.
pub open spec fn nibble_of(bytes: Seq<u8>, i: int) -> u8 {
    if i % 2 == 0 {
        bytes[i / 2] >> 4u8
    } else {
        bytes[i / 2] & 0x0fu8
    }
}

/// The lowercase hexadecimal rendering of `bytes`: two digits per byte,
/// high half first.
pub open spec fn hex_of(bytes: Seq<u8>) -> Seq<char> {
    Seq::new(bytes.len() * 2, |i: int| hex_char_of(nibble_of(bytes, i) as int))
}

/// The character is one of the sixteen lowercase hexadecimal digits.
pub open spec fn is_lower_hex_char(c: char) -> bool {
    ('0' <= c && c <= '9') || ('a' <= c && c <= 'f')
}

/// A hexadecimal rendering is twice as long as its input and holds lowercase
/// hexadecimal digits only.
pub proof fn lemma_hex_of_chars(bytes: Seq<u8>)
    ensures
        hex_of(bytes).len() == bytes.len() * 2,
        forall|i: int| 0 <= i < hex_of(bytes).len() ==> is_lower_hex_char(#[trigger] hex_of(bytes)[i]),
{
    assert forall|i: int| 0 <= i < hex_of(bytes).len() implies is_lower_hex_char(
        #[trigger] hex_of(bytes)[i],
    ) by {
        let b = bytes[i / 2];
        assert((b >> 4u8) < 16 && (b & 0x0fu8) < 16) by (bit_vector);
        assert(nibble_of(bytes, i) < 16);
    }
}

/// A one-character string holding the lowercase hexadecimal digit for `n`.
fn hex_digit_str(n: u8) -> (r: &'static str)
    requires
        n < 16,
    ensures
        r@ =~= seq![hex_char_of(n as int)],
{
    proof {
        reveal_strlit("0");
        reveal_strlit("1");
        reveal_strlit("2");
        reveal_strlit("3");
        reveal_strlit("4");
        reveal_strlit("5");
        reveal_strlit("6");
        reveal_strlit("7");
        reveal_strlit("8");
        reveal_strlit("9");
        reveal_strlit("a");
        reveal_strlit("b");
        reveal_strlit("c");
        reveal_strlit("d");
        reveal_strlit("e");
        reveal_strlit("f");
    }
    if n == 0 {
        "0"
    } else if n == 1 {
        "1"
    } else if n == 2 {
        "2"
    } else if n == 3 {
        "3"
    } else if n == 4 {
        "4"
    } else if n == 5 {
        "5"
    } else if n == 6 {
        "6"
    } else if n == 7 {
        "7"
    } else if n == 8 {
        "8"
    } else if n == 9 {
        "9"
    } else if n == 10 {
        "a"
    } else if n == 11 {
        "b"
    } else if n == 12 {
        "c"
    } else if n == 13 {
        "d"
    } else if n == 14 {
        "e"
    } else {
        "f"
    }
}

/// Renders `bytes` as a lowercase hexadecimal string, two digits per byte.
pub fn hex_encode(bytes: &Vec<u8>) -> (r: String)
    ensures
        r@ == hex_of(bytes@),
{
    let mut r = String::new();
    let mut i: usize = 0;
    while i < bytes.len()
        invariant
            i <= bytes@.len(),
            r@ =~= hex_of(bytes@).take(2 * i as int),
        decreases bytes@.len() - i,
    {
        let b = bytes[i];
        let hi = b >> 4u8;
        let lo = b & 0x0fu8;
        proof {
            assert((b >> 4u8) < 16 && (b & 0x0fu8) < 16) by (bit_vector);
            assert(nibble_of(bytes@, 2 * i as int) == b >> 4u8);
            assert(nibble_of(bytes@, 2 * i as int + 1) == b & 0x0fu8);
        }
        r.append(hex_digit_str(hi));
        r.append(hex_digit_str(lo));
        proof {
            assert(r@ =~= hex_of(bytes@).take(2 * (i + 1) as int));
        }
        i = i + 1;
    }
    proof {
        assert(hex_of(bytes@).take(2 * i as int) =~= hex_of(bytes@));
    }
    r
}

} // verus!

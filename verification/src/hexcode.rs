//! Decoding of hexadecimal byte strings, as the deployer's embedded contract
//! bytecode is written: two ASCII hex digits per byte.
use vstd::prelude::*;

verus! {

/// The value of one ASCII hexadecimal digit; sixteen marks a byte that is no
/// hex digit.
pub open spec fn hex_digit_spec(c: u8) -> u8 {
    if 48 <= c <= 57 {
        (c - 48) as u8
    } else if 97 <= c <= 102 {
        (c - 87) as u8
    } else if 65 <= c <= 70 {
        (c - 55) as u8
    } else {
        16
    }
}

/// Whether `c` is an ASCII hexadecimal digit.
pub open spec fn is_hex_digit(c: u8) -> bool {
    hex_digit_spec(c) < 16
}

/// Whether every byte of `s` is an ASCII hexadecimal digit.
pub open spec fn all_hex_digits(s: Seq<u8>) -> bool {
    forall|i: int| 0 <= i < s.len() ==> is_hex_digit(#[trigger] s[i])
}

/// The bytes an ASCII hex string encodes, one byte per digit pair, read from
/// the front; a trailing lone digit encodes nothing.
pub open spec fn hex_decoded(s: Seq<u8>) -> Seq<u8>
    decreases s.len(),
{
    if s.len() < 2 {
        Seq::empty()
    } else {
        seq![(hex_digit_spec(s[0]) * 16 + hex_digit_spec(s[1])) as u8] + hex_decoded(s.skip(2))
    }
}

/// The value of one ASCII hexadecimal digit, sixteen for anything else.
pub fn hex_digit(c: u8) -> (r: u8)
    ensures
        r == hex_digit_spec(c),
{
    if 48 <= c && c <= 57 {
        c - 48
    } else if 97 <= c && c <= 102 {
        c - 87
    } else if 65 <= c && c <= 70 {
        c - 55
    } else {
        16
    }
}

/// Decode an ASCII hex string into the bytes it encodes: succeeds exactly on
/// strings of even length whose bytes are all hex digits, and then yields one
/// byte per digit pair.
pub fn decode_hex(s: &[u8]) -> (r: Option<Vec<u8>>)
    ensures
        r is Some <==> (s@.len() % 2 == 0 && all_hex_digits(s@)),
        r matches Some(v) ==> v@ == hex_decoded(s@),
{
    let n = s.len();
    if n % 2 != 0 {
        return None;
    }
    let mut out: Vec<u8> = Vec::new();
    let mut i: usize = 0;
    proof {
        assert(s@.skip(0) =~= s@);
        assert(out@ + hex_decoded(s@) =~= hex_decoded(s@));
    }
    while i < n / 2
        invariant
            n == s@.len(),
            n % 2 == 0,
            i <= n / 2,
            out@.len() == i,
            forall|j: int| 0 <= j < 2 * i ==> is_hex_digit(#[trigger] s@[j]),
            out@ + hex_decoded(s@.skip(2 * i)) == hex_decoded(s@),
        decreases n / 2 - i,
    {
        let hi = hex_digit(s[2 * i]);
        let lo = hex_digit(s[2 * i + 1]);
        if hi == 16 {
            assert(!is_hex_digit(s@[2 * i]));
            return None;
        }
        if lo == 16 {
            assert(!is_hex_digit(s@[2 * i + 1]));
            return None;
        }
        let byte = hi * 16 + lo;
        proof {
            let rest = s@.skip(2 * i);
            assert(rest.len() >= 2);
            assert(rest[0] == s@[2 * i]);
            assert(rest[1] == s@[2 * i + 1]);
            assert(hex_decoded(rest) == seq![byte] + hex_decoded(rest.skip(2)));
            assert(rest.skip(2) =~= s@.skip(2 * (i + 1)));
            assert(out@ + seq![byte] + hex_decoded(s@.skip(2 * (i + 1))) =~= hex_decoded(s@));
        }
        out.push(byte);
        i = i + 1;
    }
    proof {
        assert(s@.skip(2 * i) =~= Seq::<u8>::empty());
        assert(out@ + hex_decoded(s@.skip(2 * i)) =~= out@);
    }
    Some(out)
}

} // verus!

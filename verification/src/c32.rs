//! Stacks addresses in the c32check encoding: the character `S`, the version
//! character, then the Crockford base-32 form of the payload and its checksum.

use vstd::prelude::*;

verus! {

/// What `c32::encode_check_prefixed` gives for `data` under `version` with the
/// prefix `S`: the address, or the text of its error.
pub uninterp spec fn c32_address_result(version: u8, data: Seq<u8>) -> Result<Seq<char>, Seq<char>>;

/// The view of a result whose two sides are strings.
pub open spec fn text_result(res: Result<String, String>) -> Result<Seq<char>, Seq<char>> {
    match res {
        Ok(s) => Ok(s@),
        Err(e) => Err(e@),
    }
}

/// Calls `c32::encode_check_prefixed(data, 'S', version)` and turns its error
/// into its text. The crate refuses exactly the versions of 32 and above;
/// the address itself is a function of the arguments, named above.
#[verifier::external_body]
pub(crate) fn c32_address(version: u8, data: &[u8]) -> (res: Result<String, String>)
    ensures
        text_result(res) == c32_address_result(version, data@),
        res is Err <==> version >= 32,
{
    match c32::encode_check_prefixed(data, 'S', version) {
        Ok(s) => Ok(s),
        Err(e) => Err(e.to_string()),
    }
}

/// The view of a decoded address: its version and payload, or the text of
/// the error.
pub open spec fn decode_view(res: Result<(u8, Vec<u8>), String>) -> Result<(u8, Seq<u8>), Seq<char>> {
    match res {
        Ok((v, bytes)) => Ok((v, bytes@)),
        Err(e) => Err(e@),
    }
}

/// What `c32::decode_check_prefixed` gives for `s` with the prefix `S`: the
/// version and payload, or the text of its error.
pub uninterp spec fn c32_decode_result(s: Seq<char>) -> Result<(u8, Seq<u8>), Seq<char>>;

/// The value of a character in the decoder's alphabet: Crockford's base 32,
/// in either case, with `O` read as 0 and `I`, `L` read as 1.
pub open spec fn c32_digit(c: char) -> Option<nat> {
    if '0' <= c && c <= '9' {
        Some((c as nat - 48) as nat)
    } else {
        match c {
        'A' | 'a' => Some(10),
        'B' | 'b' => Some(11),
        'C' | 'c' => Some(12),
        'D' | 'd' => Some(13),
        'E' | 'e' => Some(14),
        'F' | 'f' => Some(15),
        'G' | 'g' => Some(16),
        'H' | 'h' => Some(17),
        'I' | 'i' => Some(1),
        'J' | 'j' => Some(18),
        'K' | 'k' => Some(19),
        'L' | 'l' => Some(1),
        'M' | 'm' => Some(20),
        'N' | 'n' => Some(21),
        'O' | 'o' => Some(0),
        'P' | 'p' => Some(22),
        'Q' | 'q' => Some(23),
        'R' | 'r' => Some(24),
        'S' | 's' => Some(25),
        'T' | 't' => Some(26),
        'V' | 'v' => Some(27),
        'W' | 'w' => Some(28),
        'X' | 'x' => Some(29),
        'Y' | 'y' => Some(30),
        'Z' | 'z' => Some(31),
            _ => None,
        }
    }
}

/// The number of bits of a natural number.
pub open spec fn bit_length(d: nat) -> nat
    decreases d,
{
    if d == 0 {
        0
    } else {
        1 + bit_length(d / 2)
    }
}

/// The number of `0` characters from position `i` on, before any other.
pub open spec fn leading_zeros_from(s: Seq<char>, i: int) -> nat
    decreases s.len() - i,
{
    if 0 <= i < s.len() && s[i] == '0' {
        1 + leading_zeros_from(s, i + 1)
    } else {
        0
    }
}

/// The number of bits of the base-32 number written from position `i` on.
pub open spec fn significant_bits_from(s: Seq<char>, i: int) -> nat
    decreases s.len() - i,
{
    if i < 0 || i >= s.len() {
        0
    } else {
        match c32_digit(s[i]) {
            Some(d) => if d == 0 {
                significant_bits_from(s, i + 1)
            } else {
                5 * ((s.len() - i - 1) as nat) + bit_length(d)
            },
            None => 0,
        }
    }
}

/// The number of bytes that the decoder makes of the characters after the
/// prefix and the version: one for each leading `0`, then those of the
/// number that the rest writes.
pub open spec fn decoded_payload_len(s: Seq<char>) -> nat {
    leading_zeros_from(s, 2) + (significant_bits_from(s, 2) + 7) / 8
}

/// Every character after the prefix is in the decoder's alphabet.
pub open spec fn c32_digits_after_prefix(s: Seq<char>) -> bool {
    forall|i: int| 1 <= i < s.len() ==> #[trigger] c32_digit(s[i]) is Some
}

/// The strings on which `c32::decode_check_prefixed(_, 'S')` answers rather
/// than panics. It panics exactly on a string that has the prefix, a version
/// and at least one more character, all in its alphabet, whose characters
/// after the version decode to fewer bytes than the four of the checksum
/// (such as `S00`); on every other string it answers.
pub open spec fn c32_decode_answers(s: Seq<char>) -> bool {
    ||| !(s.len() >= 3 && s[0] == 'S' && c32_digits_after_prefix(s))
    ||| decoded_payload_len(s) >= 4
}

/// Calls `c32::decode_check_prefixed(s, 'S')` and turns its error into its
/// text. By the crate's documentation, a string without the prefix is an
/// error and a decoded version is below 32; the rest of the answer is a
/// function of the string, named above.
#[verifier::external_body]
fn c32_decode(s: &str) -> (res: Result<(u8, Vec<u8>), String>)
    requires
        c32_decode_answers(s@),
    ensures
        decode_view(res) == c32_decode_result(s@),
        !(s@.len() >= 1 && s@[0] == 'S') ==> res is Err,
        res matches Ok((v, _)) ==> v < 32,
{
    match c32::decode_check_prefixed(s, 'S') {
        Ok((bytes, version)) => Ok((version, bytes)),
        Err(e) => Err(e.to_string()),
    }
}

/// The version and payload of a Stacks address. A string whose payload is
/// too short to hold the checksum, on which the decoder would panic, is
/// refused with a message of its own.
pub fn c32_address_decode(s: &str) -> (res: Result<(u8, Vec<u8>), String>)
    ensures
        c32_decode_answers(s@) ==> decode_view(res) == c32_decode_result(s@),
        !c32_decode_answers(s@) ==> decode_view(res)
            == Err::<(u8, Seq<u8>), Seq<char>>("address payload too short to decode"@),
{
    if decoder_answers(s) {
        c32_decode(s)
    } else {
        Err("address payload too short to decode".to_owned())
    }
}

/// The value of a character in the decoder's alphabet.
fn c32_digit_value(c: char) -> (res: Option<u8>)
    ensures
        match res {
            Some(v) => c32_digit(c) == Some(v as nat) && v < 32,
            None => c32_digit(c) is None,
        },
{
    if '0' <= c && c <= '9' {
        Some((c as u32 - 48) as u8)
    } else {
        match c {
        'A' | 'a' => Some(10),
        'B' | 'b' => Some(11),
        'C' | 'c' => Some(12),
        'D' | 'd' => Some(13),
        'E' | 'e' => Some(14),
        'F' | 'f' => Some(15),
        'G' | 'g' => Some(16),
        'H' | 'h' => Some(17),
        'I' | 'i' => Some(1),
        'J' | 'j' => Some(18),
        'K' | 'k' => Some(19),
        'L' | 'l' => Some(1),
        'M' | 'm' => Some(20),
        'N' | 'n' => Some(21),
        'O' | 'o' => Some(0),
        'P' | 'p' => Some(22),
        'Q' | 'q' => Some(23),
        'R' | 'r' => Some(24),
        'S' | 's' => Some(25),
        'T' | 't' => Some(26),
        'V' | 'v' => Some(27),
        'W' | 'w' => Some(28),
        'X' | 'x' => Some(29),
        'Y' | 'y' => Some(30),
        'Z' | 'z' => Some(31),
            _ => None,
        }
    }
}

/// The number of bits of a digit.
fn digit_bit_length(d: u8) -> (res: u64)
    requires
        d < 32,
    ensures
        res == bit_length(d as nat),
        res <= 5,
{
    proof {
        reveal_with_fuel(bit_length, 6);
    }
    if d >= 16 {
        assert(bit_length(d as nat) == 5) by { reveal_with_fuel(bit_length, 6); }
        5
    } else if d >= 8 {
        4
    } else if d >= 4 {
        3
    } else if d >= 2 {
        2
    } else if d == 1 {
        1
    } else {
        0
    }
}

/// The number of `0` characters from position `i` on, before any other.
fn count_leading_zeros(s: &str, i: usize, n: usize) -> (res: usize)
    requires
        n == s@.len(),
        i <= n,
    ensures
        res == leading_zeros_from(s@, i as int),
        res <= n - i,
    decreases n - i,
{
    if i < n && s.get_char(i) == '0' {
        1 + count_leading_zeros(s, i + 1, n)
    } else {
        0
    }
}

/// The bits of the number written from position `i` on, counted up to 40.
fn significant_bits_capped(s: &str, i: usize, n: usize) -> (res: u64)
    requires
        n == s@.len(),
        i <= n,
        forall|j: int| i <= j < n ==> #[trigger] c32_digit(s@[j]) is Some,
    ensures
        res == if significant_bits_from(s@, i as int) < 40 { significant_bits_from(s@, i as int) } else { 40 },
    decreases n - i,
{
    if i >= n {
        return 0;
    }
    let d = match c32_digit_value(s.get_char(i)) {
        Some(d) => d,
        None => {
            proof { assert(c32_digit(s@[i as int]) is Some); }
            0
        },
    };
    if d == 0 {
        significant_bits_capped(s, i + 1, n)
    } else {
        let rest = n - i - 1;
        if rest >= 8 {
            40
        } else {
            let bits = 5 * (rest as u64) + digit_bit_length(d);
            if bits < 40 { bits } else { 40 }
        }
    }
}

/// Whether the decoder answers on `s` (see `c32_decode_answers`).
fn decoder_answers(s: &str) -> (res: bool)
    ensures
        res == c32_decode_answers(s@),
{
    let n = s.unicode_len();
    if n < 3 || s.get_char(0) != 'S' {
        return true;
    }
    let mut i: usize = 1;
    while i < n
        invariant
            1 <= i <= n,
            n == s@.len(),
            forall|j: int| 1 <= j < i ==> #[trigger] c32_digit(s@[j]) is Some,
        decreases n - i,
    {
        if c32_digit_value(s.get_char(i)).is_none() {
            assert(c32_digit(s@[i as int]) is None);
            assert(!c32_digits_after_prefix(s@));
            return true;
        }
        i += 1;
    }
    let zeros = count_leading_zeros(s, 2, n);
    if zeros >= 4 {
        return true;
    }
    let bits = significant_bits_capped(s, 2, n);
    (zeros as u64) + (bits + 7) / 8 >= 4
}

} // verus!

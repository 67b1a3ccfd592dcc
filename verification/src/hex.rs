//! Decoding of caller-supplied hexadecimal command strings into raw bytes:
//! two hex characters per byte, most-significant nibble first. Malformed
//! input (odd length, a character that is no hex digit) is rejected before
//! any byte is produced.

use vstd::prelude::*;
use vstd::string::StrSliceExecFns;

verus! {

/// The value of one hex digit, or -1 for a character that is none.
pub open spec fn hex_digit_value(c: char) -> int {
    let n = c as u32;
    if '0' as u32 <= n && n <= '9' as u32 {
        n - ('0' as u32)
    } else if 'a' as u32 <= n && n <= 'f' as u32 {
        n - ('a' as u32) + 10
    } else if 'A' as u32 <= n && n <= 'F' as u32 {
        n - ('A' as u32) + 10
    } else {
        -1
    }
}

pub open spec fn is_hex_digit(c: char) -> bool {
    0 <= hex_digit_value(c)
}

/// A well-formed command string: even length, hex digits throughout.
pub open spec fn valid_hex(s: Seq<char>) -> bool {
    s.len() % 2 == 0 && (forall|i: int| 0 <= i < s.len() ==> is_hex_digit(#[trigger] s[i]))
}

/// The byte a pair of hex digits stands for.
pub open spec fn hex_byte(hi: char, lo: char) -> u8 {
    (16 * hex_digit_value(hi) + hex_digit_value(lo)) as u8
}

/// The bytes a hex string decodes to, one per pair of characters.
pub open spec fn hex_bytes(s: Seq<char>) -> Seq<u8>
    decreases s.len(),
{
    if s.len() < 2 {
        Seq::empty()
    } else {
        seq![hex_byte(s[0], s[1])] + hex_bytes(s.skip(2))
    }
}

fn hex_val(c: char) -> (r: Option<u8>)
    ensures
        r matches Some(v) ==> is_hex_digit(c) && v == hex_digit_value(c) && v < 16,
        r is None ==> !is_hex_digit(c),
{
    let n = c as u32;
    if '0' as u32 <= n && n <= '9' as u32 {
        Some((n - '0' as u32) as u8)
    } else if 'a' as u32 <= n && n <= 'f' as u32 {
        Some((n - 'a' as u32 + 10) as u8)
    } else if 'A' as u32 <= n && n <= 'F' as u32 {
        Some((n - 'A' as u32 + 10) as u8)
    } else {
        None
    }
}

proof fn lemma_hex_bytes_snoc(s: Seq<char>, i: int)
    requires
        0 <= i,
        i % 2 == 0,
        i + 2 <= s.len(),
    ensures
        hex_bytes(s.take(i + 2)) =~= hex_bytes(s.take(i)).push(hex_byte(s[i], s[i + 1])),
    decreases i,
{
    if i == 0 {
        assert(s.take(2).skip(2) =~= Seq::<char>::empty());
        assert(s.take(0) =~= Seq::<char>::empty());
    } else {
        lemma_hex_bytes_snoc(s.skip(2), i - 2);
        assert(s.take(i + 2).skip(2) =~= s.skip(2).take(i));
        assert(s.take(i).skip(2) =~= s.skip(2).take(i - 2));
        assert(hex_bytes(s.take(i + 2)) =~= hex_bytes(s.take(i)).push(
            hex_byte(s[i], s[i + 1]),
        ));
    }
}

/// Decodes an even-length hex string into its bytes; any malformed input is
/// refused and produces nothing.
pub fn decode_hex(s: &str) -> (r: Option<Vec<u8>>)
    ensures
        r matches Some(v) ==> valid_hex(s@) && v@ == hex_bytes(s@),
        r is None ==> !valid_hex(s@),
{
    let n = s.unicode_len();
    if n % 2 != 0 {
        return None;
    }
    let mut out: Vec<u8> = Vec::new();
    let mut i: usize = 0;
    while i < n
        invariant
            i % 2 == 0,
            i <= n,
            n == s@.len(),
            n % 2 == 0,
            forall|j: int| 0 <= j < i ==> is_hex_digit(#[trigger] s@[j]),
            out@ == hex_bytes(s@.take(i as int)),
        decreases n - i,
    {
        let c0 = s.get_char(i);
        let c1 = s.get_char(i + 1);
        let v0 = match hex_val(c0) {
            Some(v) => v,
            None => {
                assert(!is_hex_digit(s@[i as int]));
                return None;
            },
        };
        let v1 = match hex_val(c1) {
            Some(v) => v,
            None => {
                assert(!is_hex_digit(s@[i as int + 1]));
                return None;
            },
        };
        out.push(16 * v0 + v1);
        proof {
            lemma_hex_bytes_snoc(s@, i as int);
        }
        i = i + 2;
    }
    assert(s@.take(n as int) =~= s@);
    Some(out)
}

} // verus!

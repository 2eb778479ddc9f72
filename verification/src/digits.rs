//! Verified decimal rendering of unsigned values, used to report offending
//! values and limits in decode failures.

use vstd::prelude::*;
use vstd::utf8::*;

verus! {

/// The decimal digit character for one value below ten.
pub open spec fn digit_char(d: int) -> char {
    if d == 0 {
        '0'
    } else if d == 1 {
        '1'
    } else if d == 2 {
        '2'
    } else if d == 3 {
        '3'
    } else if d == 4 {
        '4'
    } else if d == 5 {
        '5'
    } else if d == 6 {
        '6'
    } else if d == 7 {
        '7'
    } else if d == 8 {
        '8'
    } else {
        '9'
    }
}

/// The decimal text of a number, most significant digit first, with no
/// leading zeros (zero itself is "0").
pub open spec fn dec_chars(n: nat) -> Seq<char>
    decreases n,
{
    if n < 10 {
        seq![digit_char(n as int)]
    } else {
        dec_chars(n / 10).push(digit_char((n % 10) as int))
    }
}

/// The UTF-8 bytes of [`dec_chars`]: one byte per digit.
pub open spec fn dec_bytes(n: nat) -> Seq<u8>
    decreases n,
{
    if n < 10 {
        seq![(48 + n) as u8]
    } else {
        dec_bytes(n / 10).push((48 + n % 10) as u8)
    }
}

/// The decimal text is ASCII and [`dec_bytes`] is exactly its UTF-8
/// encoding.
pub proof fn lemma_dec_chars_bytes(n: nat)
    ensures
        is_ascii_chars(dec_chars(n)),
        dec_bytes(n) =~= encode_utf8(dec_chars(n)),
    decreases n,
{
    broadcast use is_ascii_chars_encode_utf8;

    if n < 10 {
        assert(is_ascii_chars(dec_chars(n)));
    } else {
        lemma_dec_chars_bytes(n / 10);
        let prefix = dec_chars(n / 10);
        let whole = dec_chars(n);
        assert(whole =~= prefix + seq![digit_char((n % 10) as int)]);
        assert(is_ascii_chars(whole));
        assert forall|i: int| 0 <= i < whole.len() implies dec_bytes(n)[i] == encode_utf8(
            whole,
        )[i] by {
            assert(encode_utf8(whole)[i] == whole[i] as u8);
            if i < whole.len() - 1 {
                assert(dec_bytes(n)[i] == encode_utf8(prefix)[i]);
                assert(encode_utf8(prefix)[i] == prefix[i] as u8);
            }
        }
    }
}

/// Appends the decimal digits of `n` to a byte buffer.
fn push_dec(out: &mut Vec<u8>, n: u64)
    ensures
        final(out)@ == old(out)@ + dec_bytes(n as nat),
    decreases n,
{
    if n >= 10 {
        push_dec(out, n / 10);
    }
    out.push(48 + (n % 10) as u8);
    proof {
        assert(out@ =~= old(out)@ + dec_bytes(n as nat));
    }
}

/// Renders a value in decimal.
pub fn u64_to_decimal(n: u64) -> (r: String)
    ensures
        r@ == dec_chars(n as nat),
{
    let mut buf: Vec<u8> = Vec::new();
    push_dec(&mut buf, n);
    proof {
        lemma_dec_chars_bytes(n as nat);
        encode_utf8_valid_utf8(dec_chars(n as nat));
        encode_utf8_decode_utf8(dec_chars(n as nat));
        assert(buf@ =~= dec_bytes(n as nat));
    }
    match crate::decode::try_utf8_text(buf.as_slice()) {
        Some(s) => s,
        None => {
            // Unreachable: the digit bytes are valid UTF-8.
            proof {
                assert(false);
            }
            String::new()
        },
    }
}

} // verus!

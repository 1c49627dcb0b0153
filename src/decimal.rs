//! Decimal ASCII rendering of timestamps.
use vstd::prelude::*;
use vstd::utf8::encode_utf8;

verus! {

/// The ASCII digit for a value below ten.
pub open spec fn digit_char(d: nat) -> char {
    ((48 + d) as u8) as char
}

/// The decimal representation of `n`, most significant digit first, with no
/// leading zeros (zero itself is `"0"`).
pub open spec fn decimal_text(n: nat) -> Seq<char>
    decreases n,
{
    if n < 10 {
        seq![digit_char(n)]
    } else {
        decimal_text(n / 10).push(digit_char(n % 10))
    }
}

/// UTF-8 encoding distributes over concatenation.
pub proof fn lemma_encode_utf8_concat(a: Seq<char>, b: Seq<char>)
    ensures
        encode_utf8(a + b) == encode_utf8(a) + encode_utf8(b),
    decreases a.len(),
{
    if a.len() == 0 {
        assert(a + b =~= b);
    } else {
        assert((a + b).drop_first() =~= a.drop_first() + b);
        lemma_encode_utf8_concat(a.drop_first(), b);
        assert(encode_utf8(a + b) =~= encode_utf8(a) + encode_utf8(b));
    }
}

/// A single ASCII digit is encoded as its own byte.
proof fn lemma_encode_digit(d: nat)
    requires
        d < 10,
    ensures
        encode_utf8(seq![digit_char(d)]) == seq![(48 + d) as u8],
{
    let s = seq![digit_char(d)];
    assert(vstd::utf8::is_ascii_chars(s));
    vstd::utf8::is_ascii_chars_encode_utf8(s);
    assert(encode_utf8(s) =~= seq![(48 + d) as u8]);
}

/// Appends the UTF-8 bytes of the decimal representation of `n` to `out`.
pub fn push_decimal(n: u128, out: &mut Vec<u8>)
    ensures
        final(out)@ == old(out)@ + encode_utf8(decimal_text(n as nat)),
    decreases n,
{
    let d: u128 = n % 10;
    if n >= 10 {
        push_decimal(n / 10, out);
    }
    out.push((48 + d) as u8);
    proof {
        let last = seq![digit_char(d as nat)];
        lemma_encode_digit(d as nat);
        if n >= 10 {
            let prefix = decimal_text((n / 10) as nat);
            assert(decimal_text(n as nat) =~= prefix + last);
            lemma_encode_utf8_concat(prefix, last);
        } else {
            assert(decimal_text(n as nat) =~= last);
        }
        assert(out@ =~= old(out)@ + encode_utf8(decimal_text(n as nat)));
    }
}

} // verus!

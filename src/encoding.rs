//! Byte-level encodings: decimal lengths, lowercase hex, and the
//! `personal_sign` pre-image.

use vstd::prelude::*;

verus! {

/// The lowercase hexadecimal digit for a nibble.
pub open spec fn hex_digit(n: u8) -> char {
    if n < 10 {
        (48 + n) as char
    } else {
        (87 + n) as char
    }
}

/// Lowercase hex of a byte string: two digits per byte, high nibble first.
pub open spec fn hex_lower(b: Seq<u8>) -> Seq<char>
    decreases b.len(),
{
    if b.len() == 0 {
        Seq::empty()
    } else {
        hex_lower(b.drop_last()) + seq![hex_digit(b.last() / 16), hex_digit(b.last() % 16)]
    }
}

/// Lowercase hex has two digits per byte.
pub proof fn lemma_hex_lower_len(b: Seq<u8>)
    ensures
        hex_lower(b).len() == 2 * b.len(),
    decreases b.len(),
{
    if b.len() > 0 {
        lemma_hex_lower_len(b.drop_last());
    }
}

/// Relies on hex::encode: each byte becomes two lowercase hex digits, high
/// nibble first, in order.
#[verifier::external_body]
pub(crate) fn hex_encode(b: &[u8]) -> (r: String)
    ensures
        r@ == hex_lower(b@),
{
    hex::encode(b)
}


/// The decimal ASCII digits of `n`, without leading zeros.
pub open spec fn decimal_digits(n: nat) -> Seq<u8>
    decreases n,
{
    if n < 10 {
        seq![(48 + n) as u8]
    } else {
        decimal_digits(n / 10).push((48 + n % 10) as u8)
    }
}

/// The decimal representation of `n` as characters, without leading zeros.
pub open spec fn decimal_chars(n: nat) -> Seq<char>
    decreases n,
{
    if n < 10 {
        seq![(48 + n) as char]
    } else {
        decimal_chars(n / 10).push((48 + n % 10) as char)
    }
}

/// Appends the decimal ASCII digits of `n` to `out`.
pub fn push_decimal_bytes(out: &mut Vec<u8>, n: usize)
    ensures
        final(out)@ == old(out)@ + decimal_digits(n as nat),
    decreases n,
{
    if n >= 10 {
        push_decimal_bytes(out, n / 10);
    }
    out.push((48 + n % 10) as u8);
    proof {
        assert(final(out)@ =~= old(out)@ + decimal_digits(n as nat));
    }
}

/// The one-character string of a decimal digit.
fn digit_str(d: usize) -> (r: &'static str)
    requires
        d < 10,
    ensures
        r@ == seq![(48 + d) as char],
{
    proof {
        reveal_strlit("0");
        reveal_strlit("1");
        reveal_strlit("2");
        reveal_strlit("3");
        reveal_strlit("4");
        reveal_strlit("5");
        reveal_strlit("6");
        reveal_strlit("7");
        reveal_strlit("8");
        reveal_strlit("9");
    }
    if d == 0 {
        "0"
    } else if d == 1 {
        "1"
    } else if d == 2 {
        "2"
    } else if d == 3 {
        "3"
    } else if d == 4 {
        "4"
    } else if d == 5 {
        "5"
    } else if d == 6 {
        "6"
    } else if d == 7 {
        "7"
    } else if d == 8 {
        "8"
    } else {
        "9"
    }
}

/// Appends the decimal representation of `n` to `s`.
pub fn push_decimal_str(s: &mut String, n: usize)
    ensures
        final(s)@ == old(s)@ + decimal_chars(n as nat),
    decreases n,
{
    if n >= 10 {
        push_decimal_str(s, n / 10);
    }
    s.append(digit_str(n % 10));
    proof {
        assert(final(s)@ =~= old(s)@ + decimal_chars(n as nat));
    }
}

/// The fixed domain-separation prefix of a `personal_sign` pre-image:
/// the byte 0x19, "Ethereum Signed Message:" and a line feed.
pub open spec fn personal_prefix() -> Seq<u8> {
    seq![
        25u8, 69, 116, 104, 101, 114, 101, 117, 109, 32, 83, 105, 103, 110, 101, 100,
        32, 77, 101, 115, 115, 97, 103, 101, 58, 10,
    ]
}

/// The `personal_sign` pre-image of a message: the prefix, the message's
/// length in bytes in decimal, then the message bytes.
pub open spec fn personal_preimage(message: Seq<u8>) -> Seq<u8> {
    personal_prefix() + decimal_digits(message.len()) + message
}

/// Builds the `personal_sign` pre-image of `message`.
pub fn personal_message(message: &[u8]) -> (r: Vec<u8>)
    ensures
        r@ == personal_preimage(message@),
{
    let mut out: Vec<u8> = vec![
        25u8, 69, 116, 104, 101, 114, 101, 117, 109, 32, 83, 105, 103, 110, 101, 100,
        32, 77, 101, 115, 115, 97, 103, 101, 58, 10,
    ];
    proof {
        assert(out@ =~= personal_prefix());
    }
    push_decimal_bytes(&mut out, message.len());
    let ghost head = out@;
    let mut i: usize = 0;
    while i < message.len()
        invariant
            head == personal_prefix() + decimal_digits(message@.len()),
            i <= message@.len(),
            out@ == head + message@.subrange(0, i as int),
        decreases message@.len() - i,
    {
        out.push(message[i]);
        i += 1;
        proof {
            assert(out@ =~= head + message@.subrange(0, i as int));
        }
    }
    proof {
        assert(message@.subrange(0, message@.len() as int) =~= message@);
    }
    out
}


/// The number that a string of ASCII decimal digits denotes.
pub open spec fn decimal_value(digits: Seq<u8>) -> nat
    decreases digits.len(),
{
    if digits.len() == 0 {
        0
    } else {
        decimal_value(digits.drop_last()) * 10 + (digits.last() - 48) as nat
    }
}

/// Decimal digits read back give the number they were written from.
pub proof fn lemma_decimal_round_trip(n: nat)
    ensures
        decimal_value(decimal_digits(n)) == n,
    decreases n,
{
    if n < 10 {
        assert(decimal_digits(n).drop_last() =~= Seq::<u8>::empty());
        assert(decimal_digits(n).last() == (48 + n) as u8);
        assert(decimal_value(decimal_digits(n)) == decimal_value(Seq::<u8>::empty()) * 10 + n);
    } else {
        lemma_decimal_round_trip(n / 10);
        assert(decimal_digits(n).drop_last() =~= decimal_digits(n / 10));
        assert(decimal_digits(n).last() == (48 + n % 10) as u8);
        assert((n / 10) * 10 + n % 10 == n) by (nonlinear_arith);
        assert(decimal_digits(n).len() > 0);
        assert(decimal_value(decimal_digits(n)) == decimal_value(decimal_digits(n / 10)) * 10 + (n
            % 10));
    }
}

/// The length field of a `personal_sign` pre-image, the digits between the
/// prefix and the message, denotes the message's length in bytes.
pub proof fn lemma_length_field_is_byte_length(message: Seq<u8>)
    ensures
        ({
            let pre = personal_preimage(message);
            let field_end = pre.len() - message.len();
            &&& pre.subrange(0, 26) == personal_prefix()
            &&& decimal_value(pre.subrange(26, field_end)) == message.len()
            &&& pre.subrange(field_end, pre.len() as int) == message
        }),
{
    let pre = personal_preimage(message);
    let digits = decimal_digits(message.len());
    let field_end = pre.len() - message.len();
    assert(pre.subrange(0, 26) =~= personal_prefix());
    assert(pre.subrange(26, field_end) =~= digits);
    assert(pre.subrange(field_end, pre.len() as int) =~= message);
    lemma_decimal_round_trip(message.len());
}

} // verus!

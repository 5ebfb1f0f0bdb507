//! Percent-decoded path segments.

use vstd::prelude::*;
use vstd::utf8::{valid_utf8, decode_utf8, encode_utf8, encode_scalar, has_width_1_encoding, encode_utf8_valid_utf8, encode_utf8_decode_utf8};
use vstd::string::StringSliceAdditionalSpecFns;
use crate::server::error::Error;
use crate::server::status::StatusCode;

verus! {

/// An ASCII hexadecimal digit, of either case.
pub open spec fn is_hex_digit(b: u8) -> bool {
    ||| 0x30 <= b <= 0x39
    ||| 0x41 <= b <= 0x46
    ||| 0x61 <= b <= 0x66
}

/// The value of the hexadecimal digit `b`.
pub open spec fn hex_value(b: u8) -> int {
    if b <= 0x39 {
        b - 0x30
    } else if b <= 0x46 {
        b - 0x41 + 10
    } else {
        b - 0x61 + 10
    }
}

/// Percent-decoding of `bytes`: each `%` followed by two hexadecimal digits
/// stands for the byte they spell; every other byte, a lone `%` included,
/// stands for itself.
pub open spec fn percent_decode(bytes: Seq<u8>) -> Seq<u8>
    decreases bytes.len(),
{
    if bytes.len() == 0 {
        Seq::empty()
    } else if bytes[0] == 0x25 && bytes.len() >= 3 && is_hex_digit(bytes[1]) && is_hex_digit(
        bytes[2],
    ) {
        seq![(hex_value(bytes[1]) * 16 + hex_value(bytes[2])) as u8] + percent_decode(
            bytes.subrange(3, bytes.len() as int),
        )
    } else {
        seq![bytes[0]] + percent_decode(bytes.drop_first())
    }
}

/// Calls `percent_encoding::percent_decode_str(s).decode_utf8()`: the bytes of
/// `s` are percent-decoded and read as UTF-8, which fails where they are not
/// valid UTF-8.
#[verifier::external_body]
fn percent_decode_utf8(s: &str) -> (r: Option<String>)
    ensures
        match r {
            Some(d) => valid_utf8(percent_decode(s.spec_bytes())) && d@ == decode_utf8(
                percent_decode(s.spec_bytes()),
            ),
            None => !valid_utf8(percent_decode(s.spec_bytes())),
        },
{
    percent_encoding::percent_decode_str(s).decode_utf8().ok().map(|d| d.into_owned())
}

/// A path segment after percent-decoding.
#[derive(Clone, Debug)]
pub struct PercentDecoded(String);

impl View for PercentDecoded {
    type V = Seq<char>;

    closed spec fn view(&self) -> Seq<char> {
        self.0@
    }
}

/// What percent-decoding `s` gives, where the decoded bytes are UTF-8.
pub open spec fn percent_decoded_text(s: Seq<u8>) -> Option<Seq<char>> {
    if valid_utf8(percent_decode(s)) {
        Some(decode_utf8(percent_decode(s)))
    } else {
        None
    }
}

impl PercentDecoded {
    /// Percent-decodes `s`; decoded bytes that are not UTF-8 are a
    /// `400 Bad Request`.
    pub fn decode(s: &str) -> (r: Result<PercentDecoded, Error>)
        ensures
            match r {
                Ok(d) => percent_decoded_text(s.spec_bytes()) == Some(d@),
                Err(e) => percent_decoded_text(s.spec_bytes()) is None && e@.code == 400
                    && e@.source is None,
            },
    {
        match percent_decode_utf8(s) {
            Some(d) => Ok(PercentDecoded(d)),
            None => Err(Error::from_status(StatusCode::bad_request())),
        }
    }

    /// The decoded text.
    pub fn as_str(&self) -> (r: &str)
        ensures
            r@ == self@,
    {
        self.0.as_str()
    }
}

impl std::str::FromStr for PercentDecoded {
    type Err = Error;

    fn from_str(s: &str) -> (r: Result<PercentDecoded, Error>)
        ensures
            match r {
                Ok(d) => percent_decoded_text(s.spec_bytes()) == Some(d@),
                Err(e) => percent_decoded_text(s.spec_bytes()) is None && e@.code == 400
                    && e@.source is None,
            },
    {
        PercentDecoded::decode(s)
    }
}

impl AsRef<str> for PercentDecoded {
    fn as_ref(&self) -> (r: &str)
        ensures
            r@ == self@,
    {
        self.as_str()
    }
}

proof fn lemma_scalar_has_no_percent(c: char)
    requires
        c != '%',
    ensures
        forall|j: int|
            0 <= j < encode_scalar(c as u32).len() ==> #[trigger] encode_scalar(c as u32)[j] != 0x25,
{
    let s = c as u32;
    assert((0xC0u8 | ((s >> 6) & 0x1F) as u8) != 0x25u8) by (bit_vector);
    assert((0xE0u8 | ((s >> 12) & 0x0F) as u8) != 0x25u8) by (bit_vector);
    assert((0xF0u8 | ((s >> 18) & 0x7) as u8) != 0x25u8) by (bit_vector);
    assert((0x80u8 | (s & 0x3F) as u8) != 0x25u8) by (bit_vector);
    assert((0x80u8 | ((s >> 6) & 0x3F) as u8) != 0x25u8) by (bit_vector);
    assert((0x80u8 | ((s >> 12) & 0x3F) as u8) != 0x25u8) by (bit_vector);
    if has_width_1_encoding(s) {
        assert(s != 0x25);
        assert((s & 0x7F) as u8 != 0x25u8) by (bit_vector)
            requires
                s <= 0x7F,
                s != 0x25,
        ;
    }
}

proof fn lemma_encoding_has_no_percent(chars: Seq<char>)
    requires
        forall|i: int| 0 <= i < chars.len() ==> #[trigger] chars[i] != '%',
    ensures
        forall|j: int|
            0 <= j < encode_utf8(chars).len() ==> #[trigger] encode_utf8(chars)[j] != 0x25,
    decreases chars.len(),
{
    if chars.len() > 0 {
        let rest = chars.drop_first();
        assert forall|i: int| 0 <= i < rest.len() implies #[trigger] rest[i] != '%' by {
            assert(rest[i] == chars[i + 1]);
        }
        lemma_encoding_has_no_percent(rest);
        assert(chars[0] != '%');
        lemma_scalar_has_no_percent(chars[0]);
        let head = encode_scalar(chars[0] as u32);
        let all = encode_utf8(chars);
        assert(all == head + encode_utf8(rest));
        assert forall|j: int| 0 <= j < all.len() implies #[trigger] all[j] != 0x25 by {
            if j < head.len() {
                assert(all[j] == head[j]);
            } else {
                assert(all[j] == encode_utf8(rest)[j - head.len()]);
            }
        }
    }
}

proof fn lemma_percent_decode_plain(bytes: Seq<u8>)
    requires
        forall|j: int| 0 <= j < bytes.len() ==> #[trigger] bytes[j] != 0x25,
    ensures
        percent_decode(bytes) == bytes,
    decreases bytes.len(),
{
    if bytes.len() > 0 {
        let rest = bytes.drop_first();
        assert forall|j: int| 0 <= j < rest.len() implies #[trigger] rest[j] != 0x25 by {
            assert(rest[j] == bytes[j + 1]);
        }
        lemma_percent_decode_plain(rest);
        assert(bytes[0] != 0x25);
        assert(seq![bytes[0]] + rest =~= bytes);
    }
}

/// A text without `%` percent-decodes to itself.
pub proof fn law_plain_text_decodes_to_itself(text: Seq<char>)
    requires
        forall|i: int| 0 <= i < text.len() ==> #[trigger] text[i] != '%',
    ensures
        percent_decoded_text(encode_utf8(text)) == Some(text),
{
    lemma_encoding_has_no_percent(text);
    lemma_percent_decode_plain(encode_utf8(text));
    encode_utf8_valid_utf8(text);
    encode_utf8_decode_utf8(text);
}

/// An ASCII letter or digit: the bytes that `NON_ALPHANUMERIC` leaves as they are.
pub open spec fn is_alphanumeric_byte(b: u8) -> bool {
    ||| 0x30 <= b <= 0x39
    ||| 0x41 <= b <= 0x5a
    ||| 0x61 <= b <= 0x7a
}

/// The upper-case hexadecimal digit of `n` (below 16).
pub open spec fn hex_upper(n: int) -> u8 {
    if n < 10 {
        (0x30 + n) as u8
    } else {
        (0x41 + n - 10) as u8
    }
}

/// Percent-encoding of `bytes` as `utf8_percent_encode(_, NON_ALPHANUMERIC)`
/// does it: letters and digits stay, every other byte becomes `%` and two
/// upper-case hexadecimal digits.
pub open spec fn percent_encode(bytes: Seq<u8>) -> Seq<u8>
    decreases bytes.len(),
{
    if bytes.len() == 0 {
        Seq::empty()
    } else if is_alphanumeric_byte(bytes[0]) {
        seq![bytes[0]] + percent_encode(bytes.drop_first())
    } else {
        seq![0x25u8, hex_upper(bytes[0] as int / 16), hex_upper(bytes[0] as int % 16)] + percent_encode(
            bytes.drop_first(),
        )
    }
}

proof fn lemma_decode_encode(bytes: Seq<u8>)
    ensures
        percent_decode(percent_encode(bytes)) == bytes,
    decreases bytes.len(),
{
    if bytes.len() > 0 {
        let b = bytes[0];
        let rest = bytes.drop_first();
        lemma_decode_encode(rest);
        let e = percent_encode(bytes);
        if is_alphanumeric_byte(b) {
            assert(e.drop_first() =~= percent_encode(rest));
        } else {
            let h = hex_upper(b as int / 16);
            let l = hex_upper(b as int % 16);
            assert(e.subrange(3, e.len() as int) =~= percent_encode(rest));
            assert(is_hex_digit(h) && hex_value(h) == b as int / 16);
            assert(is_hex_digit(l) && hex_value(l) == b as int % 16);
            assert((hex_value(h) * 16 + hex_value(l)) as u8 == b);
        }
        assert(bytes =~= seq![b] + rest);
    }
}

/// Percent-encoding any text and decoding it gives the text back.
pub proof fn law_percent_round_trip(text: Seq<char>)
    ensures
        percent_decoded_text(percent_encode(encode_utf8(text))) == Some(text),
{
    lemma_decode_encode(encode_utf8(text));
    encode_utf8_valid_utf8(text);
    encode_utf8_decode_utf8(text);
}

} // verus!

use vstd::prelude::*;
use crate::error::FrostError;

verus! {

/// The lower-case hexadecimal digit of a value below sixteen.
pub open spec fn hex_digit(d: u8) -> char {
    if d == 0 { '0' } else if d == 1 { '1' } else if d == 2 { '2' } else if d == 3 { '3' }
    else if d == 4 { '4' } else if d == 5 { '5' } else if d == 6 { '6' } else if d == 7 { '7' }
    else if d == 8 { '8' } else if d == 9 { '9' } else if d == 10 { 'a' } else if d == 11 { 'b' }
    else if d == 12 { 'c' } else if d == 13 { 'd' } else if d == 14 { 'e' } else { 'f' }
}

/// Lower-case hexadecimal text of a byte string: two digits per byte, high nibble first.
pub open spec fn hex_of(b: Seq<u8>) -> Seq<char>
    decreases b.len(),
{
    if b.len() == 0 {
        Seq::empty()
    } else {
        seq![hex_digit(b[0] / 16), hex_digit(b[0] % 16)] + hex_of(b.drop_first())
    }
}

/// Text that is the hexadecimal form of some byte string.
pub open spec fn is_hex_text(s: Seq<char>) -> bool {
    exists|b: Seq<u8>| hex_of(b) == s
}

/// Relies on `hex::encode`: lower-case digits, two per byte, in order.
#[verifier::external_body]
fn to_hex(b: &Vec<u8>) -> (r: String)
    ensures
        r@ == hex_of(b@),
{
    hex::encode(b)
}

/// Relies on `hex::decode`: it accepts the text that `hex::encode` writes and
/// returns two digits' worth of bytes per byte.
#[verifier::external_body]
fn from_hex(s: &str) -> (r: Option<Vec<u8>>)
    ensures
        is_hex_text(s@) ==> r is Some && hex_of(r->Some_0@) == s@,
        r is Some ==> 2 * r->Some_0@.len() == s@.len(),
{
    hex::decode(s).ok()
}

/// Writes bytes as lower-case hexadecimal text.
pub fn encode_hex(bytes: &Vec<u8>) -> (r: String)
    ensures
        r@ == hex_of(bytes@),
{
    to_hex(bytes)
}

/// Reads hexadecimal text back into bytes.
pub fn decode_hex(text: &str) -> (r: Result<Vec<u8>, FrostError>)
    ensures
        is_hex_text(text@) ==> (r matches Ok(v) && hex_of(v@) == text@),
        r matches Ok(v) ==> 2 * v@.len() == text@.len(),
        r matches Err(e) ==> e == FrostError::MalformedInput,
{
    match from_hex(text) {
        Some(v) => Ok(v),
        None => Err(FrostError::MalformedInput),
    }
}

proof fn lemma_hex_len(b: Seq<u8>)
    ensures
        hex_of(b).len() == 2 * b.len(),
    decreases b.len(),
{
    if b.len() > 0 {
        lemma_hex_len(b.drop_first());
    }
}

proof fn lemma_hex_digit_injective(x: u8, y: u8)
    requires
        x < 16,
        y < 16,
        hex_digit(x) == hex_digit(y),
    ensures
        x == y,
{
}

/// Hexadecimal text determines its bytes, so decoding what encoding wrote
/// gives back the bytes that were encoded.
pub proof fn hex_round_trip(b: Seq<u8>, c: Seq<u8>)
    requires
        hex_of(c) == hex_of(b),
    ensures
        c == b,
    decreases b.len(),
{
    lemma_hex_len(b);
    lemma_hex_len(c);
    if b.len() > 0 {
        let hb = hex_of(b);
        let hc = hex_of(c);
        assert(hb[0] == hex_digit(b[0] / 16));
        assert(hc[0] == hex_digit(c[0] / 16));
        assert(hb[1] == hex_digit(b[0] % 16));
        assert(hc[1] == hex_digit(c[0] % 16));
        lemma_hex_digit_injective(b[0] / 16, c[0] / 16);
        lemma_hex_digit_injective(b[0] % 16, c[0] % 16);
        assert(b[0] == c[0]);
        assert(hex_of(b.drop_first()) =~= hb.subrange(2, hb.len() as int));
        assert(hex_of(c.drop_first()) =~= hc.subrange(2, hc.len() as int));
        hex_round_trip(b.drop_first(), c.drop_first());
        assert(b =~= seq![b[0]] + b.drop_first());
        assert(c =~= seq![c[0]] + c.drop_first());
    }
}

} // verus!

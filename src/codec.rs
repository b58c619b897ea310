//! Decoding of the provider's binary blobs: a list of strings that share one
//! encoding, hex or standard padded base64.

use base64::Engine;
use vstd::prelude::*;

verus! {

/// How every string of a blob is encoded.
#[derive(Clone, Copy, Debug, PartialEq, Eq, Structural)]
pub enum BlobEncoding {
    Base64,
    Hex,
}

/// An encoding together with the encoded strings, in the provider's order.
#[derive(Clone, Debug)]
pub struct BinaryBlob {
    pub encoding: BlobEncoding,
    pub data: Vec<String>,
}

/// Why a blob could not be decoded: the position of the first malformed string.
#[derive(Clone, Copy, Debug, PartialEq, Eq, Structural)]
pub struct BlobDecodeError {
    pub index: usize,
}

#[verifier::external_type_specification]
#[verifier::external_body]
pub struct ExFromHexError(hex::FromHexError);

#[verifier::external_type_specification]
#[verifier::external_body]
pub struct ExBase64DecodeError(base64::DecodeError);

pub open spec fn is_hex_digit(c: char) -> bool {
    ('0' <= c && c <= '9') || ('a' <= c && c <= 'f') || ('A' <= c && c <= 'F')
}

/// The value of a hex digit, of either case.
pub open spec fn hex_value(c: char) -> nat {
    if '0' <= c && c <= '9' {
        (c as nat - '0' as nat) as nat
    } else if 'a' <= c && c <= 'f' {
        (c as nat - 'a' as nat + 10) as nat
    } else {
        (c as nat - 'A' as nat + 10) as nat
    }
}

/// A string that hex decoding accepts: an even number of hex digits.
pub open spec fn is_hex(s: Seq<char>) -> bool {
    &&& s.len() % 2 == 0
    &&& forall|i: int| 0 <= i < s.len() ==> is_hex_digit(#[trigger] s[i])
}

/// The bytes that a hex string stands for, two digits to a byte, high digit first.
pub open spec fn hex_bytes(s: Seq<char>) -> Seq<u8>
    decreases s.len(),
{
    if s.len() < 2 {
        seq![]
    } else {
        seq![(16 * hex_value(s[0]) + hex_value(s[1])) as u8] + hex_bytes(s.subrange(2, s.len() as int))
    }
}

/// The lower-case hex digit for a value below 16.
pub open spec fn hex_digit(v: nat) -> char {
    if v < 10 {
        (v + '0' as nat) as char
    } else {
        (v - 10 + 'a' as nat) as char
    }
}

/// The lower-case hex text of a byte sequence.
pub open spec fn hex_text(b: Seq<u8>) -> Seq<char>
    decreases b.len(),
{
    if b.len() == 0 {
        seq![]
    } else {
        seq![hex_digit(b[0] as nat / 16), hex_digit(b[0] as nat % 16)] + hex_text(b.drop_first())
    }
}

/// A hex digit in lower case; other characters are kept.
pub open spec fn lower_hex_char(c: char) -> char {
    if 'A' <= c && c <= 'F' {
        (c as nat - 'A' as nat + 'a' as nat) as char
    } else {
        c
    }
}

pub open spec fn lower_hex(s: Seq<char>) -> Seq<char> {
    s.map_values(|c: char| lower_hex_char(c))
}

/// What standard padded base64 decoding gives for a string: the bytes, or
/// `None` where the string is not accepted.
pub uninterp spec fn base64_standard_decoded(s: Seq<char>) -> Option<Seq<u8>>;

/// Relies on hex::decode: a string of even length made of hex digits of either
/// case decodes pair by pair, high digit first; any other string is refused.
#[verifier::external_body]
fn hex_decode(s: &str) -> (r: Result<Vec<u8>, hex::FromHexError>)
    ensures
        r is Ok <==> is_hex(s@),
        r is Ok ==> r->Ok_0@ == hex_bytes(s@),
{
    hex::decode(s)
}

/// Relies on hex::encode: two lower-case digits for each byte.
#[verifier::external_body]
fn hex_encode(b: &[u8; 32]) -> (r: String)
    ensures
        r@ == hex_text(b@),
{
    hex::encode(b)
}

/// Relies on base64's STANDARD engine (standard alphabet, canonical padding):
/// its result depends on the string alone.
#[verifier::external_body]
fn base64_decode(s: &str) -> (r: Result<Vec<u8>, base64::DecodeError>)
    ensures
        r is Ok <==> base64_standard_decoded(s@) is Some,
        r is Ok ==> base64_standard_decoded(s@) == Some(r->Ok_0@),
{
    base64::engine::general_purpose::STANDARD.decode(s)
}

/// What one string of a blob decodes to under an encoding.
pub open spec fn decoded_item(encoding: BlobEncoding, s: Seq<char>) -> Option<Seq<u8>> {
    match encoding {
        BlobEncoding::Hex => if is_hex(s) {
            Some(hex_bytes(s))
        } else {
            None
        },
        BlobEncoding::Base64 => base64_standard_decoded(s),
    }
}

/// Every string of the blob decodes.
pub open spec fn decodes_all(encoding: BlobEncoding, data: Seq<String>) -> bool {
    forall|i: int| 0 <= i < data.len() ==> (#[trigger] decoded_item(encoding, data[i]@)) is Some
}

/// `index` is the first string of the blob that does not decode.
pub open spec fn first_malformed(encoding: BlobEncoding, data: Seq<String>, index: int) -> bool {
    &&& 0 <= index < data.len()
    &&& decoded_item(encoding, data[index]@) is None
    &&& forall|j: int| 0 <= j < index ==> (#[trigger] decoded_item(encoding, data[j]@)) is Some
}

/// The decoded bytes are those of each string, in order.
pub open spec fn decoded_as(encoding: BlobEncoding, data: Seq<String>, out: Seq<Vec<u8>>) -> bool {
    &&& out.len() == data.len()
    &&& forall|i: int| 0 <= i < data.len() ==> Some(#[trigger] out[i]@) == decoded_item(encoding, data[i]@)
}

/// Decodes one string under an encoding.
pub fn decode_item(encoding: BlobEncoding, s: &str) -> (r: Option<Vec<u8>>)
    ensures
        r is Some <==> decoded_item(encoding, s@) is Some,
        r is Some ==> decoded_item(encoding, s@) == Some(r->Some_0@),
{
    match encoding {
        BlobEncoding::Hex => match hex_decode(s) {
            Ok(b) => Some(b),
            Err(_) => None,
        },
        BlobEncoding::Base64 => match base64_decode(s) {
            Ok(b) => Some(b),
            Err(_) => None,
        },
    }
}

/// The canonical text of a price identifier: 64 lower-case hex digits.
pub fn identifier_text(id: &[u8; 32]) -> (r: String)
    ensures
        r@ == hex_text(id@),
{
    hex_encode(id)
}

impl BinaryBlob {
    /// Decodes every string of the blob, all or nothing: the first string that
    /// does not decode fails the whole blob.
    pub fn decode(&self) -> (r: Result<Vec<Vec<u8>>, BlobDecodeError>)
        ensures
            r is Ok <==> decodes_all(self.encoding, self.data@),
            r is Ok ==> decoded_as(self.encoding, self.data@, r->Ok_0@),
            r is Err ==> first_malformed(self.encoding, self.data@, r->Err_0.index as int),
    {
        let mut out: Vec<Vec<u8>> = Vec::new();
        let mut i: usize = 0;
        while i < self.data.len()
            invariant
                i <= self.data@.len(),
                out@.len() == i,
                forall|j: int| 0 <= j < i ==> Some(#[trigger] out@[j]@) == decoded_item(self.encoding, self.data@[j]@),
            decreases self.data@.len() - i,
        {
            match decode_item(self.encoding, self.data[i].as_str()) {
                Some(b) => out.push(b),
                None => {
                    assert forall|j: int| 0 <= j < i implies (#[trigger] decoded_item(self.encoding, self.data@[j]@)) is Some by {
                        assert(Some(out@[j]@) == decoded_item(self.encoding, self.data@[j]@));
                    }
                    return Err(BlobDecodeError { index: i });
                },
            }
            i = i + 1;
        }
        assert forall|j: int| 0 <= j < self.data@.len() implies (#[trigger] decoded_item(self.encoding, self.data@[j]@)) is Some by {
            assert(Some(out@[j]@) == decoded_item(self.encoding, self.data@[j]@));
        }
        Ok(out)
    }
}

/// Decoding a hex string and writing the bytes back as hex gives the string
/// again, with its digits in lower case.
pub proof fn lemma_hex_round_trip(s: Seq<char>)
    requires
        is_hex(s),
    ensures
        hex_text(hex_bytes(s)) == lower_hex(s),
    decreases s.len(),
{
    if s.len() == 0 {
        assert(lower_hex(s) =~= seq![]);
    } else {
        let rest = s.subrange(2, s.len() as int);
        assert forall|i: int| 0 <= i < rest.len() implies is_hex_digit(#[trigger] rest[i]) by {
            assert(rest[i] == s[i + 2]);
        }
        lemma_hex_round_trip(rest);
        assert(is_hex_digit(s[0]) && is_hex_digit(s[1]));
        let h = hex_value(s[0]);
        let l = hex_value(s[1]);
        let b = (16 * h + l) as u8;
        assert(h < 16 && l < 16);
        assert(b as nat / 16 == h && b as nat % 16 == l) by (nonlinear_arith)
            requires
                h < 16,
                l < 16,
                b as nat == 16 * h + l,
        ;
        assert(hex_digit(h) == lower_hex_char(s[0]));
        assert(hex_digit(l) == lower_hex_char(s[1]));
        let bs = hex_bytes(s);
        assert(bs == seq![b] + hex_bytes(rest));
        assert(bs.drop_first() =~= hex_bytes(rest));
        assert(lower_hex(s) =~= seq![lower_hex_char(s[0]), lower_hex_char(s[1])] + lower_hex(rest));
    }
}

/// A blob with no strings decodes to no byte sequences, whatever its encoding.
pub proof fn lemma_empty_blob_decodes_to_nothing(encoding: BlobEncoding)
    ensures
        decodes_all(encoding, Seq::<String>::empty()),
        decoded_as(encoding, Seq::<String>::empty(), Seq::<Vec<u8>>::empty()),
{
}

/// One string that does not decode fails the whole blob, however many strings
/// before it decode.
pub proof fn lemma_malformed_item_fails_blob(encoding: BlobEncoding, data: Seq<String>, k: int)
    requires
        0 <= k < data.len(),
        decoded_item(encoding, data[k]@) is None,
    ensures
        !decodes_all(encoding, data),
{
}

/// A character that is not a hex digit makes a string malformed as hex.
pub proof fn lemma_non_hex_char_malformed(s: Seq<char>, j: int)
    requires
        0 <= j < s.len(),
        !is_hex_digit(s[j]),
    ensures
        decoded_item(BlobEncoding::Hex, s) is None,
{
}

} // verus!

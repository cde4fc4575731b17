//! Serialization of a payload to its broker wire text: a flat JSON-style
//! object of string fields. The field texts (hex addresses, decimal
//! quantities, classification names) are derived here; the JSON assembly
//! itself is the outside encoder's.

use vstd::prelude::*;
use crate::payload::MqStreamingPayload;
use crate::payload::PayloadView;
use crate::types::Address;
use crate::types::CallType;
use crate::types::RewardType;
use crate::types::U256;

verus! {

broadcast use vstd::array::group_array_axioms;

/// ASCII bytes read as the characters with the same codes.
pub open spec fn ascii_chars(bs: Seq<u8>) -> Seq<char> {
    bs.map_values(|b: u8| b as char)
}

/// The character of one decimal digit.
pub open spec fn dec_digit(n: nat) -> char {
    ((48 + n) as u8) as char
}

/// The plain decimal digits of `n`, without padding or sign: what the
/// wire text shows for a quantity.
pub open spec fn dec_rep(n: nat) -> Seq<char>
    decreases n,
{
    if n < 10 {
        seq![dec_digit(n)]
    } else {
        dec_rep(n / 10).push(dec_digit(n % 10))
    }
}

/// The ASCII code of one lowercase hexadecimal digit.
pub open spec fn hex_digit(n: nat) -> u8 {
    if n < 10 {
        (48 + n) as u8
    } else {
        (87 + n) as u8
    }
}

/// The ASCII codes of `0x` followed by two lowercase hexadecimal digits
/// per byte.
pub open spec fn hex_ascii(bs: Seq<u8>) -> Seq<u8> {
    seq![48u8, 120u8] + Seq::new(
        bs.len() * 2,
        |i: int|
            hex_digit(
                if i % 2 == 0 {
                    bs[i / 2] as nat / 16
                } else {
                    bs[i / 2] as nat % 16
                },
            ),
    )
}

/// The wire text of an address: `0x` and its bytes in lowercase hex.
pub open spec fn address_text(a: Seq<u8>) -> Seq<char> {
    ascii_chars(hex_ascii(a))
}

/// The wire text of a call classification.
pub open spec fn call_type_rep(t: CallType) -> Seq<char> {
    match t {
        CallType::NoCall => "None"@,
        CallType::Call => "Call"@,
        CallType::DelegateCall => "DelegateCall"@,
        CallType::StaticCall => "StaticCall"@,
    }
}

/// The wire text of a reward classification.
pub open spec fn reward_type_rep(t: RewardType) -> Seq<char> {
    match t {
        RewardType::Block => "Block"@,
        RewardType::Uncle => "Uncle"@,
        RewardType::EmptyStep => "EmptyStep"@,
    }
}

/// The key/value string pairs of one payload's wire object, in key
/// order. The input and output fields carry fixed marker texts, not the
/// buffered bytes.
pub open spec fn payload_pairs(p: PayloadView) -> Seq<(Seq<char>, Seq<char>)> {
    seq![
        ("call_type"@, call_type_rep(p.call_type)),
        ("code_address"@, address_text(p.code_address)),
        ("from"@, address_text(p.from)),
        ("gas"@, dec_rep(p.gas)),
        ("gas_price"@, dec_rep(p.gas_price)),
        ("gas_used"@, dec_rep(p.gas_used)),
        ("input_data"@, "input_data"@),
        ("origin"@, address_text(p.origin)),
        ("output_data"@, "output_data"@),
        ("reward_type"@, reward_type_rep(p.reward_type)),
        ("to"@, address_text(p.to)),
        ("value"@, dec_rep(p.value)),
    ]
}

/// The mathematical content of a list of string pairs.
pub open spec fn pairs_view(pairs: Seq<(String, String)>) -> Seq<(Seq<char>, Seq<char>)> {
    pairs.map_values(|p: (String, String)| (p.0@, p.1@))
}

/// The wire text of a JSON-style object whose fields are the given
/// key/value string pairs. The text is the outside encoder's and depends
/// on the pairs alone.
pub uninterp spec fn json_object_text(pairs: Seq<(Seq<char>, Seq<char>)>) -> Seq<char>;

/// Relies on `rustc_serialize::json::encode`, applied to a JSON object
/// that maps each pair's key to its value as a JSON string: the encoded
/// text is a function of the pairs alone. Encoding a string-keyed object
/// of strings cannot fail, so the encoder's `Result` is always `Ok`.
#[verifier::external_body]
fn json_encode_pairs(pairs: &Vec<(String, String)>) -> (r: String)
    ensures
        r@ == json_object_text(pairs_view(pairs@)),
{
    let mut obj = std::collections::BTreeMap::new();
    for (k, v) in pairs.iter() {
        obj.insert(k.clone(), rustc_serialize::json::Json::String(v.clone()));
    }
    match rustc_serialize::json::encode(&rustc_serialize::json::Json::Object(obj)) {
        Ok(s) => s,
        Err(_) => String::new(),
    }
}

/// Relies on `String::from_utf8`: ASCII bytes are one-byte UTF-8 code
/// points, decoded to the characters with the same codes.
#[verifier::external_body]
fn ascii_to_string(bytes: Vec<u8>) -> (r: String)
    requires
        forall|i: int| 0 <= i < bytes@.len() ==> bytes@[i] < 128,
    ensures
        r@ == ascii_chars(bytes@),
{
    match String::from_utf8(bytes) {
        Ok(s) => s,
        Err(_) => String::new(),
    }
}

/// Relies on the 256-bit unsigned type of `ethereum_types` (four
/// little-endian 64-bit words) and its display form, which is the plain
/// decimal digits of the value, without padding or sign.
#[verifier::external_body]
fn u256_decimal(v: &U256) -> (r: String)
    ensures
        r@ == dec_rep(v@),
{
    ethereum_types::U256([v.w0, v.w1, v.w2, v.w3]).to_string()
}

/// The wire text of a quantity: its plain decimal digits.
pub fn u256_text(v: &U256) -> (r: String)
    ensures
        r@ == dec_rep(v@),
{
    u256_decimal(v)
}

/// The ASCII code of one hexadecimal digit value.
fn hex_digit_char(n: u8) -> (r: u8)
    requires
        n < 16,
    ensures
        r == hex_digit(n as nat),
{
    if n < 10 {
        48 + n
    } else {
        87 + n
    }
}

/// The wire text of an address: `0x` and its 20 bytes in lowercase hex.
pub fn address_hex(a: &Address) -> (r: String)
    ensures
        r@ == address_text(a@),
{
    let mut out: Vec<u8> = Vec::new();
    out.push(48);
    out.push(120);
    let mut i: usize = 0;
    while i < 20
        invariant
            i <= 20,
            out@.len() == 2 + 2 * i,
            out@[0] == 48,
            out@[1] == 120,
            forall|j: int|
                0 <= j < 2 * i ==> #[trigger] out@[2 + j] == hex_digit(
                    if j % 2 == 0 {
                        a@[j / 2] as nat / 16
                    } else {
                        a@[j / 2] as nat % 16
                    },
                ),
            forall|j: int| 0 <= j < out@.len() ==> out@[j] < 128,
        decreases 20 - i,
    {
        let b = a.bytes[i];
        out.push(hex_digit_char(b / 16));
        out.push(hex_digit_char(b % 16));
        i = i + 1;
    }
    proof {
        assert(a@.len() == 20);
        let full = hex_ascii(a@);
        assert(full.len() == 42);
        assert forall|k: int| 0 <= k < 42 implies out@[k] == full[k] by {
            if k >= 2 {
                let j = k - 2;
                assert(out@[2 + j] == hex_digit(
                    if j % 2 == 0 {
                        a@[j / 2] as nat / 16
                    } else {
                        a@[j / 2] as nat % 16
                    },
                ));
            }
        }
        assert(out@ =~= full);
    }
    ascii_to_string(out)
}

/// The wire text of a call classification.
pub fn call_type_text(t: CallType) -> (r: &'static str)
    ensures
        r@ == call_type_rep(t),
{
    match t {
        CallType::NoCall => "None",
        CallType::Call => "Call",
        CallType::DelegateCall => "DelegateCall",
        CallType::StaticCall => "StaticCall",
    }
}

/// The wire text of a reward classification.
pub fn reward_type_text(t: &RewardType) -> (r: &'static str)
    ensures
        r@ == reward_type_rep(*t),
{
    match t {
        RewardType::Block => "Block",
        RewardType::Uncle => "Uncle",
        RewardType::EmptyStep => "EmptyStep",
    }
}

impl MqStreamingPayload {
    /// The payload's wire object, as key/value string pairs in key order.
    pub fn json_pairs(&self) -> (r: Vec<(String, String)>)
        ensures
            pairs_view(r@) == payload_pairs(self@),
    {
        let mut r: Vec<(String, String)> = Vec::new();
        r.push(("call_type".to_owned(), call_type_text(self.call_type).to_owned()));
        r.push(("code_address".to_owned(), address_hex(&self.code_address)));
        r.push(("from".to_owned(), address_hex(&self.from)));
        r.push(("gas".to_owned(), u256_text(&self.gas)));
        r.push(("gas_price".to_owned(), u256_text(&self.gas_price)));
        r.push(("gas_used".to_owned(), u256_text(&self.gas_used)));
        r.push(("input_data".to_owned(), "input_data".to_owned()));
        r.push(("origin".to_owned(), address_hex(&self.origin)));
        r.push(("output_data".to_owned(), "output_data".to_owned()));
        r.push(("reward_type".to_owned(), reward_type_text(&self.reward_type).to_owned()));
        r.push(("to".to_owned(), address_hex(&self.to)));
        r.push(("value".to_owned(), u256_text(&self.value)));
        proof {
            assert(pairs_view(r@) =~= payload_pairs(self@));
        }
        r
    }

    /// The payload's whole wire text: the encoded object of its pairs.
    /// Serialized once per publish attempt and then discarded.
    pub fn to_string(&self) -> (r: String)
        ensures
            r@ == json_object_text(payload_pairs(self@)),
    {
        let pairs = self.json_pairs();
        json_encode_pairs(&pairs)
    }
}

} // verus!

//! The protobuf wire format, as the `prost` crate writes and reads it.
//!
//! The spec functions say which bytes stand for a value; the
//! functions that produce and consume them call `prost::encoding`.

use vstd::prelude::*;
use vstd::utf8::*;

verus! {

/// The largest field number of a message.
pub const MAX_TAG: u32 = 0x1fff_ffff;

/// The kind of value that follows a field key.
#[derive(Clone, Copy, Debug, PartialEq, Eq, Structural)]
pub enum WireKind {
    Varint,
    SixtyFourBit,
    LengthDelimited,
    StartGroup,
    EndGroup,
    ThirtyTwoBit,
}

impl WireKind {
    /// The number that stands for the kind in a field key.
    pub open spec fn number(self) -> u8 {
        match self {
            WireKind::Varint => 0,
            WireKind::SixtyFourBit => 1,
            WireKind::LengthDelimited => 2,
            WireKind::StartGroup => 3,
            WireKind::EndGroup => 4,
            WireKind::ThirtyTwoBit => 5,
        }
    }

    /// The kind that a number up to 5 stands for.
    pub open spec fn of_number(n: int) -> WireKind {
        if n == 0 {
            WireKind::Varint
        } else if n == 1 {
            WireKind::SixtyFourBit
        } else if n == 2 {
            WireKind::LengthDelimited
        } else if n == 3 {
            WireKind::StartGroup
        } else if n == 4 {
            WireKind::EndGroup
        } else {
            WireKind::ThirtyTwoBit
        }
    }
}

/// The bytes of `v` as a variable-length integer: seven bits to a byte, the
/// low bits first, the top bit set on every byte but the last.
pub open spec fn varint(v: nat) -> Seq<u8>
    decreases v,
{
    if v < 128 {
        seq![v as u8]
    } else {
        seq![(v % 128 + 128) as u8] + varint(v / 128)
    }
}

/// Reads a variable-length integer from the front of `bytes`, looking at no
/// more than `limit` bytes: the sum of its seven-bit groups and the number
/// of bytes read. `None` where none of those bytes is below 128.
pub open spec fn varint_prefix(bytes: Seq<u8>, limit: nat) -> Option<(nat, nat)>
    decreases limit,
{
    if limit == 0 || bytes.len() == 0 {
        None
    } else if bytes[0] < 128 {
        Some((bytes[0] as nat, 1nat))
    } else {
        match varint_prefix(bytes.skip(1), (limit - 1) as nat) {
            Some((v, n)) => Some(((bytes[0] - 128 + 128 * v) as nat, n + 1)),
            None => None,
        }
    }
}

/// The 64-bit integer at the front of `bytes` and the number of bytes it
/// takes. At most ten bytes are read, and bits above the 64th are dropped.
pub open spec fn varint_at(bytes: Seq<u8>) -> Option<(u64, nat)> {
    match varint_prefix(bytes, 10) {
        Some((v, n)) => Some(((v % 0x1_0000_0000_0000_0000) as u64, n)),
        None => None,
    }
}

/// The field key at the front of `bytes`: the field's number, the kind of
/// its value, and the number of bytes that the key takes.
pub open spec fn key_at(bytes: Seq<u8>) -> Option<(u32, WireKind, nat)> {
    match varint_at(bytes) {
        Some((key, n)) => if key <= u32::MAX && key % 8 <= 5 && key / 8 >= 1 {
            Some(((key / 8) as u32, WireKind::of_number((key % 8) as int), n))
        } else {
            None
        },
        None => None,
    }
}

/// The bytes of a string field: its key, the length of the text in bytes,
/// and the text in UTF-8.
pub open spec fn string_field(tag: u32, text: Seq<char>) -> Seq<u8> {
    varint((tag * 8 + 2) as nat) + varint(encode_utf8(text).len()) + encode_utf8(text)
}

/// The text of a string value at the front of `bytes`, which stand behind a
/// key of kind `kind`, and the number of bytes that the value takes.
pub open spec fn string_at(kind: WireKind, bytes: Seq<u8>) -> Option<(Seq<char>, nat)> {
    if kind != WireKind::LengthDelimited {
        None
    } else {
        match varint_at(bytes) {
            Some((len, n)) => {
                let text = bytes.subrange(n as int, n + len);
                if len <= bytes.len() - n && valid_utf8(text) {
                    Some((decode_utf8(text), (n + len) as nat))
                } else {
                    None
                }
            },
            None => None,
        }
    }
}

/// 128 to the power `k`.
pub open spec fn pow128(k: nat) -> nat
    decreases k,
{
    if k == 0 {
        1
    } else {
        128 * pow128((k - 1) as nat)
    }
}

/// A number below 128 to the power `k` takes at most `k` bytes as a
/// variable-length integer, and any number takes at least one.
pub proof fn lemma_varint_len(v: nat, k: nat)
    requires
        1 <= k,
        v < pow128(k),
    ensures
        1 <= varint(v).len() <= k,
    decreases k,
{
    if v >= 128 {
        assert(pow128(1) == 128) by {
            reveal_with_fuel(pow128, 2);
        }
        assert(k >= 2);
        lemma_varint_len(v / 128, (k - 1) as nat);
    }
}

/// A 64-bit integer takes at most ten bytes as a variable-length integer.
pub proof fn lemma_varint_len_u64(v: u64)
    ensures
        1 <= varint(v as nat).len() <= 10,
{
    assert(pow128(10) == 0x40_0000_0000_0000_0000) by {
        reveal_with_fuel(pow128, 11);
    }
    lemma_varint_len(v as nat, 10);
}

/// A variable-length integer that is read takes at least one byte, no more
/// than the limit and no more than there are.
pub proof fn lemma_varint_prefix_bounds(bytes: Seq<u8>, limit: nat)
    ensures
        varint_prefix(bytes, limit) matches Some((v, n)) ==> 1 <= n <= limit && n <= bytes.len(),
    decreases limit,
{
    if limit != 0 && bytes.len() != 0 && bytes[0] >= 128 {
        lemma_varint_prefix_bounds(bytes.skip(1), (limit - 1) as nat);
    }
}

/// Reading gives back what was written: in front of any bytes, the
/// variable-length integer of `v` is read as `v`, where the limit admits its
/// length.
pub proof fn lemma_varint_prefix_of_varint(v: nat, rest: Seq<u8>, limit: nat)
    requires
        varint(v).len() <= limit,
    ensures
        varint_prefix(varint(v) + rest, limit) == Some((v, varint(v).len())),
    decreases v,
{
    let bytes = varint(v) + rest;
    if v >= 128 {
        assert(bytes[0] == (v % 128 + 128) as u8);
        assert(bytes.skip(1) =~= varint(v / 128) + rest);
        lemma_varint_prefix_of_varint(v / 128, rest, (limit - 1) as nat);
    } else {
        assert(bytes[0] == v as u8);
    }
}

/// In front of any bytes, the variable-length integer of a 64-bit `v` is
/// read as `v`.
pub proof fn lemma_varint_at_of_varint(v: u64, rest: Seq<u8>)
    ensures
        varint_at(varint(v as nat) + rest) == Some((v, varint(v as nat).len())),
{
    lemma_varint_len_u64(v);
    lemma_varint_prefix_of_varint(v as nat, rest, 10);
}

/// A key that is read takes at least one byte and no more than there are,
/// and its field number is at least 1.
pub proof fn lemma_key_at_bounds(bytes: Seq<u8>)
    ensures
        key_at(bytes) matches Some((tag, kind, n)) ==> 1 <= n <= bytes.len() && n <= 10 && 1
            <= tag <= MAX_TAG,
{
    lemma_varint_prefix_bounds(bytes, 10);
}

/// A string value that is read takes no more bytes than there are.
pub proof fn lemma_string_at_bounds(kind: WireKind, bytes: Seq<u8>)
    ensures
        string_at(kind, bytes) matches Some((text, n)) ==> 1 <= n <= bytes.len(),
{
    lemma_varint_prefix_bounds(bytes, 10);
}

/// A string field that was written is read back: in front of any bytes, its
/// key is read as the field's number with the length-delimited kind, and
/// behind the key its value is read as the text, up to where `rest` begins.
pub proof fn lemma_string_field_read(tag: u32, text: Seq<char>, rest: Seq<u8>)
    requires
        1 <= tag <= MAX_TAG,
        encode_utf8(text).len() <= u64::MAX,
    ensures
        ({
            let key = varint((tag * 8 + 2) as nat);
            let field = string_field(tag, text);
            &&& key_at(field + rest) == Some((tag, WireKind::LengthDelimited, key.len()))
            &&& string_at(WireKind::LengthDelimited, (field + rest).skip(key.len() as int))
                == Some((text, (field.len() - key.len()) as nat))
            &&& (field + rest).skip(key.len() as int).skip(field.len() - key.len()) == rest
        }),
{
    let key = varint((tag * 8 + 2) as nat);
    let utf8 = encode_utf8(text);
    let len = varint(utf8.len());
    let field = string_field(tag, text);
    let k: u64 = (tag * 8 + 2) as u64;
    assert(field + rest =~= key + (len + utf8 + rest));
    lemma_varint_at_of_varint(k, len + utf8 + rest);
    assert(k / 8 == tag && k % 8 == 2);
    let body = (field + rest).skip(key.len() as int);
    assert(body =~= len + (utf8 + rest));
    lemma_varint_at_of_varint(utf8.len() as u64, utf8 + rest);
    assert(body.subrange(len.len() as int, (len.len() + utf8.len()) as int) =~= utf8);
    encode_utf8_valid_utf8(text);
    encode_utf8_decode_utf8(text);
    assert(body.skip(field.len() - key.len()) =~= rest);
}

/// The number of bytes that `prost::encoding::skip_field` passes over for a
/// value of the kind numbered `kind` in field `tag`, or `None` where it
/// reports an error.
pub uninterp spec fn skipped_len(kind: u8, tag: u32, bytes: Seq<u8>) -> Option<nat>;

#[verifier::external_type_specification]
#[verifier::external_body]
pub struct ExProstDecodeError(prost::DecodeError);

/// Calls `prost::encoding::string::encode`, which appends to `buf` the key
/// of field `tag` with the length-delimited kind, the byte length of `value`
/// as a variable-length integer, and the bytes of `value`.
#[verifier::external_body]
pub(crate) fn put_string_field(tag: u32, value: &String, buf: &mut Vec<u8>)
    requires
        1 <= tag <= MAX_TAG,
    ensures
        final(buf)@ == old(buf)@ + string_field(tag, value@),
{
    prost::encoding::string::encode(tag, value, buf);
}

/// Calls `prost::encoding::decode_key` on `bytes`. It reads a
/// variable-length integer and fails where there is none, where it is above
/// `u32::MAX`, where its low three bits are above 5, or where the rest is 0.
/// Otherwise it returns the rest as the field number, the kind for the low
/// three bits, and the bytes behind the integer.
#[verifier::external_body]
pub(crate) fn take_key<'a>(bytes: &'a [u8]) -> (r: Result<
    (u32, WireKind, &'a [u8]),
    prost::DecodeError,
>)
    ensures
        match key_at(bytes@) {
            Some((tag, kind, n)) => r matches Ok((t, k, rest)) && t == tag && k == kind && rest@
                == bytes@.skip(n as int),
            None => r is Err,
        },
{
    let mut rest = bytes;
    let (tag, wire_type) = prost::encoding::decode_key(&mut rest)?;
    let kind = match wire_type {
        prost::encoding::WireType::Varint => WireKind::Varint,
        prost::encoding::WireType::SixtyFourBit => WireKind::SixtyFourBit,
        prost::encoding::WireType::LengthDelimited => WireKind::LengthDelimited,
        prost::encoding::WireType::StartGroup => WireKind::StartGroup,
        prost::encoding::WireType::EndGroup => WireKind::EndGroup,
        prost::encoding::WireType::ThirtyTwoBit => WireKind::ThirtyTwoBit,
    };
    Ok((tag, kind, rest))
}

/// Calls `prost::encoding::string::merge` on `bytes` with an empty string.
/// It fails where `kind` is not length-delimited, where no variable-length
/// integer stands in front, where that integer is above the number of bytes
/// behind it, or where that many bytes are not UTF-8. Otherwise it returns
/// their text and the bytes behind them.
#[verifier::external_body]
pub(crate) fn take_string<'a>(kind: WireKind, bytes: &'a [u8]) -> (r: Result<
    (String, &'a [u8]),
    prost::DecodeError,
>)
    ensures
        match string_at(kind, bytes@) {
            Some((text, n)) => r matches Ok((value, rest)) && value@ == text && rest@
                == bytes@.skip(n as int),
            None => r is Err,
        },
{
    let wire_type = match kind {
        WireKind::Varint => prost::encoding::WireType::Varint,
        WireKind::SixtyFourBit => prost::encoding::WireType::SixtyFourBit,
        WireKind::LengthDelimited => prost::encoding::WireType::LengthDelimited,
        WireKind::StartGroup => prost::encoding::WireType::StartGroup,
        WireKind::EndGroup => prost::encoding::WireType::EndGroup,
        WireKind::ThirtyTwoBit => prost::encoding::WireType::ThirtyTwoBit,
    };
    let (mut rest, mut value) = (bytes, String::new());
    let ctx = prost::encoding::DecodeContext::default();
    prost::encoding::string::merge(wire_type, &mut value, &mut rest, ctx)?;
    Ok((value, rest))
}

/// Calls `prost::encoding::skip_field` on `bytes`, which passes over the
/// value of a field that the reader does not know. Where it succeeds it has
/// advanced within `bytes`, and what is returned is what is left behind the
/// value.
#[verifier::external_body]
pub(crate) fn skip_value<'a>(kind: WireKind, tag: u32, bytes: &'a [u8]) -> (r: Result<
    &'a [u8],
    prost::DecodeError,
>)
    ensures
        match skipped_len(kind.number(), tag, bytes@) {
            Some(n) => r matches Ok(rest) && rest@ == bytes@.skip(n as int) && n <= bytes@.len(),
            None => r is Err,
        },
{
    let wire_type = match kind {
        WireKind::Varint => prost::encoding::WireType::Varint,
        WireKind::SixtyFourBit => prost::encoding::WireType::SixtyFourBit,
        WireKind::LengthDelimited => prost::encoding::WireType::LengthDelimited,
        WireKind::StartGroup => prost::encoding::WireType::StartGroup,
        WireKind::EndGroup => prost::encoding::WireType::EndGroup,
        WireKind::ThirtyTwoBit => prost::encoding::WireType::ThirtyTwoBit,
    };
    let mut rest = bytes;
    let ctx = prost::encoding::DecodeContext::default();
    prost::encoding::skip_field(wire_type, tag, &mut rest, ctx)?;
    Ok(rest)
}

/// Calls `prost::DecodeError::push`, which notes in the error the message
/// and the field that were being read.
#[verifier::external_body]
pub(crate) fn error_in_field(
    error: prost::DecodeError,
    message: &'static str,
    field: &'static str,
) -> prost::DecodeError {
    let mut error = error;
    error.push(message, field);
    error
}

/// Formats a `prost::DecodeError` as its `Display` impl writes it.
#[verifier::external_body]
pub(crate) fn error_text(error: &prost::DecodeError) -> String {
    format!("{}", error)
}

} // verus!

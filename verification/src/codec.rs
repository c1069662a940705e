//! The length-prefixed byte-string format in which transition proofs are
//! persisted. The bytes are produced and read by the `rlp` crate; this module
//! states the format and proves that reading undoes writing.

use vstd::prelude::*;

verus! {

/// Why a byte string could not be read as one length-prefixed item.
#[derive(Debug, Clone, Copy, PartialEq, Eq, Structural)]
pub enum DecodeError {
    /// No bytes at all.
    TooShort,
    /// The prefix announces a list, not a byte string.
    ExpectedData,
    /// A longer form was used where a shorter one is mandatory, or the length
    /// starts with a zero byte.
    InvalidIndirection,
    /// Fewer bytes follow than the prefix announces.
    InconsistentLength,
    /// The announced length does not fit the address space.
    InvalidLength,
    /// The length is written in more bytes than a machine word has.
    TooBig,
    /// A failure that reading a byte string does not produce.
    Other,
}

/// The number a big-endian byte string denotes.
pub open spec fn be_value(bytes: Seq<u8>) -> nat
    decreases bytes.len(),
{
    if bytes.len() == 0 {
        0
    } else {
        be_value(bytes.drop_last()) * 256 + bytes.last() as nat
    }
}

/// The length field of a long item: `len` modulo 2^32, big-endian, without
/// leading zero bytes (so no byte at all for zero).
pub open spec fn length_field(len: nat) -> Seq<u8> {
    let m = len % 0x1_0000_0000;
    if m == 0 {
        seq![]
    } else if m < 0x100 {
        seq![m as u8]
    } else if m < 0x1_0000 {
        seq![(m / 0x100) as u8, (m % 0x100) as u8]
    } else if m < 0x100_0000 {
        seq![(m / 0x1_0000) as u8, (m / 0x100 % 0x100) as u8, (m % 0x100) as u8]
    } else {
        seq![
            (m / 0x100_0000) as u8,
            (m / 0x1_0000 % 0x100) as u8,
            (m / 0x100 % 0x100) as u8,
            (m % 0x100) as u8,
        ]
    }
}

/// The encoding of a byte string: a single byte below 0x80 stands for itself;
/// up to 55 bytes follow a prefix of 0x80 plus their number; a longer string
/// follows 0xb7 plus the size of its length field, and that field.
pub open spec fn string_encoding(data: Seq<u8>) -> Seq<u8> {
    if data.len() == 1 && data[0] < 0x80 {
        data
    } else if data.len() <= 55 {
        seq![(0x80 + data.len()) as u8] + data
    } else {
        let field = length_field(data.len());
        seq![(0xb7 + field.len()) as u8] + field + data
    }
}

/// What reading one byte string from the front of `raw` gives. Bytes after
/// the item are ignored.
pub open spec fn string_decoding(raw: Seq<u8>) -> Result<Seq<u8>, DecodeError> {
    if raw.len() == 0 {
        Err(DecodeError::TooShort)
    } else if raw[0] <= 0x7f {
        Ok(seq![raw[0]])
    } else if raw[0] <= 0xb7 {
        let end = raw[0] - 0x7f;
        if raw.len() < end {
            Err(DecodeError::InconsistentLength)
        } else if raw[0] == 0x81 && raw[1] < 0x80 {
            Err(DecodeError::InvalidIndirection)
        } else {
            Ok(raw.subrange(1, end))
        }
    } else if raw[0] <= 0xbf {
        let begin = raw[0] - 0xb6;
        if raw.len() < begin {
            Err(DecodeError::InconsistentLength)
        } else if begin - 1 > usize::BITS / 8 {
            Err(DecodeError::TooBig)
        } else if raw[1] == 0 {
            Err(DecodeError::InvalidIndirection)
        } else {
            let len = be_value(raw.subrange(1, begin));
            if begin + len > usize::MAX {
                Err(DecodeError::InvalidLength)
            } else if raw.len() < begin + len {
                Err(DecodeError::InconsistentLength)
            } else {
                Ok(raw.subrange(begin, begin + len))
            }
        }
    } else {
        Err(DecodeError::ExpectedData)
    }
}

/// The decoder's error type, with its variants as the crate declares them.
#[verifier::external_type_specification]
pub struct ExDecoderError(rlp::DecoderError);

/// `rlp::encode` on a byte vector. Claims that the bytes it returns are
/// `string_encoding` of the input, the length field being written from the
/// length truncated to 32 bits.
#[verifier::external_body]
pub(crate) fn rlp_encode(data: &Vec<u8>) -> (out: Vec<u8>)
    ensures
        out@ == string_encoding(data@),
{
    rlp::encode(data).into_vec()
}

/// `rlp::decode` to a byte vector. Claims that it succeeds exactly where
/// `string_decoding` does, with that payload, and fails with the error that
/// `string_decoding` names.
#[verifier::external_body]
pub(crate) fn rlp_decode(raw: &[u8]) -> (r: Result<Vec<u8>, rlp::DecoderError>)
    ensures
        match r {
            Ok(v) => string_decoding(raw@) == Ok::<Seq<u8>, DecodeError>(v@),
            Err(e) => string_decoding(raw@) == Err::<Seq<u8>, DecodeError>(error_kind(e)),
        },
{
    rlp::decode::<Vec<u8>>(raw)
}

/// The library's name for a failure of the decoder.
pub open spec fn error_kind(e: rlp::DecoderError) -> DecodeError {
    match e {
        rlp::DecoderError::RlpIsTooShort => DecodeError::TooShort,
        rlp::DecoderError::RlpExpectedToBeData => DecodeError::ExpectedData,
        rlp::DecoderError::RlpInvalidIndirection => DecodeError::InvalidIndirection,
        rlp::DecoderError::RlpInconsistentLengthAndData => DecodeError::InconsistentLength,
        rlp::DecoderError::RlpInvalidLength => DecodeError::InvalidLength,
        rlp::DecoderError::RlpIsTooBig => DecodeError::TooBig,
        _ => DecodeError::Other,
    }
}

/// Maps a failure of the decoder to the library's own error.
pub fn classify(e: rlp::DecoderError) -> (k: DecodeError)
    ensures
        k == error_kind(e),
{
    match e {
        rlp::DecoderError::RlpIsTooShort => DecodeError::TooShort,
        rlp::DecoderError::RlpExpectedToBeData => DecodeError::ExpectedData,
        rlp::DecoderError::RlpInvalidIndirection => DecodeError::InvalidIndirection,
        rlp::DecoderError::RlpInconsistentLengthAndData => DecodeError::InconsistentLength,
        rlp::DecoderError::RlpInvalidLength => DecodeError::InvalidLength,
        rlp::DecoderError::RlpIsTooBig => DecodeError::TooBig,
        _ => DecodeError::Other,
    }
}

/// A length field of a length that fits 32 bits has at most four bytes, starts
/// with a non-zero byte unless the length is zero, and denotes the length.
proof fn lemma_length_field(len: nat)
    requires
        len <= u32::MAX,
    ensures
        length_field(len).len() <= 4,
        len > 0 ==> length_field(len).len() >= 1 && length_field(len)[0] != 0,
        be_value(length_field(len)) == len,
{
    let field = length_field(len);
    reveal_with_fuel(be_value, 5);
    if len == 0 {
    } else if len < 0x100 {
        assert(field.drop_last() =~= Seq::<u8>::empty());
    } else if len < 0x1_0000 {
        let a = field.drop_last();
        assert(a =~= seq![(len / 0x100) as u8]);
        assert(a.drop_last() =~= Seq::<u8>::empty());
    } else if len < 0x100_0000 {
        let a = field.drop_last();
        assert(a =~= seq![(len / 0x1_0000) as u8, (len / 0x100 % 0x100) as u8]);
        let b = a.drop_last();
        assert(b =~= seq![(len / 0x1_0000) as u8]);
        assert(b.drop_last() =~= Seq::<u8>::empty());
    } else {
        let a = field.drop_last();
        assert(a =~= seq![
            (len / 0x100_0000) as u8,
            (len / 0x1_0000 % 0x100) as u8,
            (len / 0x100 % 0x100) as u8,
        ]);
        let b = a.drop_last();
        assert(b =~= seq![(len / 0x100_0000) as u8, (len / 0x1_0000 % 0x100) as u8]);
        let c = b.drop_last();
        assert(c =~= seq![(len / 0x100_0000) as u8]);
        assert(c.drop_last() =~= Seq::<u8>::empty());
    }
}

/// Reading undoes writing: the encoding of a byte string whose length fits 32
/// bits, and whose encoding fits the address space, decodes to that string.
pub proof fn law_decoding_undoes_encoding(data: Seq<u8>)
    requires
        data.len() <= u32::MAX,
        string_encoding(data).len() <= usize::MAX,
    ensures
        string_decoding(string_encoding(data)) == Ok::<Seq<u8>, DecodeError>(data),
{
    let raw = string_encoding(data);
    if data.len() == 1 && data[0] < 0x80 {
        assert(seq![raw[0]] =~= data);
    } else if data.len() <= 55 {
        assert(raw.subrange(1, raw[0] - 0x7f) =~= data);
    } else {
        lemma_length_field(data.len());
        let field = length_field(data.len());
        let begin = 1 + field.len();
        assert(raw[0] - 0xb6 == begin);
        assert(raw.subrange(1, begin as int) =~= field);
        assert(raw[1] == field[0]);
        assert(raw.subrange(begin as int, (begin + data.len()) as int) =~= data);
    }
}

/// A cut-off encoding is never accepted: every proper prefix of the encoding
/// of a byte string whose length fits 32 bits fails to decode.
pub proof fn law_truncated_encoding_is_rejected(data: Seq<u8>, keep: int)
    requires
        data.len() <= u32::MAX,
        0 <= keep < string_encoding(data).len(),
    ensures
        string_decoding(string_encoding(data).take(keep)) is Err,
{
    let raw = string_encoding(data);
    let cut = raw.take(keep);
    if keep == 0 {
    } else if data.len() == 1 && data[0] < 0x80 {
    } else if data.len() <= 55 {
        assert(cut[0] == raw[0]);
    } else {
        lemma_length_field(data.len());
        let field = length_field(data.len());
        let begin = 1 + field.len();
        assert(cut[0] == raw[0]);
        assert(cut[0] - 0xb6 == begin);
        if keep >= begin {
            assert(cut.subrange(1, begin as int) =~= field);
            assert(cut[1] == field[0]);
        }
    }
}

} // verus!

//! The mathematical model shared by input and output arguments.
use vstd::prelude::*;
use vstd::utf8::{decode_utf8, encode_utf8, valid_utf8};

use crate::platform::utf8_lossy;

verus! {

/// The raw text of the sentinel token: a single hyphen (ASCII 45).
pub open spec fn hyphen() -> Seq<u8> {
    seq![45u8]
}

/// What an argument denotes: the standard stream, or a file system path
/// given by its raw platform text.
pub enum ArgModel {
    Stream,
    Path(Seq<u8>),
}

/// How path text is shown to a person: decoded when it is valid UTF-8,
/// and lossily decoded otherwise.
pub open spec fn shown_text(bytes: Seq<u8>) -> Seq<char> {
    if valid_utf8(bytes) {
        decode_utf8(bytes)
    } else {
        utf8_lossy(bytes)
    }
}

impl ArgModel {
    /// Classification of a raw token: exactly the sentinel is the stream.
    pub open spec fn parse(t: Seq<u8>) -> ArgModel {
        if t == hyphen() {
            ArgModel::Stream
        } else {
            ArgModel::Path(t)
        }
    }

    /// The raw text an argument converts back to.
    pub open spec fn raw_text(self) -> Seq<u8> {
        match self {
            ArgModel::Stream => hyphen(),
            ArgModel::Path(t) => t,
        }
    }

    /// The default rendering: a hyphen for the stream, the shown path text
    /// otherwise.
    pub open spec fn display(self) -> Seq<char> {
        match self {
            ArgModel::Stream => seq!['-'],
            ArgModel::Path(t) => shown_text(t),
        }
    }
}

/// Converting a parsed token back to raw text gives the token again.
pub proof fn lemma_raw_round_trip(t: Seq<u8>)
    ensures
        ArgModel::parse(t).raw_text() == t,
{
}

/// Recognises the sentinel in raw text.
pub(crate) fn is_sentinel(t: &[u8]) -> (r: bool)
    ensures
        r == (t@ == hyphen()),
{
    if t.len() == 1 && t[0] == 45u8 {
        assert(t@ =~= hyphen());
        true
    } else {
        false
    }
}

/// A text token is the stream exactly when it is the one-character string
/// `-`; otherwise it is a path holding the token's UTF-8 bytes.
pub proof fn lemma_text_parse(s: Seq<char>)
    ensures
        ArgModel::parse(encode_utf8(s)) is Stream <==> s == seq!['-'],
        s != seq!['-'] ==> ArgModel::parse(encode_utf8(s)) == ArgModel::Path(encode_utf8(s)),
{
    broadcast use vstd::utf8::encode_utf8_decode_utf8;

    lemma_hyphen_encoding();
    if encode_utf8(s) == hyphen() {
        assert(s == decode_utf8(encode_utf8(seq!['-'])));
    }
}

/// Rendering a parsed text token in the default mode gives the token again.
pub proof fn lemma_display_round_trip(s: Seq<char>)
    ensures
        ArgModel::parse(encode_utf8(s)).display() == s,
{
    broadcast use vstd::utf8::encode_utf8_decode_utf8, vstd::utf8::encode_utf8_valid_utf8;

    lemma_text_parse(s);
}

/// The sentinel is the UTF-8 encoding of the one-character string `-`.
pub proof fn lemma_hyphen_encoding()
    ensures
        encode_utf8(seq!['-']) == hyphen(),
{
    let dash = seq!['-'];
    assert(('-' as u32) == 45u32);
    assert(((45u32 & 0x7F) as u8) == 45u8) by (bit_vector);
    assert(dash.drop_first() =~= Seq::<char>::empty());
    assert(encode_utf8(dash.drop_first()) =~= Seq::<u8>::empty());
    assert(encode_utf8(dash) =~= hyphen());
}

} // verus!

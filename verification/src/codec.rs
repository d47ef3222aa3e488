//! Character encodings for the text on the wire, by the labels of the WHATWG
//! Encoding standard. The tables and algorithms are those of the `encoding`
//! crate; this module names what they compute and hands texts and bytes over.

use vstd::prelude::*;

verus! {

/// Whether `encoding::label::encoding_from_whatwg_label` finds an encoding for
/// `label`.
pub uninterp spec fn label_known(label: Seq<char>) -> bool;

/// What `Encoding::encode` returns for `text`, on the encoding that `label`
/// names, when characters that the encoding cannot represent are dropped.
pub uninterp spec fn encoded(label: Seq<char>, text: Seq<char>) -> Seq<u8>;

/// What `Encoding::decode` returns for `bytes`, on the encoding that `label`
/// names, when byte sequences that the encoding does not define are dropped.
pub uninterp spec fn decoded(label: Seq<char>, bytes: Seq<u8>) -> Seq<char>;

/// Calls `encoding::label::encoding_from_whatwg_label` and says whether it
/// found an encoding. The lookup reads `label` and the crate's fixed table of
/// labels, so the answer is a function of `label`.
#[verifier::external_body]
fn whatwg_label_known(label: &str) -> (known: bool)
    ensures
        known == label_known(label@),
{
    encoding::label::encoding_from_whatwg_label(label).is_some()
}

/// Calls `Encoding::encode` with `EncoderTrap::Ignore` on the encoding that
/// `encoding_from_whatwg_label` finds for `label`. With that trap every error
/// of the encoder is passed over, so the call returns `Ok`; the bytes are a
/// function of the encoding and the text.
#[verifier::external_body]
fn encode_ignoring(label: &str, text: &str) -> (bytes: Vec<u8>)
    requires
        label_known(label@),
    ensures
        bytes@ == encoded(label@, text@),
{
    let encoding = encoding::label::encoding_from_whatwg_label(label).unwrap();
    encoding.encode(text, encoding::EncoderTrap::Ignore).unwrap()
}

/// Calls `Encoding::decode` with `DecoderTrap::Ignore` on the encoding that
/// `encoding_from_whatwg_label` finds for `label`. With that trap every error
/// of the decoder is passed over, so the call returns `Ok`; the text is a
/// function of the encoding and the bytes.
#[verifier::external_body]
fn decode_ignoring(label: &str, bytes: &[u8]) -> (text: String)
    requires
        label_known(label@),
    ensures
        text@ == decoded(label@, bytes@),
{
    let encoding = encoding::label::encoding_from_whatwg_label(label).unwrap();
    encoding.decode(bytes, encoding::DecoderTrap::Ignore).unwrap()
}

/// A character encoding, held by a label that is known to name one.
#[derive(Debug)]
pub struct Charset {
    label: String,
}

impl View for Charset {
    type V = Seq<char>;

    /// The label.
    closed spec fn view(&self) -> Seq<char> {
        self.label@
    }
}

impl Charset {
    #[verifier::type_invariant]
    spec fn names_an_encoding(&self) -> bool {
        label_known(self.label@)
    }

    /// The encoding that `label` names, where it names one.
    pub fn from_label(label: &str) -> (charset: Option<Charset>)
        ensures
            charset is Some <==> label_known(label@),
            charset matches Some(c) ==> c@ == label@,
    {
        if whatwg_label_known(label) {
            Some(Charset { label: label.to_owned() })
        } else {
            None
        }
    }

    /// The label that the encoding was made from.
    pub fn label(&self) -> (label: &str)
        ensures
            label@ == self@,
            label_known(self@),
    {
        proof {
            use_type_invariant(self);
        }
        self.label.as_str()
    }

    /// The bytes of `text` in this encoding. Characters that the encoding
    /// cannot represent are left out; no text is refused.
    pub fn encode(&self, text: &str) -> (bytes: Vec<u8>)
        ensures
            bytes@ == encoded(self@, text@),
    {
        proof {
            use_type_invariant(self);
        }
        encode_ignoring(self.label.as_str(), text)
    }

    /// The text that `bytes` hold in this encoding. Byte sequences that the
    /// encoding does not define are left out; no bytes are refused.
    pub fn decode(&self, bytes: &[u8]) -> (text: String)
        ensures
            text@ == decoded(self@, bytes@),
    {
        proof {
            use_type_invariant(self);
        }
        decode_ignoring(self.label.as_str(), bytes)
    }
}

impl Clone for Charset {
    fn clone(&self) -> (copy: Self)
        ensures
            copy@ == self@,
    {
        proof {
            use_type_invariant(self);
        }
        Charset { label: self.label.clone() }
    }
}

} // verus!

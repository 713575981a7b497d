//! The two kinds of value that the host's scripts know: numbers and strings.

mod c_str;
mod double;
mod string;

pub use c_str::{
    c_str, has_nul, is_first_nul, lemma_c_str_has_no_nul, lemma_first_nul_exists, lemma_first_nul_unique,
    lemma_nul_byte_is_nul_char, lemma_terminated, nul_position,
};
pub use double::{lemma_nothing_is_zero, GMLDouble, FRACTION_SPAN, INFINITY_BITS, SIGN_BIT};
pub use string::{lemma_null_is_no_text, lemma_text_round_trip, GMLString, NulError};

use core::str::Utf8Error;
use vstd::prelude::*;
use vstd::utf8::{decode_utf8, encode_utf8, valid_utf8};

verus! {

/// Reading a host string.
pub trait GMLStringRead {
    /// The bytes of the text, without its terminator; `None` where there is
    /// nothing to read.
    spec fn text_bytes(&self) -> Option<Seq<u8>>;

    /// The bytes of the text, without its terminator. None of them is zero.
    fn as_cstr(&self) -> (bytes: &[u8])
        requires
            self.text_bytes() is Some,
        ensures
            bytes@ == self.text_bytes().unwrap(),
            !has_nul(bytes@),
    ;

    /// The text. Fails where its bytes are not well-formed UTF-8. The text
    /// is what the bytes decode to, and holds no character NUL.
    fn as_str(&self) -> (text: Result<&str, Utf8Error>)
        requires
            self.text_bytes() is Some,
        ensures
            text is Ok <==> valid_utf8(self.text_bytes().unwrap()),
            text matches Ok(t) ==> {
                &&& t@ == decode_utf8(self.text_bytes().unwrap())
                &&& encode_utf8(t@) == self.text_bytes().unwrap()
                &&& !t@.contains('\0')
            },
    ;
}

/// Making a host string.
pub trait GMLStringWrite: Sized {
    /// The characters of the text.
    spec fn text(&self) -> Seq<char>;

    /// A host string that leads to the text's bytes, which are its UTF-8
    /// encoding, and a terminator, so that a reader finds the text again.
    /// Fails where one of the text's bytes is zero, which is where the text
    /// holds the character NUL, and tells where the first such byte is.
    fn into_gml(self) -> (string: Result<GMLString, NulError>)
        ensures
            string is Err <==> has_nul(encode_utf8(self.text())),
            string is Err <==> self.text().contains('\0'),
            match string {
                Ok(s) => s@ == Some(encode_utf8(self.text()).push(0u8)) && s.reads_as(self.text()),
                Err(e) => is_first_nul(encode_utf8(self.text()), e.nul_position() as int),
            },
    ;
}

/// Types with a value that stands for "nothing".
pub trait GMLNone: Sized {
    /// Whether this is the value that stands for nothing.
    spec fn is_none(&self) -> bool;

    /// The value that stands for nothing.
    fn none() -> (nothing: Self)
        ensures
            nothing.is_none(),
    ;
}

} // verus!

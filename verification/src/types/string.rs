//! Strings.

use super::c_str::{
    c_str, has_nul, is_first_nul, lemma_c_str_has_no_nul, lemma_first_nul_unique, lemma_nul_byte_is_nul_char,
    lemma_terminated,
};
use super::{GMLNone, GMLStringRead, GMLStringWrite};
use core::str::Utf8Error;
use vstd::prelude::*;
use vstd::slice::slice_subrange;
use vstd::string::StringSliceAdditionalSpecFns;
use vstd::utf8::{decode_utf8, encode_utf8, encode_utf8_decode_utf8, encode_utf8_valid_utf8, valid_utf8};

verus! {

/// The failure to turn a text into a C string: the text holds a zero byte.
#[derive(Debug, Copy, Clone, Eq, PartialEq, Structural)]
pub struct NulError {
    position: usize,
}

impl NulError {
    /// The index, among the text's bytes, of its first zero byte.
    pub closed spec fn spec_nul_position(&self) -> usize {
        self.position
    }

    /// The index, among the text's bytes, of its first zero byte.
    #[verifier::when_used_as_spec(spec_nul_position)]
    pub fn nul_position(&self) -> (position: usize)
        ensures
            position == self.spec_nul_position(),
    {
        self.position
    }
}

/// The host's string type: a pointer to a zero-terminated run of bytes, or the
/// null pointer.
///
/// The value holds the bytes that the pointer leads to. Unless it is null,
/// one of them is zero: the text ends where the first zero byte stands, and
/// what follows it is never read.
#[derive(Debug, Eq, PartialEq)]
pub struct GMLString {
    memory: Option<Vec<u8>>,
}

impl View for GMLString {
    type V = Option<Seq<u8>>;

    /// The bytes that the pointer leads to; `None` for the null pointer.
    closed spec fn view(&self) -> Option<Seq<u8>> {
        match self.memory {
            Some(memory) => Some(memory@),
            None => None,
        }
    }
}

impl Clone for GMLString {
    /// A string that leads to a copy of the same bytes.
    fn clone(&self) -> (copy: GMLString)
        ensures
            copy@ == self@,
    {
        proof {
            use_type_invariant(self);
        }
        match &self.memory {
            Some(memory) => GMLString { memory: Some(memory.clone()) },
            None => GMLString { memory: None },
        }
    }
}

impl GMLString {
    /// Whether the bytes behind a pointer that is not null are terminated.
    pub open spec fn wf(&self) -> bool {
        self@ matches Some(memory) ==> has_nul(memory)
    }

    #[verifier::type_invariant]
    spec fn terminated(&self) -> bool {
        self.wf()
    }

    /// Whether a reader of this string finds `text`: the string is not null,
    /// and the bytes before its terminator are well-formed UTF-8 that decodes
    /// to `text`.
    pub open spec fn reads_as(&self, text: Seq<char>) -> bool {
        &&& self.text_bytes() matches Some(bytes)
        &&& valid_utf8(bytes)
        &&& decode_utf8(bytes) == text
    }

    /// Whether this is the null pointer.
    pub fn is_null(&self) -> (null: bool)
        ensures
            null == (self@ is None),
    {
        self.memory.is_none()
    }

    /// The string that a pointer to the first of `memory`'s bytes is. Where no
    /// byte of `memory` is zero a reader would run past its end, and there is
    /// no such string.
    pub fn from_raw(memory: Vec<u8>) -> (string: Option<GMLString>)
        ensures
            string is Some <==> has_nul(memory@),
            string matches Some(s) ==> s@ == Some(memory@),
    {
        let mut i: usize = 0;
        while i < memory.len()
            invariant
                i <= memory.len(),
                forall|j: int| 0 <= j < i ==> memory@[j] != 0,
            decreases memory.len() - i,
        {
            if memory[i] == 0 {
                return Some(GMLString { memory: Some(memory) });
            }
            i += 1;
        }
        None
    }

    /// The bytes that the pointer leads to: the text, its terminator, and
    /// whatever lies behind it. `None` for the null pointer.
    pub fn as_raw(&self) -> (memory: Option<&[u8]>)
        ensures
            self.wf(),
            match memory {
                Some(bytes) => self@ == Some(bytes@),
                None => self@ is None,
            },
    {
        proof {
            use_type_invariant(self);
        }
        match &self.memory {
            Some(bytes) => Some(bytes.as_slice()),
            None => None,
        }
    }
}

/// Copies `bytes` and ends them with a zero byte, which fails where one of
/// them is zero already.
fn marshal(bytes: &[u8]) -> (string: Result<GMLString, NulError>)
    ensures
        string is Err <==> has_nul(bytes@),
        match string {
            Ok(s) => s@ == Some(bytes@.push(0u8)) && s.text_bytes() == Some(bytes@),
            Err(e) => is_first_nul(bytes@, e.nul_position() as int),
        },
{
    let mut memory: Vec<u8> = Vec::new();
    let mut i: usize = 0;
    while i < bytes.len()
        invariant
            i <= bytes.len(),
            memory@ == bytes@.take(i as int),
            forall|j: int| 0 <= j < i ==> bytes@[j] != 0,
        decreases bytes.len() - i,
    {
        let byte: u8 = bytes[i];
        if byte == 0 {
            return Err(NulError { position: i });
        }
        memory.push(byte);
        i += 1;
    }
    assert(bytes@.take(i as int) == bytes@);
    memory.push(0);
    proof {
        lemma_terminated(bytes@);
    }
    Ok(GMLString { memory: Some(memory) })
}

/// The error of `core::str::from_utf8`, carried through as it is.
#[verifier::external_type_specification]
#[verifier::external_body]
pub struct ExUtf8Error(core::str::Utf8Error);

/// `core::str::from_utf8` accepts exactly the byte runs that are well-formed
/// UTF-8, and the text that it gives back is made of the very bytes it was
/// given.
pub assume_specification[ core::str::from_utf8 ](bytes: &[u8]) -> (text: Result<&str, Utf8Error>)
    ensures
        text is Ok <==> valid_utf8(bytes@),
        text matches Ok(t) ==> t.spec_bytes() == bytes@,
;

impl GMLStringRead for GMLString {
    open spec fn text_bytes(&self) -> Option<Seq<u8>> {
        match self@ {
            Some(memory) => Some(c_str(memory)),
            None => None,
        }
    }

    fn as_cstr(&self) -> (bytes: &[u8]) {
        proof {
            use_type_invariant(self);
        }
        let memory: &[u8] = match &self.memory {
            Some(memory) => memory.as_slice(),
            None => vstd::pervasive::unreached(),
        };
        let mut end: usize = 0;
        while memory[end] != 0
            invariant
                has_nul(memory@),
                end < memory@.len(),
                forall|j: int| 0 <= j < end ==> memory@[j] != 0,
            decreases memory@.len() - end,
        {
            end += 1;
        }
        proof {
            lemma_first_nul_unique(memory@, end as int);
            lemma_c_str_has_no_nul(memory@);
        }
        slice_subrange(memory, 0, end)
    }

    fn as_str(&self) -> (text: Result<&str, Utf8Error>) {
        let bytes = self.as_cstr();
        let text = core::str::from_utf8(bytes);
        proof {
            if let Ok(t) = text {
                encode_utf8_decode_utf8(t@);
                lemma_nul_byte_is_nul_char(t@);
            }
        }
        text
    }
}

impl GMLStringWrite for &str {
    open spec fn text(&self) -> Seq<char> {
        self@
    }

    fn into_gml(self) -> (string: Result<GMLString, NulError>) {
        proof {
            lemma_text_round_trip(self@);
            lemma_nul_byte_is_nul_char(self@);
        }
        marshal(self.as_bytes())
    }
}

impl GMLStringWrite for String {
    open spec fn text(&self) -> Seq<char> {
        self@
    }

    fn into_gml(self) -> (string: Result<GMLString, NulError>) {
        self.as_str().into_gml()
    }
}

impl GMLNone for GMLString {
    open spec fn is_none(&self) -> bool {
        self@ is None
    }

    /// The null pointer.
    fn none() -> (nothing: GMLString) {
        GMLString { memory: None }
    }
}

/// A text without a zero byte comes back whole: the bytes that a reader
/// finds behind the terminated text are the text's own, they are well-formed
/// UTF-8, and they decode to the text, character for character.
pub proof fn lemma_text_round_trip(text: Seq<char>)
    ensures
        valid_utf8(encode_utf8(text)),
        decode_utf8(encode_utf8(text)) == text,
        !has_nul(encode_utf8(text)) ==> {
            &&& has_nul(encode_utf8(text).push(0u8))
            &&& c_str(encode_utf8(text).push(0u8)) == encode_utf8(text)
            &&& decode_utf8(c_str(encode_utf8(text).push(0u8))) == text
        },
{
    encode_utf8_valid_utf8(text);
    encode_utf8_decode_utf8(text);
    if !has_nul(encode_utf8(text)) {
        lemma_terminated(encode_utf8(text));
    }
}

/// The null string differs from every string that a text was turned into,
/// the empty text included: behind such a string there is always something
/// to read.
pub proof fn lemma_null_is_no_text(string: GMLString, bytes: Seq<u8>)
    requires
        string@ == Some(bytes.push(0u8)),
    ensures
        !string.is_none(),
        string.wf(),
        string.text_bytes() is Some,
{
    assert(bytes.push(0u8)[bytes.len() as int] == 0);
}

} // verus!

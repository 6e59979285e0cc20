//! The byte buffers and the text that are handed to foreign code.
//!
//! A value here says what the foreign side is given: the bytes of a buffer,
//! the text of a string, or nothing at all where the pointer it receives is
//! null. Whoever lays a value out in memory takes the content from it by
//! value, so every content is handed over once.

use vstd::prelude::*;
use vstd::std_specs::convert::FromSpecImpl;
use vstd::string::{StrSliceExecFns, StringSliceAdditionalSpecFns};
use vstd::utf8::{char_is_scalar, char_u32_cast, encode_scalar, encode_utf8};

verus! {

/// The bytes of a buffer; none where the buffer is absent.
pub open spec fn buffer_bytes(buffer: Option<Seq<u8>>) -> Seq<u8> {
    match buffer {
        Some(bytes) => bytes,
        None => Seq::empty(),
    }
}

/// A byte buffer whose memory belongs to the buffer itself. It is released
/// once, by [`AppbioticCodeFfi_OwnedVec::release`], or its content is moved
/// out by [`AppbioticCodeFfi_OwnedVec::into_bytes`].
#[derive(Debug)]
pub struct AppbioticCodeFfi_OwnedVec {
    /// The bytes; `None` stands for the null pointer.
    pub data: Option<Vec<u8>>,
}

impl View for AppbioticCodeFfi_OwnedVec {
    type V = Option<Seq<u8>>;

    open spec fn view(&self) -> Option<Seq<u8>> {
        self.data.deep_view()
    }
}

impl Default for AppbioticCodeFfi_OwnedVec {
    /// The absent buffer: a null pointer and the length zero.
    fn default() -> (buffer: Self)
        ensures
            buffer@ is None,
    {
        AppbioticCodeFfi_OwnedVec { data: None }
    }
}

impl From<Vec<u8>> for AppbioticCodeFfi_OwnedVec {
    /// The buffer that owns the bytes of `value`.
    fn from(value: Vec<u8>) -> (buffer: Self)
        ensures
            buffer@ == Some(value@),
    {
        AppbioticCodeFfi_OwnedVec { data: Some(value) }
    }
}

impl FromSpecImpl<Vec<u8>> for AppbioticCodeFfi_OwnedVec {
    open spec fn obeys_from_spec() -> bool {
        true
    }

    open spec fn from_spec(value: Vec<u8>) -> Self {
        AppbioticCodeFfi_OwnedVec { data: Some(value) }
    }
}

impl AppbioticCodeFfi_OwnedVec {
    /// Whether the buffer is absent.
    pub fn is_null(&self) -> (null: bool)
        ensures
            null == (self@ is None),
    {
        self.data.is_none()
    }

    /// The number of bytes in the buffer; zero where it is absent.
    pub fn len(&self) -> (len: usize)
        ensures
            len == buffer_bytes(self@).len(),
    {
        match &self.data {
            Some(bytes) => bytes.len(),
            None => 0,
        }
    }

    /// The bytes of the buffer, in order; none where it is absent.
    pub fn as_slice(&self) -> (bytes: &[u8])
        ensures
            bytes@ == buffer_bytes(self@),
    {
        match &self.data {
            Some(bytes) => {
                bytes.as_slice()
            },
            None => {
                let empty: &[u8] = &[];
                empty
            },
        }
    }

    /// Hands the bytes over to the caller, who owns them from now on.
    pub fn into_bytes(self) -> (bytes: Option<Vec<u8>>)
        ensures
            bytes.deep_view() == self@,
    {
        self.data
    }

    /// Releases the memory of the buffer and leaves the absent buffer
    /// behind. On an absent buffer nothing happens, so a second release is
    /// harmless.
    pub fn release(&mut self)
        ensures
            final(self)@ is None,
    {
        self.data = None;
    }
}

/// A byte buffer whose memory belongs to somebody else. It has no release:
/// whoever lent the bytes keeps them alive and frees them.
#[derive(Debug)]
pub struct AppbioticCodeFfi_ReferencedVec {
    /// The bytes; `None` stands for the null pointer.
    pub data: Option<Vec<u8>>,
}

impl View for AppbioticCodeFfi_ReferencedVec {
    type V = Option<Seq<u8>>;

    open spec fn view(&self) -> Option<Seq<u8>> {
        self.data.deep_view()
    }
}

impl Default for AppbioticCodeFfi_ReferencedVec {
    /// The absent buffer: a null pointer and the length zero.
    fn default() -> (buffer: Self)
        ensures
            buffer@ is None,
    {
        AppbioticCodeFfi_ReferencedVec { data: None }
    }
}

impl From<Vec<u8>> for AppbioticCodeFfi_ReferencedVec {
    /// The buffer that refers to the bytes of `value`.
    fn from(value: Vec<u8>) -> (buffer: Self)
        ensures
            buffer@ == Some(value@),
    {
        AppbioticCodeFfi_ReferencedVec { data: Some(value) }
    }
}

impl FromSpecImpl<Vec<u8>> for AppbioticCodeFfi_ReferencedVec {
    open spec fn obeys_from_spec() -> bool {
        true
    }

    open spec fn from_spec(value: Vec<u8>) -> Self {
        AppbioticCodeFfi_ReferencedVec { data: Some(value) }
    }
}

impl AppbioticCodeFfi_ReferencedVec {
    /// Whether the buffer is absent.
    pub fn is_null(&self) -> (null: bool)
        ensures
            null == (self@ is None),
    {
        self.data.is_none()
    }

    /// The number of bytes in the buffer; zero where it is absent.
    pub fn len(&self) -> (len: usize)
        ensures
            len == buffer_bytes(self@).len(),
    {
        match &self.data {
            Some(bytes) => bytes.len(),
            None => 0,
        }
    }

    /// The bytes of the buffer, in order; none where it is absent.
    pub fn as_slice(&self) -> (bytes: &[u8])
        ensures
            bytes@ == buffer_bytes(self@),
    {
        match &self.data {
            Some(bytes) => {
                bytes.as_slice()
            },
            None => {
                let empty: &[u8] = &[];
                empty
            },
        }
    }
}

/// The character that ends a text on the foreign side.
pub open spec fn terminator() -> char {
    '\0'
}

/// What the foreign side is given for `text`. A text that holds the
/// terminator cannot be told from its own beginning over there, so nothing is
/// given for it; every other text is given as it stands.
pub open spec fn boundary_text(text: Seq<char>) -> Option<Seq<char>> {
    if text.contains(terminator()) {
        None
    } else {
        Some(text)
    }
}

/// What the foreign side is given for a text that may be missing.
pub open spec fn boundary_text_of(text: Option<Seq<char>>) -> Option<Seq<char>> {
    match text {
        Some(text) => boundary_text(text),
        None => None,
    }
}

/// The bytes that the foreign side reads for `text`: its UTF-8 encoding and
/// behind it the zero byte that ends it.
pub open spec fn terminated_bytes(text: Seq<char>) -> Seq<u8> {
    encode_utf8(text).push(0u8)
}

/// The encoding of one character holds a zero byte if and only if the
/// character is the terminator.
proof fn zero_byte_encodes_terminator(c: char)
    ensures
        encode_scalar(c as u32).contains(0u8) <==> c == terminator(),
{
    let scalar = c as u32;
    let bytes = encode_scalar(scalar);
    char_is_scalar(c);
    assert(scalar <= 0x7F ==> ((scalar & 0x7F) as u8 == 0 <==> scalar == 0)) by (bit_vector);
    assert(0xC0u8 | ((scalar >> 6) & 0x1F) as u8 != 0) by (bit_vector);
    assert(0xE0u8 | ((scalar >> 12) & 0x0F) as u8 != 0) by (bit_vector);
    assert(0xF0u8 | ((scalar >> 18) & 0x7) as u8 != 0) by (bit_vector);
    assert(0x80u8 | (scalar & 0x3F) as u8 != 0) by (bit_vector);
    assert(0x80u8 | ((scalar >> 6) & 0x3F) as u8 != 0) by (bit_vector);
    assert(0x80u8 | ((scalar >> 12) & 0x3F) as u8 != 0) by (bit_vector);
    if c == terminator() {
        assert(bytes[0] == 0u8);
    } else {
        assert(scalar != 0) by {
            char_u32_cast(c, scalar);
            char_u32_cast(terminator(), 0u32);
        }
        assert forall|i: int| 0 <= i < bytes.len() implies bytes[i] != 0u8 by {}
    }
}

/// The encoding of a text holds a zero byte if and only if the text holds
/// the terminator. So the bytes of a text without the terminator, read up to
/// the first zero byte, are the bytes of the whole text.
pub proof fn zero_byte_comes_from_terminator(text: Seq<char>)
    ensures
        encode_utf8(text).contains(0u8) <==> text.contains(terminator()),
    decreases text.len(),
{
    if text.len() > 0 {
        let first = encode_scalar(text[0] as u32);
        let rest = encode_utf8(text.drop_first());
        zero_byte_encodes_terminator(text[0]);
        zero_byte_comes_from_terminator(text.drop_first());
        if first.contains(0u8) {
            let i = choose|i: int| 0 <= i < first.len() && first[i] == 0u8;
            assert((first + rest)[i] == 0u8);
        }
        if rest.contains(0u8) {
            let i = choose|i: int| 0 <= i < rest.len() && rest[i] == 0u8;
            assert((first + rest)[first.len() + i] == 0u8);
        }
        if text.contains(terminator()) {
            let j = choose|j: int| 0 <= j < text.len() && text[j] == terminator();
            if j > 0 {
                assert(text.drop_first()[j - 1] == terminator());
            }
        }
    }
}

/// Whether `text` holds the terminator.
pub fn has_terminator(text: &str) -> (found: bool)
    ensures
        found == text@.contains(terminator()),
{
    let mut found = false;
    for c in it: text.chars()
        invariant
            it.seq() == text@,
            found == text@.take(it.index() as int).contains(terminator()),
    {
        proof {
            let k = it.index() as int;
            if c == terminator() {
                assert(text@.take(k + 1)[k] == terminator());
            }
        }
        if c == '\0' {
            found = true;
        }
    }
    assert(text@.take(text@.len() as int) =~= text@);
    found
}

/// A text for the foreign side, which reads it up to the terminator. The
/// text is absent where the pointer is null.
#[derive(Debug)]
pub struct AppbioticCodeFfi_String {
    text: Option<String>,
}

impl View for AppbioticCodeFfi_String {
    type V = Option<Seq<char>>;

    closed spec fn view(&self) -> Option<Seq<char>> {
        self.text.deep_view()
    }
}

impl Default for AppbioticCodeFfi_String {
    /// The absent text: a null pointer.
    fn default() -> (text: Self)
        ensures
            text == Self::absent(),
            text@ is None,
    {
        AppbioticCodeFfi_String { text: None }
    }
}

impl From<String> for AppbioticCodeFfi_String {
    /// The text `value` for the foreign side, or the absent text where
    /// `value` holds the terminator. No error is raised for such a text.
    fn from(value: String) -> (text: Self)
        ensures
            text@ == boundary_text(value@),
    {
        if has_terminator(value.as_str()) {
            AppbioticCodeFfi_String { text: None }
        } else {
            AppbioticCodeFfi_String { text: Some(value) }
        }
    }
}

impl FromSpecImpl<String> for AppbioticCodeFfi_String {
    open spec fn obeys_from_spec() -> bool {
        true
    }

    open spec fn from_spec(value: String) -> Self {
        Self::of_text(value)
    }
}

impl AppbioticCodeFfi_String {
    #[verifier::type_invariant]
    spec fn free_of_terminator(self) -> bool {
        self.text matches Some(text) ==> !text@.contains(terminator())
    }

    /// The absent text.
    pub closed spec fn absent() -> Self {
        AppbioticCodeFfi_String { text: None }
    }

    /// What is made of `value` for the foreign side.
    pub closed spec fn of_text(value: String) -> Self {
        if value@.contains(terminator()) {
            AppbioticCodeFfi_String { text: None }
        } else {
            AppbioticCodeFfi_String { text: Some(value) }
        }
    }

    /// Whether the text is absent.
    pub fn is_null(&self) -> (null: bool)
        ensures
            null == (self@ is None),
    {
        self.text.is_none()
    }

    /// The text, if it is present. It never holds the terminator.
    pub fn as_str(&self) -> (text: Option<&str>)
        ensures
            text.deep_view() == self@,
            text matches Some(present) ==> !present@.contains(terminator()),
    {
        proof {
            use_type_invariant(self);
        }
        match &self.text {
            Some(text) => Some(text.as_str()),
            None => None,
        }
    }

    /// Hands the text over to the caller, who owns it from now on. It never
    /// holds the terminator.
    pub fn into_text(self) -> (text: Option<String>)
        ensures
            text.deep_view() == self@,
            text matches Some(present) ==> !present@.contains(terminator()),
    {
        proof {
            use_type_invariant(&self);
        }
        self.text
    }

    /// Hands over the bytes that the foreign side reads: the UTF-8 encoding
    /// of the text and the zero byte that ends it. No other byte is zero, so
    /// the foreign side reads the whole text.
    pub fn into_bytes_with_nul(self) -> (bytes: Option<Vec<u8>>)
        ensures
            bytes.deep_view() == match self@ {
                Some(text) => Some(terminated_bytes(text)),
                None => None,
            },
            bytes matches Some(present) ==> forall|i: int|
                0 <= i < present.len() - 1 ==> present[i] != 0u8,
    {
        proof {
            use_type_invariant(&self);
        }
        match self.text {
            Some(text) => {
                let mut bytes = text.as_str().as_bytes_vec();
                proof {
                    zero_byte_comes_from_terminator(text@);
                    assert forall|i: int| 0 <= i < bytes.len() implies bytes[i] != 0u8 by {
                        if bytes[i] == 0u8 {
                        }
                    }
                }
                bytes.push(0u8);
                Some(bytes)
            },
            None => None,
        }
    }

    /// Releases the memory of the text and leaves the absent text behind. On
    /// an absent text nothing happens, so a second release is harmless.
    pub fn release(&mut self)
        ensures
            final(self)@ is None,
    {
        self.text = None;
    }
}

} // verus!

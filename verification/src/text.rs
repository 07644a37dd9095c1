//! Text as the native library exchanges it: UTF-8 bytes without NUL, kept on
//! this side in `SmolStr` where a value carries a short diagnostic or a code.

use crate::room::{law_uncountable_room_is_refused, refused, with_room, Room};
use core::str::Utf8Error;
use smol_str::SmolStr;
use smol_str::StrExt;
use vstd::prelude::*;
use vstd::slice::slice_subrange;
use vstd::utf8::{decode_utf8, encode_scalar, encode_utf8, valid_utf8};

verus! {

/// `smol_str::SmolStr`, an immutable string; what it holds is
/// [`smol_chars`].
#[verifier::external_type_specification]
#[verifier::external_body]
pub struct ExSmolStr(SmolStr);

/// `core::str::Utf8Error`, carried through unread.
#[verifier::external_type_specification]
#[verifier::external_body]
pub struct ExUtf8Error(Utf8Error);

/// The characters that a `SmolStr` holds, which is what `SmolStr::as_str`
/// gives back. How they are stored (inline, static or on the heap) is not part
/// of it.
pub uninterp spec fn smol_chars(s: SmolStr) -> Seq<char>;

/// `SmolStr::as_str`: the held characters.
pub assume_specification [SmolStr::as_str] (s: &SmolStr) -> (r: &str)
    ensures
        r@ == smol_chars(*s),
;

/// `<SmolStr as Clone>::clone`: a value that holds the same characters.
pub assume_specification [<SmolStr as Clone>::clone] (s: &SmolStr) -> (r: SmolStr)
    ensures
        smol_chars(r) == smol_chars(*s),
;

/// `SmolStr::new`: a value that holds the characters of `text`, whatever its
/// length.
#[verifier::external_body]
pub(crate) fn smol_new(text: &str) -> (r: SmolStr)
    ensures
        smol_chars(r) == text@,
{
    SmolStr::new(text)
}

/// `SmolStr::new_static`: a value that holds the characters of `text`, without
/// copying them.
#[verifier::external_body]
pub(crate) fn smol_static(text: &'static str) -> (r: SmolStr)
    ensures
        smol_chars(r) == text@,
{
    SmolStr::new_static(text)
}

/// `StrExt::to_ascii_lowercase_smolstr`: the text with every letter `A` to `Z`
/// replaced by its lower-case form and every other character kept.
#[verifier::external_body]
pub(crate) fn smol_ascii_lowercase(text: &str) -> (r: SmolStr)
    ensures
        smol_chars(r) == ascii_lowercase(text@),
{
    text.to_ascii_lowercase_smolstr()
}

/// The error with which `core::str::from_utf8` reports bytes that are not UTF-8: it
/// tells how many of them are, and how many are wrong there.
pub uninterp spec fn utf8_error(bytes: Seq<u8>) -> Utf8Error;

/// `core::str::from_utf8`: the text that the bytes encode if they are valid UTF-8,
/// and otherwise an error that depends on the bytes alone, [`utf8_error`].
pub assume_specification<'a> [core::str::from_utf8] (v: &'a [u8]) -> (r: Result<&'a str, Utf8Error>)
    ensures
        r is Ok <==> valid_utf8(v@),
        r matches Ok(s) ==> s@ == decode_utf8(v@),
        r matches Err(e) ==> e == utf8_error(v@),
;

/// The lower-case form of an ASCII letter; any other character unchanged.
pub open spec fn ascii_lower(c: char) -> char {
    if 'A' <= c && c <= 'Z' {
        (c as u32 + 32) as char
    } else {
        c
    }
}

/// The upper-case form of an ASCII letter; any other character unchanged.
pub open spec fn ascii_upper(c: char) -> char {
    if 'a' <= c && c <= 'z' {
        (c as u32 - 32) as char
    } else {
        c
    }
}

/// [`ascii_lower`] on each character.
pub open spec fn ascii_lowercase(s: Seq<char>) -> Seq<char> {
    Seq::new(s.len(), |i: int| ascii_lower(s[i]))
}

/// Whether a character is an ASCII letter.
pub open spec fn is_ascii_letter(c: char) -> bool {
    ('a' <= c && c <= 'z') || ('A' <= c && c <= 'Z')
}

/// The number of bytes that the UTF-8 form of a text takes.
pub open spec fn byte_len(s: Seq<char>) -> nat {
    encode_utf8(s).len()
}

/// Whether the UTF-8 form of a text holds a NUL byte, so that it cannot be
/// handed over as a NUL-terminated string.
pub open spec fn has_nul(s: Seq<char>) -> bool {
    encode_utf8(s).contains(0u8)
}

/// The UTF-8 form of a character holds a NUL byte only where the character is NUL.
proof fn lemma_scalar_nul(c: char)
    ensures
        encode_scalar(c as u32).contains(0u8) <==> c == '\0',
{
    let v = c as u32;
    let bytes = encode_scalar(v);
    assert(v <= 0x7f ==> (v & 0x7f) as u8 == v as u8) by (bit_vector);
    assert(0xC0u8 | ((v >> 6) & 0x1F) as u8 != 0u8) by (bit_vector);
    assert(0xE0u8 | ((v >> 12) & 0x0F) as u8 != 0u8) by (bit_vector);
    assert(0xF0u8 | ((v >> 18) & 0x7) as u8 != 0u8) by (bit_vector);
    assert(0x80u8 | (v & 0x3F) as u8 != 0u8) by (bit_vector);
    assert(0x80u8 | ((v >> 6) & 0x3F) as u8 != 0u8) by (bit_vector);
    assert(0x80u8 | ((v >> 12) & 0x3F) as u8 != 0u8) by (bit_vector);
    if c == '\0' {
        assert(bytes[0] == 0u8);
    } else {
        assert(v != 0);
        assert(forall|i: int| 0 <= i < bytes.len() ==> bytes[i] != 0u8);
    }
}

/// The bytes of a text hold a NUL exactly where the text holds the character NUL.
pub proof fn law_nul_is_a_character(s: Seq<char>)
    ensures
        has_nul(s) <==> s.contains('\0'),
        has_nul(s) <==> encode_utf8(s).contains(0u8),
    decreases s.len(),
{
    if s.len() > 0 {
        let rest = s.drop_first();
        let head = encode_scalar(s[0] as u32);
        let tail = encode_utf8(rest);
        law_nul_is_a_character(rest);
        lemma_scalar_nul(s[0]);
        assert(encode_utf8(s) == head + tail);
        if s.contains('\0') {
            let i = choose|i: int| 0 <= i < s.len() && s[i] == '\0';
            if i == 0 {
                let k = choose|k: int| 0 <= k < head.len() && head[k] == 0u8;
                assert((head + tail)[k] == 0u8);
            } else {
                assert(rest[i - 1] == '\0');
                let k = choose|k: int| 0 <= k < tail.len() && tail[k] == 0u8;
                assert((head + tail)[head.len() + k] == 0u8);
            }
        } else {
            assert(s[0] != '\0');
            assert(forall|i: int| 0 <= i < rest.len() ==> rest[i] == s[i + 1]);
            assert forall|k: int| 0 <= k < encode_utf8(s).len() implies encode_utf8(s)[k]
                != 0u8 by {
                if k < head.len() {
                    assert(head[k] != 0u8);
                } else {
                    assert(tail[k - head.len()] != 0u8);
                }
            }
        }
    }
}

/// How many leading characters of a rejected text a diagnostic keeps.
pub const HEAD_CHARS: usize = 64;

/// The part of a rejected text that a diagnostic keeps.
pub open spec fn head_chars(s: Seq<char>) -> Seq<char> {
    if s.len() > HEAD_CHARS {
        s.take(HEAD_CHARS as int)
    } else {
        s
    }
}

/// The text that optional bytes from the native side stand for: `None` where
/// there are none or they are not UTF-8.
pub open spec fn native_text(raw: Option<Seq<u8>>) -> Option<Seq<char>> {
    match raw {
        Some(bytes) => if valid_utf8(bytes) {
            Some(decode_utf8(bytes))
        } else {
            None
        },
        None => None,
    }
}

/// Whether bytes hold a NUL.
pub(crate) fn bytes_have_nul(bytes: &[u8]) -> (r: bool)
    ensures
        r == bytes@.contains(0u8),
{
    let mut i: usize = 0;
    while i < bytes.len()
        invariant
            i <= bytes@.len(),
            forall|j: int| 0 <= j < i ==> bytes@[j] != 0u8,
        decreases bytes@.len() - i,
    {
        if bytes[i] == 0 {
            assert(bytes@[i as int] == 0u8);
            return true;
        }
        i += 1;
    }
    false
}

/// A text as the native library takes it: its UTF-8 bytes, none of which is NUL,
/// and a NUL behind them.
#[derive(Debug)]
pub struct NativeString {
    bytes: Vec<u8>,
    asked: usize,
}

impl View for NativeString {
    type V = Seq<char>;

    closed spec fn view(&self) -> Seq<char> {
        decode_utf8(self.bytes@.drop_last())
    }
}

impl NativeString {
    /// The bytes end with a NUL, hold no other, and are otherwise UTF-8.
    #[verifier::type_invariant]
    spec fn nul_terminated(self) -> bool {
        &&& self.bytes@.len() > 0
        &&& self.bytes@.last() == 0u8
        &&& !self.bytes@.drop_last().contains(0u8)
        &&& valid_utf8(self.bytes@.drop_last())
    }

    /// The number of bytes for which memory was asked before they were copied; 0
    /// where it was not asked for.
    pub closed spec fn asked(self) -> nat {
        self.asked as nat
    }

    /// Copies a text without NUL.
    pub(crate) fn copy(text: &str) -> (r: NativeString)
        requires
            !has_nul(text@),
        ensures
            r@ == text@,
            r.asked() == 0,
    {
        broadcast use vstd::utf8::encode_utf8_valid_utf8;
        broadcast use vstd::utf8::encode_utf8_decode_utf8;

        let mut bytes: Vec<u8> = Vec::new();
        bytes.extend_from_slice(text.as_bytes());
        assert(bytes@ =~= encode_utf8(text@));
        bytes.push(0);
        assert(bytes@.drop_last() =~= encode_utf8(text@));
        NativeString { bytes, asked: 0 }
    }

    /// Copies a text without NUL into memory with room for it and the NUL behind it.
    pub(crate) fn copy_into(memory: Room<u8>, text: &str) -> (r: NativeString)
        requires
            byte_len(text@) < memory.asked(),
            !has_nul(text@),
        ensures
            r@ == text@,
            r.asked() == memory.asked(),
    {
        broadcast use vstd::utf8::encode_utf8_valid_utf8;
        broadcast use vstd::utf8::encode_utf8_decode_utf8;

        let mut memory = memory;
        memory.clear();
        memory.extend(text.as_bytes());
        assert(memory@ =~= encode_utf8(text@));
        memory.push(0);
        assert(memory@.drop_last() =~= encode_utf8(text@));
        let asked = memory.asked_for();
        NativeString { bytes: memory.into_items(), asked }
    }

    /// The bytes, with the NUL behind them.
    pub fn as_bytes_with_nul(&self) -> (r: &[u8])
        ensures
            r@ == encode_utf8(self@).push(0u8),
            !has_nul(self@),
    {
        broadcast use vstd::utf8::decode_utf8_encode_utf8;

        proof {
            use_type_invariant(self);
        }
        assert(self.bytes@ =~= self.bytes@.drop_last().push(0u8));
        self.bytes.as_slice()
    }

    /// The text.
    pub fn as_str(&self) -> (r: &str)
        ensures
            r@ == self@,
    {
        proof {
            use_type_invariant(self);
        }
        let text = slice_subrange(self.bytes.as_slice(), 0, self.bytes.len() - 1);
        assert(text@ =~= self.bytes@.drop_last());
        match core::str::from_utf8(text) {
            Ok(s) => s,
            Err(_) => {
                assert(false);
                ""
            },
        }
    }
}

/// The number of bytes that the native form of a text takes: those of the text and
/// the NUL behind them; `None` where they cannot be counted.
pub(crate) fn copy_size(text: &str) -> (r: Option<usize>)
    ensures
        r == (if byte_len(text@) < usize::MAX {
            Some((byte_len(text@) + 1) as usize)
        } else {
            None
        }),
{
    let n = text.as_bytes().len();
    if n < usize::MAX {
        Some(n + 1)
    } else {
        None
    }
}

/// Asks for the memory that the native form of a text takes; `None` where it is
/// refused, and where so many bytes cannot be counted.
pub(crate) fn room_for(text: &str) -> (r: Option<Room<u8>>)
    ensures
        r matches Some(memory) ==> memory.asked() == byte_len(text@) + 1 && memory@ == Seq::<
            u8,
        >::empty(),
        r is None ==> refused::<u8>(byte_len(text@) + 1),
        byte_len(text@) >= usize::MAX ==> r is None,
{
    match copy_size(text) {
        Some(n) => with_room(n),
        None => {
            proof {
                law_uncountable_room_is_refused::<u8>(byte_len(text@) + 1);
            }
            None
        },
    }
}

/// The native form of a text, in memory that was asked for beforehand; `None` where
/// the text holds a NUL, and where the memory was refused or asked for in too small
/// an amount.
pub(crate) fn native_copy(text: &str, memory: Option<Room<u8>>) -> (r: Option<NativeString>)
    ensures
        r is Some <==> !has_nul(text@) && (memory matches Some(m) && byte_len(text@) < m.asked()),
        r matches Some(copy) ==> copy@ == text@ && copy.asked() == memory->0.asked(),
{
    let bytes = text.as_bytes();
    if bytes_have_nul(bytes) {
        return None;
    }
    match memory {
        Some(memory) => if bytes.len() < memory.asked_for() {
            Some(NativeString::copy_into(memory, text))
        } else {
            None
        },
        None => None,
    }
}

/// The leading characters of a rejected text, for a diagnostic.
pub(crate) fn head_of(text: &str) -> (r: SmolStr)
    ensures
        smol_chars(r) == head_chars(text@),
{
    if text.unicode_len() > HEAD_CHARS {
        smol_new(text.substring_char(0, HEAD_CHARS))
    } else {
        smol_new(text)
    }
}

/// Reads optional native bytes as text.
pub(crate) fn utf8_or_none<'a>(raw: Option<&'a [u8]>) -> (r: Option<&'a str>)
    ensures
        str_view(r) == native_text(bytes_view(raw)),
{
    match raw {
        Some(bytes) => match core::str::from_utf8(bytes) {
            Ok(s) => Some(s),
            Err(_) => None,
        },
        None => None,
    }
}

/// The bytes behind an optional slice.
pub open spec fn bytes_view(raw: Option<&[u8]>) -> Option<Seq<u8>> {
    match raw {
        Some(bytes) => Some(bytes@),
        None => None,
    }
}

/// The characters behind an optional string slice.
pub open spec fn str_view(s: Option<&str>) -> Option<Seq<char>> {
    match s {
        Some(s) => Some(s@),
        None => None,
    }
}

} // verus!

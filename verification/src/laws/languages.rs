//! Languages: reading their codes, looking them up, and their tokens.

use crate::context::Context;
use crate::lang::{
    is_spelling, is_wire_code, lang_id_for, lang_query, law_code_round_trips,
    law_reading_is_a_function, law_wire_form_is_lower_case, lemma_named_codes,
    Lang, LangCodeError,
};
use crate::state::{Output, State};
use crate::text::{
    ascii_lowercase, ascii_upper, is_ascii_letter, law_nul_is_a_character, smol_chars,
};
use smol_str::SmolStr;
use vstd::prelude::*;
use vstd::utf8::{encode_utf8, is_ascii_chars, valid_utf8};

verus! {

/// The letter 32 places before a lower-case one is its upper-case form.
proof fn lemma_upper(a: char, c: char)
    requires
        'a' <= c && c <= 'z',
        a as u32 + 32 == c as u32,
    ensures
        a == ascii_upper(c),
{
    vstd::utf8::char_u32_cast(a, (c as u32 - 32) as u32);
}

/// A text that is the code of a named language, but for the case of its letters, is
/// read as that language. Letters after the first are in one case.
pub proof fn law_codes_are_read_in_either_case(l: &Lang, code: &str, s: &str, r: Lang)
    requires
        !(l is Other),
        call_ensures(Lang::as_str, (l,), code),
        call_ensures(Lang::from_iso639_1, (s,), r),
        s@.len() == code@.len(),
        forall|i: int|
            0 <= i < s@.len() ==> #[trigger] s@[i] == code@[i] || s@[i] as u32 + 32 == code@[i] as u32,
        s@.len() == 3 ==> (s@[1] == code@[1] <==> s@[2] == code@[2]),
    ensures
        r == *l,
{
    lemma_named_codes();
    let c = l.code();
    assert(c == code@);
    assert forall|i: int| 0 <= i < c.len() implies #[trigger] s@[i] == c[i] || s@[i] == ascii_upper(
        c[i],
    ) by {
        assert(i == 0 || i == 1 || i == 2);
        if s@[i] != c[i] {
            lemma_upper(s@[i], c[i]);
        }
    }
    assert(is_spelling(s@, c));
    law_reading_is_a_function(s@, *l, r);
}

/// A text is read as a named language only where it is its code, but for the case of
/// its letters; any other text is kept as it is. The two ways to read a code agree.
pub proof fn law_nothing_else_is_read_as_a_code(s: &str, r: Lang, code: &str, other: Option<Lang>)
    requires
        call_ensures(Lang::from_iso639_1, (s,), r),
        call_ensures(Lang::try_from_iso639_1, (s,), other),
        call_ensures(Lang::as_str, (&r,), code),
    ensures
        r matches Lang::Other(t) ==> smol_chars(t) == s@,
        r is Other ==> code@ == s@,
        !(r is Other) ==> {
            &&& 2 <= code@.len() <= 3
            &&& s@.len() == code@.len()
            &&& forall|i: int|
                0 <= i < s@.len() ==> #[trigger] s@[i] == code@[i] || s@[i] as u32 + 32
                    == code@[i] as u32
        },
        other matches Some(l) && (r is Other <==> l is Other) && l.code() == code@,
        !(r is Other) ==> other == Some(r),
{
    lemma_named_codes();
    law_reading_is_a_function(s@, r, other->0);
    if !(r is Other) {
        assert(is_spelling(s@, r.code()));
        assert forall|i: int| 0 <= i < s@.len() implies #[trigger] s@[i] == code@[i] || s@[i] as u32
            + 32 == code@[i] as u32 by {
            assert(i == 0 || i == 1 || i == 2);
        }
    }
}

/// A language without a name of its own is written as the text that it holds.
pub proof fn law_other_codes_are_written_as_held(text: SmolStr, code: &str)
    requires
        call_ensures(Lang::as_str, (&Lang::Other(text),), code),
    ensures
        code@ == smol_chars(text),
{
}

/// What a language is written as is read as that language. It holds of every value
/// but an `Other` that was built by hand around a known code.
pub proof fn law_a_written_code_is_read_back(l: &Lang, code: &str, r: Lang)
    requires
        l.is_canonical(),
        call_ensures(Lang::as_str, (l,), code),
        call_ensures(Lang::from_iso639_1, (code,), r),
    ensures
        l is Other <==> r is Other,
        !(l is Other) ==> r == *l,
        r.code() == code@,
{
    law_code_round_trips(*l, r);
}

/// A configured code is read where it has from one to eight ASCII letters, and only
/// there; it comes out in lower case, and as a named language where one has that code.
/// Each refusal says what is wrong.
pub proof fn law_configured_codes(
    s: &str,
    r: Result<Lang, LangCodeError>,
    named: &Lang,
    code: &str,
)
    requires
        call_ensures(Lang::from_wire, (s,), r),
        call_ensures(Lang::as_str, (named,), code),
        !(named is Other),
    ensures
        r is Ok <==> 1 <= s@.len() <= 8 && forall|i: int|
            0 <= i < s@.len() ==> ('a' <= #[trigger] s@[i] && s@[i] <= 'z') || ('A' <= s@[i] && s@[i]
                <= 'Z'),
        r matches Ok(l) ==> {
            &&& l.code().len() == s@.len()
            &&& forall|i: int|
                0 <= i < s@.len() ==> if 'A' <= s@[i] && s@[i] <= 'Z' {
                    (#[trigger] l.code()[i]) as u32 == s@[i] as u32 + 32
                } else {
                    l.code()[i] == s@[i]
                }
            &&& l.code() == code@ ==> l == *named
        },
        s@.len() == 0 <==> r == Err::<Lang, LangCodeError>(LangCodeError::Empty),
        encode_utf8(s@).len() > 8 <==> (r matches Err(LangCodeError::TooLong { bytes }) && bytes
            == encode_utf8(s@).len()),
{
    let t = ascii_lowercase(s@);
    lemma_named_codes();
    if is_wire_code(s@) {
        assert(forall|i: int| 0 <= i < s@.len() ==> is_ascii_letter(#[trigger] s@[i]));
        assert(is_ascii_chars(s@));
        vstd::utf8::is_ascii_chars_encode_utf8(s@);
        law_wire_form_is_lower_case(s@, r->Ok_0);
        if t == code@ {
            assert(is_spelling(t, named.code()));
            law_reading_is_a_function(t, *named, r->Ok_0);
        }
    } else if 1 <= s@.len() <= 8 && forall|i: int|
        0 <= i < s@.len() ==> ('a' <= #[trigger] s@[i] && s@[i] <= 'z') || ('A' <= s@[i] && s@[i]
            <= 'Z') {
        assert(is_ascii_chars(s@));
        vstd::utf8::is_ascii_chars_encode_utf8(s@);
        assert(false);
    }
    if s@.len() == 0 {
        assert(encode_utf8(s@).len() == 0);
    }
}

/// A name is looked up where it has at most 32 bytes and no NUL: its bytes are handed
/// over, with zeros behind them. It then has the number that the native library gives,
/// unless that is negative.
pub proof fn law_names_are_looked_up(
    name: &str,
    native_id: i32,
    query: Option<[u8; 33]>,
    id: Option<i32>,
)
    requires
        call_ensures(lang_query, (name,), query),
        call_ensures(lang_id_for, (name, native_id), id),
    ensures
        query is Some <==> encode_utf8(name@).len() <= 32 && !name@.contains('\0'),
        query matches Some(buf) ==> buf@ == encode_utf8(name@) + Seq::new(
            (33 - encode_utf8(name@).len()) as nat,
            |i: int| 0u8,
        ),
        id is Some <==> query is Some && native_id >= 0,
        id matches Some(n) ==> n == native_id,
{
    law_nul_is_a_character(name@);
    if let Some(buf) = query {
        let bytes = encode_utf8(name@);
        let filled = bytes + Seq::new((33 - bytes.len()) as nat, |i: int| 0u8);
        assert forall|i: int| 0 <= i < 33 implies buf@[i] == filled[i] by {
            if i < bytes.len() {
                assert(buf@.take(bytes.len() as int)[i] == bytes[i]);
            }
        }
        assert(buf@ =~= filled);
    }
}

/// The English name of a language is the one that the native table holds, where it is
/// UTF-8 and the table knows the code.
pub proof fn law_full_names(
    l: &Lang,
    code: &str,
    native_id: i32,
    native_name: Option<&[u8]>,
    id: Option<i32>,
    r: Option<SmolStr>,
)
    requires
        call_ensures(Lang::as_str, (l,), code),
        call_ensures(lang_id_for, (code, native_id), id),
        call_ensures(Lang::full_name, (l, native_id, native_name), r),
    ensures
        r is Some <==> id is Some && native_name is Some && valid_utf8(native_name->0@),
        r matches Some(name) ==> encode_utf8(smol_chars(name)) == native_name->0@,
{
    broadcast use vstd::utf8::decode_utf8_encode_utf8;

}

/// A model with several languages has a token for each that the native table knows, in
/// the order of their numbers, right behind the start of a transcript and before the
/// token for translation. A model for English alone has none.
pub proof fn law_language_tokens(
    context: &Context,
    l: &Lang,
    code: &str,
    native_id: i32,
    id: Option<i32>,
    r: Option<i32>,
)
    requires
        call_ensures(Lang::as_str, (l,), code),
        call_ensures(lang_id_for, (code, native_id), id),
        call_ensures(Context::token_for_lang, (context, l, native_id), r),
    ensures
        r is Some <==> context.model().multilingual != 0 && id is Some
            && context.model().tokens.sot + 1 + native_id < context.model().tokens.translate,
        r matches Some(token) ==> token == context.model().tokens.sot + 1 + native_id,
{
}

/// The language of a state is what reading its code gives, where the native library
/// has a number for it and a code that is UTF-8.
pub proof fn law_the_detected_language(
    state: &State,
    output: Output,
    r: Option<Lang>,
    code: &str,
    read: Lang,
)
    requires
        state.output() == Some(output),
        call_ensures(State::detected_lang, (state,), r),
        call_ensures(Lang::from_iso639_1, (code,), read),
    ensures
        r is Some <==> output.lang_id >= 0 && output.lang_code is Some && valid_utf8(
            output.lang_code->0@,
        ),
        r is Some && encode_utf8(code@) == output.lang_code->0@ ==> {
            &&& r->0.code() == read.code()
            &&& read is Other <==> r->0 is Other
            &&& !(read is Other) ==> r == Some(read)
        },
{
    broadcast use vstd::utf8::encode_utf8_decode_utf8;

    if r is Some && encode_utf8(code@) == output.lang_code->0@ {
        law_reading_is_a_function(code@, r->0, read);
    }
}

} // verus!

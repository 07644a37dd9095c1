//! `Lang`: the languages that the native library knows, with an escape hatch
//! for any other code.

use crate::text::{
    ascii_lower, ascii_lowercase, ascii_upper, byte_len, bytes_have_nul, bytes_view, has_nul,
    is_ascii_letter, native_text, smol_ascii_lowercase, smol_chars, smol_new, utf8_or_none,
};
use smol_str::SmolStr;
use vstd::prelude::*;
use vstd::utf8::{encode_utf8, is_ascii_chars};

verus! {

/// Language code.
///
/// The named variants are the codes that the native library ships with; any
/// other code is kept in `Other`, so that an unknown code coming out of
/// language detection fails nothing. Every constructor here maps a known code
/// to its named variant, so `Other` never holds one ([`Lang::is_canonical`]).
#[non_exhaustive]
#[derive(Clone, PartialEq, Eq, Hash, Debug)]
pub enum Lang {
    En,
    Zh,
    De,
    Es,
    Ru,
    Ko,
    Fr,
    Ja,
    Pt,
    Tr,
    Pl,
    Ca,
    Nl,
    Ar,
    Sv,
    It,
    Id,
    Hi,
    Fi,
    Vi,
    He,
    Uk,
    El,
    Ms,
    Cs,
    Ro,
    Da,
    Hu,
    Ta,
    No,
    Th,
    Ur,
    Hr,
    Bg,
    Lt,
    La,
    Mi,
    Ml,
    Cy,
    Sk,
    Te,
    Fa,
    Lv,
    Bn,
    Sr,
    Az,
    Sl,
    Kn,
    Et,
    Mk,
    Br,
    Eu,
    Is,
    Hy,
    Ne,
    Mn,
    Bs,
    Kk,
    Sq,
    Sw,
    Gl,
    Mr,
    Pa,
    Si,
    Km,
    Sn,
    Yo,
    So,
    Af,
    Oc,
    Ka,
    Be,
    Tg,
    Sd,
    Gu,
    Am,
    Yi,
    Lo,
    Uz,
    Fo,
    Ht,
    Ps,
    Tk,
    Nn,
    Mt,
    Sa,
    Lb,
    My,
    Bo,
    Tl,
    Mg,
    As,
    Tt,
    Haw,
    Ln,
    Ha,
    Ba,
    Jw,
    Su,
    Yue,
    /// A code that matches no named variant.
    Other(SmolStr),
}

/// Why a configured language code was rejected.
#[derive(Clone, Copy, PartialEq, Eq, Debug, Structural)]
pub enum LangCodeError {
    /// The code is empty.
    Empty,
    /// The code is longer than [`MAX_CODE_BYTES`].
    TooLong {
        /// The length of the rejected code, in bytes.
        bytes: usize,
    },
    /// The code holds something other than ASCII letters.
    NotLetters,
}

/// The longest language code that a configuration may hold, in bytes.
pub const MAX_CODE_BYTES: usize = 8;

/// The longest name that is looked up in the native language table, in bytes.
/// The longest name there is about half as long.
pub const MAX_NAME_BYTES: usize = 32;

/// Whether a name is worth looking up: short enough, and free of NUL.
pub open spec fn is_lookup_name(name: Seq<char>) -> bool {
    byte_len(name) <= MAX_NAME_BYTES && !has_nul(name)
}

/// The language id behind a name, given what the native table answers: none for
/// a name that is not looked up, and none for a negative answer.
pub open spec fn id_of_name(name: Seq<char>, native_id: i32) -> Option<i32> {
    if is_lookup_name(name) && native_id >= 0 {
        Some(native_id)
    } else {
        None
    }
}

/// Whether `s` is one of the accepted spellings of the lower-case code `code`:
/// the first letter in either case, and the letters after it either all in
/// lower case or all in upper case.
pub open spec fn is_spelling(s: Seq<char>, code: Seq<char>) -> bool {
    &&& s.len() == code.len()
    &&& s.len() > 0
    &&& s[0] == code[0] || s[0] == ascii_upper(code[0])
    &&& {
        ||| forall|i: int| 1 <= i < s.len() ==> s[i] == code[i]
        ||| forall|i: int| 1 <= i < s.len() ==> s[i] == ascii_upper(code[i])
    }
}

/// Whether `s` is an accepted spelling of some named variant.
pub open spec fn is_known(s: Seq<char>) -> bool {
    exists|l: Lang| #![trigger l.code()] l.is_named() && is_spelling(s, l.code())
}

/// What reading the code `s` gives: the named variant that `s` spells, or
/// `Other` with `s` itself where it spells none.
pub open spec fn reads_as(s: Seq<char>, r: Lang) -> bool {
    match r {
        Lang::Other(t) => smol_chars(t) == s && !is_known(s),
        _ => is_spelling(s, r.code()),
    }
}

/// Whether a code may stand in a configuration: one to eight ASCII letters.
pub open spec fn is_wire_code(s: Seq<char>) -> bool {
    &&& 0 < s.len()
    &&& byte_len(s) <= MAX_CODE_BYTES
    &&& forall|i: int| 0 <= i < s.len() ==> is_ascii_letter(#[trigger] s[i])
}

impl Lang {
    /// Whether this is one of the named variants.
    pub open spec fn is_named(self) -> bool {
        !(self is Other)
    }

    /// The code of this language: the lower-case code of a named variant, and
    /// the held text of `Other`.
    pub open spec fn code(self) -> Seq<char> {
        match self {
            Lang::En => seq!['e', 'n'],
            Lang::Zh => seq!['z', 'h'],
            Lang::De => seq!['d', 'e'],
            Lang::Es => seq!['e', 's'],
            Lang::Ru => seq!['r', 'u'],
            Lang::Ko => seq!['k', 'o'],
            Lang::Fr => seq!['f', 'r'],
            Lang::Ja => seq!['j', 'a'],
            Lang::Pt => seq!['p', 't'],
            Lang::Tr => seq!['t', 'r'],
            Lang::Pl => seq!['p', 'l'],
            Lang::Ca => seq!['c', 'a'],
            Lang::Nl => seq!['n', 'l'],
            Lang::Ar => seq!['a', 'r'],
            Lang::Sv => seq!['s', 'v'],
            Lang::It => seq!['i', 't'],
            Lang::Id => seq!['i', 'd'],
            Lang::Hi => seq!['h', 'i'],
            Lang::Fi => seq!['f', 'i'],
            Lang::Vi => seq!['v', 'i'],
            Lang::He => seq!['h', 'e'],
            Lang::Uk => seq!['u', 'k'],
            Lang::El => seq!['e', 'l'],
            Lang::Ms => seq!['m', 's'],
            Lang::Cs => seq!['c', 's'],
            Lang::Ro => seq!['r', 'o'],
            Lang::Da => seq!['d', 'a'],
            Lang::Hu => seq!['h', 'u'],
            Lang::Ta => seq!['t', 'a'],
            Lang::No => seq!['n', 'o'],
            Lang::Th => seq!['t', 'h'],
            Lang::Ur => seq!['u', 'r'],
            Lang::Hr => seq!['h', 'r'],
            Lang::Bg => seq!['b', 'g'],
            Lang::Lt => seq!['l', 't'],
            Lang::La => seq!['l', 'a'],
            Lang::Mi => seq!['m', 'i'],
            Lang::Ml => seq!['m', 'l'],
            Lang::Cy => seq!['c', 'y'],
            Lang::Sk => seq!['s', 'k'],
            Lang::Te => seq!['t', 'e'],
            Lang::Fa => seq!['f', 'a'],
            Lang::Lv => seq!['l', 'v'],
            Lang::Bn => seq!['b', 'n'],
            Lang::Sr => seq!['s', 'r'],
            Lang::Az => seq!['a', 'z'],
            Lang::Sl => seq!['s', 'l'],
            Lang::Kn => seq!['k', 'n'],
            Lang::Et => seq!['e', 't'],
            Lang::Mk => seq!['m', 'k'],
            Lang::Br => seq!['b', 'r'],
            Lang::Eu => seq!['e', 'u'],
            Lang::Is => seq!['i', 's'],
            Lang::Hy => seq!['h', 'y'],
            Lang::Ne => seq!['n', 'e'],
            Lang::Mn => seq!['m', 'n'],
            Lang::Bs => seq!['b', 's'],
            Lang::Kk => seq!['k', 'k'],
            Lang::Sq => seq!['s', 'q'],
            Lang::Sw => seq!['s', 'w'],
            Lang::Gl => seq!['g', 'l'],
            Lang::Mr => seq!['m', 'r'],
            Lang::Pa => seq!['p', 'a'],
            Lang::Si => seq!['s', 'i'],
            Lang::Km => seq!['k', 'm'],
            Lang::Sn => seq!['s', 'n'],
            Lang::Yo => seq!['y', 'o'],
            Lang::So => seq!['s', 'o'],
            Lang::Af => seq!['a', 'f'],
            Lang::Oc => seq!['o', 'c'],
            Lang::Ka => seq!['k', 'a'],
            Lang::Be => seq!['b', 'e'],
            Lang::Tg => seq!['t', 'g'],
            Lang::Sd => seq!['s', 'd'],
            Lang::Gu => seq!['g', 'u'],
            Lang::Am => seq!['a', 'm'],
            Lang::Yi => seq!['y', 'i'],
            Lang::Lo => seq!['l', 'o'],
            Lang::Uz => seq!['u', 'z'],
            Lang::Fo => seq!['f', 'o'],
            Lang::Ht => seq!['h', 't'],
            Lang::Ps => seq!['p', 's'],
            Lang::Tk => seq!['t', 'k'],
            Lang::Nn => seq!['n', 'n'],
            Lang::Mt => seq!['m', 't'],
            Lang::Sa => seq!['s', 'a'],
            Lang::Lb => seq!['l', 'b'],
            Lang::My => seq!['m', 'y'],
            Lang::Bo => seq!['b', 'o'],
            Lang::Tl => seq!['t', 'l'],
            Lang::Mg => seq!['m', 'g'],
            Lang::As => seq!['a', 's'],
            Lang::Tt => seq!['t', 't'],
            Lang::Haw => seq!['h', 'a', 'w'],
            Lang::Ln => seq!['l', 'n'],
            Lang::Ha => seq!['h', 'a'],
            Lang::Ba => seq!['b', 'a'],
            Lang::Jw => seq!['j', 'w'],
            Lang::Su => seq!['s', 'u'],
            Lang::Yue => seq!['y', 'u', 'e'],
            Lang::Other(s) => smol_chars(s),
        }
    }

    /// Whether `Other` holds no spelling of a named variant's code.
    pub open spec fn is_canonical(self) -> bool {
        self is Other ==> !is_known(self.code())
    }

    /// The code of this language.
    pub fn as_str(&self) -> (r: &str)
        ensures
            r@ == self.code(),
    {
        match self {
            Lang::En => {
                proof { reveal_strlit("en"); }
                "en"
            },
            Lang::Zh => {
                proof { reveal_strlit("zh"); }
                "zh"
            },
            Lang::De => {
                proof { reveal_strlit("de"); }
                "de"
            },
            Lang::Es => {
                proof { reveal_strlit("es"); }
                "es"
            },
            Lang::Ru => {
                proof { reveal_strlit("ru"); }
                "ru"
            },
            Lang::Ko => {
                proof { reveal_strlit("ko"); }
                "ko"
            },
            Lang::Fr => {
                proof { reveal_strlit("fr"); }
                "fr"
            },
            Lang::Ja => {
                proof { reveal_strlit("ja"); }
                "ja"
            },
            Lang::Pt => {
                proof { reveal_strlit("pt"); }
                "pt"
            },
            Lang::Tr => {
                proof { reveal_strlit("tr"); }
                "tr"
            },
            Lang::Pl => {
                proof { reveal_strlit("pl"); }
                "pl"
            },
            Lang::Ca => {
                proof { reveal_strlit("ca"); }
                "ca"
            },
            Lang::Nl => {
                proof { reveal_strlit("nl"); }
                "nl"
            },
            Lang::Ar => {
                proof { reveal_strlit("ar"); }
                "ar"
            },
            Lang::Sv => {
                proof { reveal_strlit("sv"); }
                "sv"
            },
            Lang::It => {
                proof { reveal_strlit("it"); }
                "it"
            },
            Lang::Id => {
                proof { reveal_strlit("id"); }
                "id"
            },
            Lang::Hi => {
                proof { reveal_strlit("hi"); }
                "hi"
            },
            Lang::Fi => {
                proof { reveal_strlit("fi"); }
                "fi"
            },
            Lang::Vi => {
                proof { reveal_strlit("vi"); }
                "vi"
            },
            Lang::He => {
                proof { reveal_strlit("he"); }
                "he"
            },
            Lang::Uk => {
                proof { reveal_strlit("uk"); }
                "uk"
            },
            Lang::El => {
                proof { reveal_strlit("el"); }
                "el"
            },
            Lang::Ms => {
                proof { reveal_strlit("ms"); }
                "ms"
            },
            Lang::Cs => {
                proof { reveal_strlit("cs"); }
                "cs"
            },
            Lang::Ro => {
                proof { reveal_strlit("ro"); }
                "ro"
            },
            Lang::Da => {
                proof { reveal_strlit("da"); }
                "da"
            },
            Lang::Hu => {
                proof { reveal_strlit("hu"); }
                "hu"
            },
            Lang::Ta => {
                proof { reveal_strlit("ta"); }
                "ta"
            },
            Lang::No => {
                proof { reveal_strlit("no"); }
                "no"
            },
            Lang::Th => {
                proof { reveal_strlit("th"); }
                "th"
            },
            Lang::Ur => {
                proof { reveal_strlit("ur"); }
                "ur"
            },
            Lang::Hr => {
                proof { reveal_strlit("hr"); }
                "hr"
            },
            Lang::Bg => {
                proof { reveal_strlit("bg"); }
                "bg"
            },
            Lang::Lt => {
                proof { reveal_strlit("lt"); }
                "lt"
            },
            Lang::La => {
                proof { reveal_strlit("la"); }
                "la"
            },
            Lang::Mi => {
                proof { reveal_strlit("mi"); }
                "mi"
            },
            Lang::Ml => {
                proof { reveal_strlit("ml"); }
                "ml"
            },
            Lang::Cy => {
                proof { reveal_strlit("cy"); }
                "cy"
            },
            Lang::Sk => {
                proof { reveal_strlit("sk"); }
                "sk"
            },
            Lang::Te => {
                proof { reveal_strlit("te"); }
                "te"
            },
            Lang::Fa => {
                proof { reveal_strlit("fa"); }
                "fa"
            },
            Lang::Lv => {
                proof { reveal_strlit("lv"); }
                "lv"
            },
            Lang::Bn => {
                proof { reveal_strlit("bn"); }
                "bn"
            },
            Lang::Sr => {
                proof { reveal_strlit("sr"); }
                "sr"
            },
            Lang::Az => {
                proof { reveal_strlit("az"); }
                "az"
            },
            Lang::Sl => {
                proof { reveal_strlit("sl"); }
                "sl"
            },
            Lang::Kn => {
                proof { reveal_strlit("kn"); }
                "kn"
            },
            Lang::Et => {
                proof { reveal_strlit("et"); }
                "et"
            },
            Lang::Mk => {
                proof { reveal_strlit("mk"); }
                "mk"
            },
            Lang::Br => {
                proof { reveal_strlit("br"); }
                "br"
            },
            Lang::Eu => {
                proof { reveal_strlit("eu"); }
                "eu"
            },
            Lang::Is => {
                proof { reveal_strlit("is"); }
                "is"
            },
            Lang::Hy => {
                proof { reveal_strlit("hy"); }
                "hy"
            },
            Lang::Ne => {
                proof { reveal_strlit("ne"); }
                "ne"
            },
            Lang::Mn => {
                proof { reveal_strlit("mn"); }
                "mn"
            },
            Lang::Bs => {
                proof { reveal_strlit("bs"); }
                "bs"
            },
            Lang::Kk => {
                proof { reveal_strlit("kk"); }
                "kk"
            },
            Lang::Sq => {
                proof { reveal_strlit("sq"); }
                "sq"
            },
            Lang::Sw => {
                proof { reveal_strlit("sw"); }
                "sw"
            },
            Lang::Gl => {
                proof { reveal_strlit("gl"); }
                "gl"
            },
            Lang::Mr => {
                proof { reveal_strlit("mr"); }
                "mr"
            },
            Lang::Pa => {
                proof { reveal_strlit("pa"); }
                "pa"
            },
            Lang::Si => {
                proof { reveal_strlit("si"); }
                "si"
            },
            Lang::Km => {
                proof { reveal_strlit("km"); }
                "km"
            },
            Lang::Sn => {
                proof { reveal_strlit("sn"); }
                "sn"
            },
            Lang::Yo => {
                proof { reveal_strlit("yo"); }
                "yo"
            },
            Lang::So => {
                proof { reveal_strlit("so"); }
                "so"
            },
            Lang::Af => {
                proof { reveal_strlit("af"); }
                "af"
            },
            Lang::Oc => {
                proof { reveal_strlit("oc"); }
                "oc"
            },
            Lang::Ka => {
                proof { reveal_strlit("ka"); }
                "ka"
            },
            Lang::Be => {
                proof { reveal_strlit("be"); }
                "be"
            },
            Lang::Tg => {
                proof { reveal_strlit("tg"); }
                "tg"
            },
            Lang::Sd => {
                proof { reveal_strlit("sd"); }
                "sd"
            },
            Lang::Gu => {
                proof { reveal_strlit("gu"); }
                "gu"
            },
            Lang::Am => {
                proof { reveal_strlit("am"); }
                "am"
            },
            Lang::Yi => {
                proof { reveal_strlit("yi"); }
                "yi"
            },
            Lang::Lo => {
                proof { reveal_strlit("lo"); }
                "lo"
            },
            Lang::Uz => {
                proof { reveal_strlit("uz"); }
                "uz"
            },
            Lang::Fo => {
                proof { reveal_strlit("fo"); }
                "fo"
            },
            Lang::Ht => {
                proof { reveal_strlit("ht"); }
                "ht"
            },
            Lang::Ps => {
                proof { reveal_strlit("ps"); }
                "ps"
            },
            Lang::Tk => {
                proof { reveal_strlit("tk"); }
                "tk"
            },
            Lang::Nn => {
                proof { reveal_strlit("nn"); }
                "nn"
            },
            Lang::Mt => {
                proof { reveal_strlit("mt"); }
                "mt"
            },
            Lang::Sa => {
                proof { reveal_strlit("sa"); }
                "sa"
            },
            Lang::Lb => {
                proof { reveal_strlit("lb"); }
                "lb"
            },
            Lang::My => {
                proof { reveal_strlit("my"); }
                "my"
            },
            Lang::Bo => {
                proof { reveal_strlit("bo"); }
                "bo"
            },
            Lang::Tl => {
                proof { reveal_strlit("tl"); }
                "tl"
            },
            Lang::Mg => {
                proof { reveal_strlit("mg"); }
                "mg"
            },
            Lang::As => {
                proof { reveal_strlit("as"); }
                "as"
            },
            Lang::Tt => {
                proof { reveal_strlit("tt"); }
                "tt"
            },
            Lang::Haw => {
                proof { reveal_strlit("haw"); }
                "haw"
            },
            Lang::Ln => {
                proof { reveal_strlit("ln"); }
                "ln"
            },
            Lang::Ha => {
                proof { reveal_strlit("ha"); }
                "ha"
            },
            Lang::Ba => {
                proof { reveal_strlit("ba"); }
                "ba"
            },
            Lang::Jw => {
                proof { reveal_strlit("jw"); }
                "jw"
            },
            Lang::Su => {
                proof { reveal_strlit("su"); }
                "su"
            },
            Lang::Yue => {
                proof { reveal_strlit("yue"); }
                "yue"
            },
            Lang::Other(s) => s.as_str(),
        }
    }


    /// Reads a language code. A known code gives its named variant; any other
    /// text goes to `Other`.
    pub fn from_iso639_1(s: &str) -> (r: Lang)
        ensures
            reads_as(s@, r),
    {
        match Lang::named(s) {
            Some(l) => l,
            None => Lang::Other(smol_new(s)),
        }
    }

    /// Reads a language code. Every text gives a language: a known code its named
    /// variant, and any other text `Other`.
    pub fn try_from_iso639_1(s: &str) -> (r: Option<Lang>)
        ensures
            r matches Some(l) && reads_as(s@, l),
    {
        Some(Lang::from_iso639_1(s))
    }

    /// The named variant that a text spells; `None` where it spells none.
    fn named(s: &str) -> (r: Option<Lang>)
        ensures
            r is Some <==> is_known(s@),
            r matches Some(l) ==> l.is_named() && reads_as(s@, l),
    {
        proof {
            lemma_named_codes();
        }
        if !s.is_ascii() {
            return None;
        }
        let bytes = s.as_bytes();
        if bytes.len() == 2 {
            let a = bytes[0] as char;
            let b = bytes[1] as char;
            assert(s@ =~= seq![a, b]);
            two_letter(lower(a), lower(b))
        } else if bytes.len() == 3 {
            let a = bytes[0] as char;
            let b = bytes[1] as char;
            let c = bytes[2] as char;
            assert(s@ =~= seq![a, b, c]);
            if is_upper(b) == is_upper(c) {
                three_letter(lower(a), lower(b), lower(c))
            } else {
                None
            }
        } else {
            None
        }
    }

    /// Reads a code out of a configuration, in any letter case. It must be one
    /// to eight ASCII letters, and is read in lower case.
    pub fn from_wire(s: &str) -> (r: Result<Lang, LangCodeError>)
        ensures
            s@.len() == 0 ==> r == Err::<Lang, LangCodeError>(LangCodeError::Empty),
            s@.len() > 0 && byte_len(s@) > MAX_CODE_BYTES ==> (r matches Err(
                LangCodeError::TooLong { bytes },
            ) && bytes == byte_len(s@)),
            s@.len() > 0 && byte_len(s@) <= MAX_CODE_BYTES && !is_wire_code(s@) ==> r == Err::<
                Lang,
                LangCodeError,
            >(LangCodeError::NotLetters),
            is_wire_code(s@) ==> (r matches Ok(l) && reads_as(ascii_lowercase(s@), l)),
    {
        if s.is_empty() {
            return Err(LangCodeError::Empty);
        }
        let bytes = s.as_bytes();
        if bytes.len() > MAX_CODE_BYTES {
            return Err(LangCodeError::TooLong { bytes: bytes.len() });
        }
        if !s.is_ascii() {
            return Err(LangCodeError::NotLetters);
        }
        let mut all_lower = true;
        let mut i: usize = 0;
        while i < bytes.len()
            invariant
                i <= bytes@.len(),
                0 < bytes@.len() <= MAX_CODE_BYTES,
                bytes@.len() == byte_len(s@),
                bytes@ == Seq::new(s@.len(), |k: int| s@[k] as u8),
                is_ascii_chars(s@),
                forall|k: int| 0 <= k < i ==> is_ascii_letter(#[trigger] s@[k]),
                all_lower <==> forall|k: int| 0 <= k < i ==> ascii_lower(#[trigger] s@[k]) == s@[k],
            decreases bytes@.len() - i,
        {
            let c = bytes[i] as char;
            assert(c == s@[i as int]);
            if is_upper(c) {
                all_lower = false;
            } else if !('a' <= c && c <= 'z') {
                return Err(LangCodeError::NotLetters);
            }
            i += 1;
        }
        if all_lower {
            assert(ascii_lowercase(s@) =~= s@);
            Ok(Lang::from_iso639_1(s))
        } else {
            let lowered = smol_ascii_lowercase(s);
            match Lang::named(lowered.as_str()) {
                Some(l) => Ok(l),
                None => Ok(Lang::Other(lowered)),
            }
        }
    }

    /// The English name of this language. `native_id` is the native table's
    /// answer to the code, and `native_name` the name it holds under that id.
    pub fn full_name(&self, native_id: i32, native_name: Option<&[u8]>) -> (r: Option<SmolStr>)
        ensures
            r is Some <==> id_of_name(self.code(), native_id) is Some && native_text(
                bytes_view(native_name),
            ) is Some,
            r matches Some(name) ==> native_text(bytes_view(native_name)) == Some(
                smol_chars(name),
            ),
    {
        match lang_id_for(self.as_str(), native_id) {
            Some(_) => match utf8_or_none(native_name) {
                Some(name) => Some(smol_new(name)),
                None => None,
            },
            None => None,
        }
    }
}

/// The NUL-terminated form of a name, to be looked up in the native language
/// table; `None` where the name is not looked up. The buffer is filled up with
/// zeros.
pub fn lang_query(name: &str) -> (r: Option<[u8; 33]>)
    ensures
        r is Some <==> is_lookup_name(name@),
        r matches Some(buf) ==> {
            &&& buf@.take(byte_len(name@) as int) == encode_utf8(name@)
            &&& forall|i: int| byte_len(name@) <= i < 33 ==> #[trigger] buf@[i] == 0u8
        },
{
    let bytes = name.as_bytes();
    if bytes.len() > MAX_NAME_BYTES || bytes_have_nul(bytes) {
        return None;
    }
    let mut buf: [u8; 33] = [0u8; 33];
    let mut i: usize = 0;
    while i < bytes.len()
        invariant
            i <= bytes@.len() <= MAX_NAME_BYTES,
            forall|k: int| 0 <= k < i ==> buf@[k] == bytes@[k],
            forall|k: int| i <= k < 33 ==> buf@[k] == 0u8,
        decreases bytes@.len() - i,
    {
        buf[i] = bytes[i];
        i += 1;
    }
    assert(buf@.take(bytes@.len() as int) =~= bytes@);
    Some(buf)
}

/// The native language id of a code or an English name. `native_id` is the native
/// table's answer to [`lang_query`]; it is not read where that gave none.
pub fn lang_id_for(name: &str, native_id: i32) -> (r: Option<i32>)
    ensures
        r == id_of_name(name@, native_id),
{
    let bytes = name.as_bytes();
    if bytes.len() > MAX_NAME_BYTES || bytes_have_nul(bytes) || native_id < 0 {
        None
    } else {
        Some(native_id)
    }
}

/// No two named variants share a code.
pub proof fn law_codes_are_distinct(a: Lang, b: Lang)
    requires
        a.is_named(),
        b.is_named(),
        a.code() == b.code(),
    ensures
        a == b,
{
    assert(a.code().len() == b.code().len());
    assert(a.code()[0] == b.code()[0]);
    assert(a.code()[1] == b.code()[1]);
    assert(Lang::Ha.code().len() == 2 && Lang::Haw.code().len() == 3);
}

/// A text spells at most one named variant.
proof fn lemma_spelling_is_unique(s: Seq<char>, a: Lang, b: Lang)
    requires
        a.is_named(),
        b.is_named(),
        is_spelling(s, a.code()),
        is_spelling(s, b.code()),
    ensures
        a == b,
{
    lemma_named_codes();
    assert forall|i: int| 0 <= i < s.len() implies #[trigger] a.code()[i] == ascii_lower(s[i]) by {
        assert(i == 0 || i == 1 || i == 2);
    }
    assert forall|i: int| 0 <= i < s.len() implies #[trigger] b.code()[i] == ascii_lower(s[i]) by {
        assert(i == 0 || i == 1 || i == 2);
    }
    assert(a.code() =~= b.code());
    law_codes_are_distinct(a, b);
}

/// Reading a code never leaves a known one in `Other`.
pub proof fn law_reading_is_canonical(s: Seq<char>, r: Lang)
    requires
        reads_as(s, r),
    ensures
        r.is_canonical(),
        r.is_named() <==> is_known(s),
{
}

/// Two readings of one text agree: they name the same variant, or both hold
/// that text.
pub proof fn law_reading_is_a_function(s: Seq<char>, a: Lang, b: Lang)
    requires
        reads_as(s, a),
        reads_as(s, b),
    ensures
        a.is_named() <==> b.is_named(),
        a.is_named() ==> a == b,
        a.code() == b.code(),
{
    if a.is_named() {
        assert(is_spelling(s, a.code()));
        assert(b.is_named());
        lemma_spelling_is_unique(s, a, b);
    } else {
        assert(!is_known(s));
        if b.is_named() {
            assert(is_spelling(s, b.code()));
        }
    }
}

/// Reading back what [`Lang::as_str`] emits gives the same language. It holds of
/// every value but an `Other` that was built by hand around a known code.
pub proof fn law_code_round_trips(l: Lang, r: Lang)
    requires
        l.is_canonical(),
        reads_as(l.code(), r),
    ensures
        r.is_named() <==> l.is_named(),
        l.is_named() ==> r == l,
        r.code() == l.code(),
{
    if l.is_named() {
        lemma_named_codes();
        assert(is_spelling(l.code(), l.code()));
    }
    law_reading_is_a_function(l.code(), l, r);
}

/// A configured code comes out again in lower case, and is then accepted with
/// the same result.
pub proof fn law_wire_form_is_lower_case(s: Seq<char>, l: Lang)
    requires
        is_wire_code(s),
        reads_as(ascii_lowercase(s), l),
    ensures
        l.code() == ascii_lowercase(s),
        is_wire_code(l.code()),
        reads_as(ascii_lowercase(l.code()), l),
        l.is_canonical(),
{
    let t = ascii_lowercase(s);
    assert forall|i: int| 0 <= i < t.len() implies 'a' <= #[trigger] t[i] && t[i] <= 'z' by {
        assert(is_ascii_letter(s[i]));
    }
    if l.is_named() {
        lemma_named_codes();
        assert(l.code() =~= t);
    }
    assert(ascii_lowercase(t) =~= t);
    assert(is_ascii_chars(s) && is_ascii_chars(t));
    vstd::utf8::is_ascii_chars_encode_utf8(s);
    vstd::utf8::is_ascii_chars_encode_utf8(t);
}

/// Letter case does not matter in a configured code.
pub proof fn law_wire_ignores_case(s: Seq<char>, t: Seq<char>, a: Lang, b: Lang)
    requires
        is_wire_code(s),
        is_wire_code(t),
        ascii_lowercase(s) == ascii_lowercase(t),
        reads_as(ascii_lowercase(s), a),
        reads_as(ascii_lowercase(t), b),
    ensures
        a.is_named() <==> b.is_named(),
        a.is_named() ==> a == b,
        a.code() == b.code(),
{
    law_reading_is_a_function(ascii_lowercase(s), a, b);
}

/// Every named variant has a code of two or three lower-case ASCII letters.
pub(crate) proof fn lemma_named_codes()
    ensures
        forall|l: Lang| #![trigger l.code()] l.is_named() ==> {
            &&& 2 <= l.code().len() <= 3
            &&& 'a' <= l.code()[0] && l.code()[0] <= 'z'
            &&& 'a' <= l.code()[1] && l.code()[1] <= 'z'
            &&& l.code().len() == 3 ==> 'a' <= l.code()[2] && l.code()[2] <= 'z'
        },
{
}

/// Whether a character is an upper-case ASCII letter.
fn is_upper(c: char) -> (r: bool)
    ensures
        r == ('A' <= c && c <= 'Z'),
{
    'A' <= c && c <= 'Z'
}

/// Lower-cases an ASCII letter.
fn lower(c: char) -> (r: char)
    ensures
        r == ascii_lower(c),
{
    if is_upper(c) {
        (c as u8 + 32) as char
    } else {
        c
    }
}

/// The named variant with the three-letter code made of `a`, `b` and `c`.
fn three_letter(a: char, b: char, c: char) -> (r: Option<Lang>)
    ensures
        match r {
            Some(l) => l.is_named() && l.code() == seq![a, b, c],
            None => forall|l: Lang|
                #![trigger l.code()]
                l.is_named() && l.code().len() == 3 ==> !(l.code()[0] == a && l.code()[1] == b
                    && l.code()[2] == c),
        },
{
    match (a, b, c) {
        ('h', 'a', 'w') => Some(Lang::Haw),
        ('y', 'u', 'e') => Some(Lang::Yue),
        _ => None,
    }
}

/// The named variant with the two-letter code made of `a` and `b`.
fn two_letter(a: char, b: char) -> (r: Option<Lang>)
    ensures
        match r {
            Some(l) => l.is_named() && l.code() == seq![a, b],
            None => forall|l: Lang|
                #![trigger l.code()]
                l.is_named() && l.code().len() == 2 ==> !(l.code()[0] == a && l.code()[1] == b),
        },
{
    match (a, b) {
        ('e', 'n') => Some(Lang::En),
        ('z', 'h') => Some(Lang::Zh),
        ('d', 'e') => Some(Lang::De),
        ('e', 's') => Some(Lang::Es),
        ('r', 'u') => Some(Lang::Ru),
        ('k', 'o') => Some(Lang::Ko),
        ('f', 'r') => Some(Lang::Fr),
        ('j', 'a') => Some(Lang::Ja),
        ('p', 't') => Some(Lang::Pt),
        ('t', 'r') => Some(Lang::Tr),
        ('p', 'l') => Some(Lang::Pl),
        ('c', 'a') => Some(Lang::Ca),
        ('n', 'l') => Some(Lang::Nl),
        ('a', 'r') => Some(Lang::Ar),
        ('s', 'v') => Some(Lang::Sv),
        ('i', 't') => Some(Lang::It),
        ('i', 'd') => Some(Lang::Id),
        ('h', 'i') => Some(Lang::Hi),
        ('f', 'i') => Some(Lang::Fi),
        ('v', 'i') => Some(Lang::Vi),
        ('h', 'e') => Some(Lang::He),
        ('u', 'k') => Some(Lang::Uk),
        ('e', 'l') => Some(Lang::El),
        ('m', 's') => Some(Lang::Ms),
        ('c', 's') => Some(Lang::Cs),
        ('r', 'o') => Some(Lang::Ro),
        ('d', 'a') => Some(Lang::Da),
        ('h', 'u') => Some(Lang::Hu),
        ('t', 'a') => Some(Lang::Ta),
        ('n', 'o') => Some(Lang::No),
        ('t', 'h') => Some(Lang::Th),
        ('u', 'r') => Some(Lang::Ur),
        ('h', 'r') => Some(Lang::Hr),
        ('b', 'g') => Some(Lang::Bg),
        ('l', 't') => Some(Lang::Lt),
        ('l', 'a') => Some(Lang::La),
        ('m', 'i') => Some(Lang::Mi),
        ('m', 'l') => Some(Lang::Ml),
        ('c', 'y') => Some(Lang::Cy),
        ('s', 'k') => Some(Lang::Sk),
        ('t', 'e') => Some(Lang::Te),
        ('f', 'a') => Some(Lang::Fa),
        ('l', 'v') => Some(Lang::Lv),
        ('b', 'n') => Some(Lang::Bn),
        ('s', 'r') => Some(Lang::Sr),
        ('a', 'z') => Some(Lang::Az),
        ('s', 'l') => Some(Lang::Sl),
        ('k', 'n') => Some(Lang::Kn),
        ('e', 't') => Some(Lang::Et),
        ('m', 'k') => Some(Lang::Mk),
        ('b', 'r') => Some(Lang::Br),
        ('e', 'u') => Some(Lang::Eu),
        ('i', 's') => Some(Lang::Is),
        ('h', 'y') => Some(Lang::Hy),
        ('n', 'e') => Some(Lang::Ne),
        ('m', 'n') => Some(Lang::Mn),
        ('b', 's') => Some(Lang::Bs),
        ('k', 'k') => Some(Lang::Kk),
        ('s', 'q') => Some(Lang::Sq),
        ('s', 'w') => Some(Lang::Sw),
        ('g', 'l') => Some(Lang::Gl),
        ('m', 'r') => Some(Lang::Mr),
        ('p', 'a') => Some(Lang::Pa),
        ('s', 'i') => Some(Lang::Si),
        ('k', 'm') => Some(Lang::Km),
        ('s', 'n') => Some(Lang::Sn),
        ('y', 'o') => Some(Lang::Yo),
        ('s', 'o') => Some(Lang::So),
        ('a', 'f') => Some(Lang::Af),
        ('o', 'c') => Some(Lang::Oc),
        ('k', 'a') => Some(Lang::Ka),
        ('b', 'e') => Some(Lang::Be),
        ('t', 'g') => Some(Lang::Tg),
        ('s', 'd') => Some(Lang::Sd),
        ('g', 'u') => Some(Lang::Gu),
        ('a', 'm') => Some(Lang::Am),
        ('y', 'i') => Some(Lang::Yi),
        ('l', 'o') => Some(Lang::Lo),
        ('u', 'z') => Some(Lang::Uz),
        ('f', 'o') => Some(Lang::Fo),
        ('h', 't') => Some(Lang::Ht),
        ('p', 's') => Some(Lang::Ps),
        ('t', 'k') => Some(Lang::Tk),
        ('n', 'n') => Some(Lang::Nn),
        ('m', 't') => Some(Lang::Mt),
        ('s', 'a') => Some(Lang::Sa),
        ('l', 'b') => Some(Lang::Lb),
        ('m', 'y') => Some(Lang::My),
        ('b', 'o') => Some(Lang::Bo),
        ('t', 'l') => Some(Lang::Tl),
        ('m', 'g') => Some(Lang::Mg),
        ('a', 's') => Some(Lang::As),
        ('t', 't') => Some(Lang::Tt),
        ('l', 'n') => Some(Lang::Ln),
        ('h', 'a') => Some(Lang::Ha),
        ('b', 'a') => Some(Lang::Ba),
        ('j', 'w') => Some(Lang::Jw),
        ('s', 'u') => Some(Lang::Su),
        _ => None,
    }
}
} // verus!

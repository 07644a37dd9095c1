use smol_str::SmolStr;
use whispercpp::lang::{lang_query, LangCodeError};
use whispercpp::{lang_id_for, Lang};

fn known() -> Vec<Lang> {
    vec![
        Lang::En, Lang::Zh, Lang::De, Lang::Es, Lang::Ru, Lang::Ko, Lang::Fr, Lang::Ja, Lang::Pt,
        Lang::Tr, Lang::Pl, Lang::Ca, Lang::Nl, Lang::Ar, Lang::Sv, Lang::It, Lang::Id, Lang::Hi,
        Lang::Fi, Lang::Vi, Lang::He, Lang::Uk, Lang::El, Lang::Ms, Lang::Cs, Lang::Ro, Lang::Da,
        Lang::Hu, Lang::Ta, Lang::No, Lang::Th, Lang::Ur, Lang::Hr, Lang::Bg, Lang::Lt, Lang::La,
        Lang::Mi, Lang::Ml, Lang::Cy, Lang::Sk, Lang::Te, Lang::Fa, Lang::Lv, Lang::Bn, Lang::Sr,
        Lang::Az, Lang::Sl, Lang::Kn, Lang::Et, Lang::Mk, Lang::Br, Lang::Eu, Lang::Is, Lang::Hy,
        Lang::Ne, Lang::Mn, Lang::Bs, Lang::Kk, Lang::Sq, Lang::Sw, Lang::Gl, Lang::Mr, Lang::Pa,
        Lang::Si, Lang::Km, Lang::Sn, Lang::Yo, Lang::So, Lang::Af, Lang::Oc, Lang::Ka, Lang::Be,
        Lang::Tg, Lang::Sd, Lang::Gu, Lang::Am, Lang::Yi, Lang::Lo, Lang::Uz, Lang::Fo, Lang::Ht,
        Lang::Ps, Lang::Tk, Lang::Nn, Lang::Mt, Lang::Sa, Lang::Lb, Lang::My, Lang::Bo, Lang::Tl,
        Lang::Mg, Lang::As, Lang::Tt, Lang::Haw, Lang::Ln, Lang::Ha, Lang::Ba, Lang::Jw, Lang::Su,
        Lang::Yue,
    ]
}

fn read_json(json: &str) -> Option<Result<Lang, LangCodeError>> {
    let text: Result<&str, serde_json::Error> = serde_json::from_str(json);
    text.ok().map(|s| Lang::from_wire(s))
}

fn write_json(lang: &Lang) -> String {
    serde_json::to_string(lang.as_str()).expect("serialize")
}

#[test]
fn named_variants_canonicalise() {
    let known = known();
    assert_eq!(known.len(), 100, "must keep the 100-variant Appendix C list in sync");
    for v in known.iter() {
        let round = Lang::from_iso639_1(v.as_str());
        assert_eq!(&round, v, "round-trip failed for {:?}", v);
        assert!(
            !matches!(round, Lang::Other(_)),
            "{:?} canonicalised to Other; this breaks Eq/Hash",
            v
        );
    }
}

#[test]
fn codes_are_the_variant_names_in_lower_case() {
    for v in known() {
        assert_eq!(v.as_str(), format!("{:?}", v).to_ascii_lowercase());
    }
}

#[test]
fn codes_are_pairwise_distinct() {
    let mut codes: Vec<String> = known().iter().map(|l| l.as_str().to_string()).collect();
    codes.sort();
    codes.dedup();
    assert_eq!(codes.len(), 100);
}

#[test]
fn unknown_codes_land_in_other() {
    let r = Lang::from_iso639_1("zzz");
    assert_eq!(r, Lang::Other(SmolStr::new("zzz")));
    assert_eq!(r.as_str(), "zzz");
}

#[test]
fn other_round_trips_via_as_str() {
    let r = Lang::Other(SmolStr::new("xx"));
    assert_eq!(r.as_str(), "xx");
    assert_eq!(Lang::from_iso639_1(r.as_str()), r);
}

#[test]
fn spellings_of_known_codes_are_read() {
    for s in ["en", "En", "eN", "EN"] {
        assert_eq!(Lang::from_iso639_1(s), Lang::En);
        assert_eq!(Lang::try_from_iso639_1(s), Some(Lang::En));
    }
    for s in ["haw", "Haw", "hAW", "HAW"] {
        assert_eq!(Lang::from_iso639_1(s), Lang::Haw);
    }
    for s in ["hAw", "haW", "HAw", "HaW"] {
        assert_eq!(Lang::from_iso639_1(s), Lang::Other(SmolStr::new(s)));
        assert_eq!(Lang::try_from_iso639_1(s), Some(Lang::Other(SmolStr::new(s))));
    }
    for s in ["", "e", "english", "éé", "zz", "zzz", "en "] {
        assert_eq!(Lang::try_from_iso639_1(s), Some(Lang::Other(SmolStr::new(s))));
        assert_eq!(Lang::from_iso639_1(s), Lang::Other(SmolStr::new(s)));
    }
}

#[test]
fn serde_named_variant_serializes_as_lowercase_iso() {
    let json = write_json(&Lang::En);
    assert_eq!(json, "\"en\"", "Lang::En must serialize as \"en\", not \"En\"");
    let json = write_json(&Lang::Yue);
    assert_eq!(json, "\"yue\"");
}

#[test]
fn serde_other_serializes_as_inner_string() {
    let v = Lang::Other(SmolStr::new("xx"));
    let json = write_json(&v);
    assert_eq!(json, "\"xx\"", "Lang::Other(\"xx\") must serialize as \"xx\"");
}

#[test]
fn serde_named_variant_round_trips() {
    let json = "\"en\"";
    let lang = read_json(json).unwrap().expect("deserialize");
    assert_eq!(lang, Lang::En);
    assert_eq!(write_json(&lang), json);
}

#[test]
fn serde_unknown_iso_code_round_trips_via_other() {
    let json = "\"xx\"";
    let lang = read_json(json).unwrap().expect("deserialize");
    assert_eq!(lang, Lang::Other(SmolStr::new("xx")));
    assert_eq!(write_json(&lang), json);
}

#[test]
fn serde_deserializes_known_codes_to_named_variants() {
    let lang = read_json("\"en\"").unwrap().unwrap();
    assert!(matches!(lang, Lang::En), "must canonicalise to Lang::En");
    let lang = read_json("\"yue\"").unwrap().unwrap();
    assert!(matches!(lang, Lang::Yue));
}

#[test]
fn serde_accepts_any_case_for_named_variant() {
    for input in ["\"en\"", "\"EN\"", "\"En\"", "\"eN\""] {
        let lang = read_json(input).unwrap().expect(input);
        assert_eq!(lang, Lang::En, "input {input} must canonicalise to Lang::En");
        assert_eq!(write_json(&lang), "\"en\"");
    }
}

#[test]
fn the_wire_form_reads_mixed_case_that_plain_reading_does_not() {
    assert_eq!(Lang::from_wire("hAw"), Ok(Lang::Haw));
    assert_eq!(Lang::from_wire("yUe"), Ok(Lang::Yue));
}

#[test]
fn serde_lowercases_unknown_code_into_other() {
    let lang = read_json("\"XX\"").unwrap().expect("deserialize");
    assert_eq!(lang, Lang::Other(SmolStr::new("xx")));
    let lang = read_json("\"Xx\"").unwrap().expect("deserialize");
    assert_eq!(lang, Lang::Other(SmolStr::new("xx")));
}

#[test]
fn serde_rejects_empty_string() {
    let res = read_json("\"\"").unwrap();
    assert!(res.is_err());
    assert_eq!(res, Err(LangCodeError::Empty));
}

#[test]
fn serde_rejects_overlong_code() {
    let res = read_json("\"abcdefghi\"").unwrap();
    assert!(res.is_err(), "9-byte code must be rejected");
    assert_eq!(res, Err(LangCodeError::TooLong { bytes: 9 }));
    assert_eq!(Lang::from_wire("abcdefgh"), Ok(Lang::Other(SmolStr::new("abcdefgh"))));
}

#[test]
fn serde_rejects_non_ascii_letters() {
    let res = read_json("\"français\"").unwrap();
    assert!(res.is_err(), "non-ASCII must be rejected");
    let res = read_json("\"a-b\"").unwrap();
    assert!(res.is_err(), "dash must be rejected");
    assert_eq!(res, Err(LangCodeError::NotLetters));
    let res = read_json("\"a1b\"").unwrap();
    assert!(res.is_err(), "digits must be rejected");
    assert_eq!(Lang::from_wire("éé"), Err(LangCodeError::NotLetters));
    assert_eq!(Lang::from_wire("en\0"), Err(LangCodeError::NotLetters));
}

#[test]
fn serde_rejects_legacy_other_as_map() {
    let res = read_json(r#"{"Other":"xx"}"#);
    assert!(res.is_none(), "legacy Other-as-map encoding must be rejected");
}

#[test]
fn lang_id_for_round_trips_named_variants() {
    let lang_max_id = 99;
    for (lang, native_id) in
        [(Lang::En, 0), (Lang::Zh, 1), (Lang::Ja, 7), (Lang::Ko, 5), (Lang::Yue, 99)]
    {
        let id = lang_id_for(lang.as_str(), native_id)
            .unwrap_or_else(|| panic!("lang_id_for({}) returned None", lang.as_str()));
        assert_eq!(id, native_id);
        assert!(id >= 0, "lang_id_for({}) returned negative {id}", lang.as_str());
        assert!(
            id <= lang_max_id,
            "lang_id_for({}) = {id} exceeds lang_max_id = {}",
            lang.as_str(),
            lang_max_id
        );
    }
}

#[test]
fn lang_id_for_returns_none_on_unknown() {
    assert_eq!(lang_id_for("xx", -1), None);
    assert_eq!(lang_id_for("definitely-not-a-language", -1), None);
}

#[test]
fn lang_id_for_gives_the_native_number() {
    assert_eq!(lang_id_for("en", 0), Some(0));
    assert_eq!(lang_id_for("english", 0), Some(0));
    assert_eq!(lang_id_for("yue", 99), Some(99));
    assert_eq!(lang_id_for("en", -100), None, "a caught exception");
}

#[test]
fn lang_id_for_rejects_interior_nul() {
    assert_eq!(lang_id_for("en\0extra", 0), None);
    assert!(lang_query("en\0extra").is_none());
}

#[test]
fn lang_id_for_rejects_overlong_input() {
    let long = "x".repeat(2000);
    assert_eq!(lang_id_for(&long, 0), None);
    assert!(lang_query(&long).is_none());
    let one_over_cap = "x".repeat(33);
    assert_eq!(lang_id_for(&one_over_cap, 0), None);
    assert!(lang_query(&one_over_cap).is_none());
    let at_cap = "x".repeat(32);
    assert_eq!(lang_id_for(&at_cap, -1), None);
    let buf = lang_query(&at_cap).unwrap();
    assert_eq!(&buf[..32], at_cap.as_bytes());
    assert_eq!(buf[32], 0);
}

#[test]
fn queries_are_filled_up_with_zeros() {
    let buf = lang_query("zh").unwrap();
    assert_eq!(&buf[..2], b"zh");
    assert!(buf[2..].iter().all(|b| *b == 0));
    assert_eq!(lang_query("").unwrap(), [0u8; 33]);
}

#[test]
fn full_name_returns_english_name_for_known_langs() {
    assert_eq!(Lang::En.full_name(0, Some(b"english")), Some(SmolStr::new("english")));
    assert_eq!(Lang::Zh.full_name(1, Some(b"chinese")), Some(SmolStr::new("chinese")));
    assert_eq!(Lang::Ja.full_name(7, Some(b"japanese")), Some(SmolStr::new("japanese")));
    assert_eq!(Lang::Fr.full_name(6, Some(b"french")), Some(SmolStr::new("french")));
}

#[test]
fn full_name_returns_none_for_unknown_other() {
    let unknown = Lang::Other(SmolStr::new("xx"));
    assert_eq!(unknown.full_name(-1, None), None);
    assert_eq!(unknown.full_name(-1, Some(b"english")), None);
}

#[test]
fn full_name_needs_a_utf8_name() {
    assert_eq!(Lang::En.full_name(0, None), None);
    assert_eq!(Lang::En.full_name(0, Some(&[0xFF])), None);
}

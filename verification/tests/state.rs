use smol_str::SmolStr;
use whispercpp::context::{
    Context, ContextParams, LoadReturn, Model, ModelDims, NativeAction, SpecialTokens,
};
use whispercpp::params::{NativeParams, Params, ParamsDefaults, SamplingStrategy};
use whispercpp::state::{
    survives_run, FullReturn, InitReturn, Output, SegmentData, State, Token, TokenData,
};
use whispercpp::{Float32, Lang, WhisperError, WhisperResult};

fn f(x: f32) -> Float32 {
    Float32 { bits: x.to_bits() }
}

fn value(x: Float32) -> f32 {
    f32::from_bits(x.bits)
}

fn model(multilingual: i32) -> Model {
    Model {
        multilingual,
        n_vocab: 100,
        n_audio_ctx: 1500,
        n_text_ctx: 448,
        model_type: None,
        tokens: SpecialTokens {
            eot: 9,
            sot: 10,
            beg: 120,
            translate: 13,
            transcribe: 14,
            prev: 15,
            nosp: 16,
            not: 17,
            solm: 18,
        },
        dims: ModelDims {
            n_audio_state: 1,
            n_audio_head: 1,
            n_audio_layer: 1,
            n_text_state: 1,
            n_text_head: 1,
            n_text_layer: 1,
            n_mels: 80,
            model_ftype: 1,
        },
        vocab: vec![],
    }
}

fn context() -> Context {
    Context::new("m", ContextParams::new(), LoadReturn::Loaded(model(1)), 7).0.ok().unwrap()
}

fn english_context() -> Context {
    Context::new("m", ContextParams::new(), LoadReturn::Loaded(model(0)), 8).0.ok().unwrap()
}

fn fresh() -> Output {
    Output { segments: vec![], n_mel_frames: 0, lang_id: 0, lang_code: Some(b"en".to_vec()) }
}

fn token(id: i32) -> TokenData {
    TokenData {
        id,
        tid: 0,
        p: f(0.0),
        plog: f(0.0),
        pt: f(0.0),
        ptsum: f(0.0),
        t0: 0,
        t1: 0,
        t_dtw: -1,
        vlen: f(0.0),
    }
}

fn segment(t0: i64, text: &str, ids: &[i32]) -> SegmentData {
    SegmentData {
        t0,
        t1: t0 + 50,
        text: Some(text.as_bytes().to_vec()),
        no_speech_prob: f(0.25),
        speaker_turn_next: ids.len() == 1,
        tokens: ids.iter().map(|id| token(*id)).collect(),
    }
}

fn spoken() -> Output {
    Output {
        segments: vec![
            segment(0, " Hello", &[1, 2]),
            segment(50, " wörld", &[3]),
            segment(100, "", &[]),
        ],
        n_mel_frames: 3000,
        lang_id: 1,
        lang_code: Some(b"zh".to_vec()),
    }
}

fn new_state(ctx: &Context) -> State {
    let (result, action) = ctx.create_state(InitReturn::Ready(fresh()));
    assert_eq!(action, NativeAction::Keep);
    result.ok().unwrap()
}

fn params() -> Params {
    let z = f(0.0);
    let raw = NativeParams {
        strategy: 0,
        best_of: 1,
        beam_size: 1,
        patience: z,
        n_threads: 1,
        n_max_text_ctx: 0,
        offset_ms: 0,
        duration_ms: 0,
        audio_ctx: 0,
        max_tokens: 0,
        max_len: 0,
        translate: false,
        no_context: false,
        no_timestamps: false,
        single_segment: false,
        split_on_word: false,
        token_timestamps: false,
        detect_language: false,
        suppress_blank: false,
        suppress_nst: false,
        print_special: false,
        print_progress: false,
        print_realtime: false,
        print_timestamps: false,
        temperature: z,
        temperature_inc: z,
        max_initial_ts: z,
        length_penalty: z,
        entropy_thold: z,
        logprob_thold: z,
        no_speech_thold: z,
        thold_pt: z,
        thold_ptsum: z,
    };
    Params::new(
        SamplingStrategy::Greedy { best_of: 1 },
        ParamsDefaults { raw, language: Some(b"en".to_vec()) },
    )
}

fn ret(code: i32, output: Output) -> FullReturn {
    FullReturn { code, output }
}

fn run(state: &mut State, ctx: &mut Context, code: i32) -> (WhisperResult<()>, NativeAction) {
    state.full(ctx, &params(), 16_000, 0, ret(code, spoken()))
}

fn poisoned_state() -> State {
    let mut ctx = context();
    let mut state = new_state(&ctx);
    let (result, _) = run(&mut state, &mut ctx, -7);
    assert!(matches!(result, Err(WhisperError::StateLost { code: -7 })));
    assert!(state.is_poisoned());
    state
}

#[test]
fn token_from_raw_projects_every_field_including_t_dtw() {
    let raw = TokenData {
        id: 1234,
        tid: 5678,
        p: f(0.8),
        plog: f(-0.22),
        pt: f(0.05),
        ptsum: f(0.12),
        t0: 100,
        t1: 250,
        t_dtw: 175,
        vlen: f(0.42),
    };
    let tok = Token::from_raw(raw);
    assert_eq!(tok.id(), 1234);
    assert!((value(tok.p()) - 0.8).abs() < 1e-6);
    assert!((value(tok.plog()) - -0.22).abs() < 1e-6);
    assert!((value(tok.pt()) - 0.05).abs() < 1e-6);
    assert!((value(tok.ptsum()) - 0.12).abs() < 1e-6);
    assert_eq!(tok.t0(), 100);
    assert_eq!(tok.t1(), 250);
    assert_eq!(tok.t_dtw(), Some(175), "Token::from_raw must project the DTW timestamp");
    assert!((value(tok.vlen()) - 0.42).abs() < 1e-6);
}

#[test]
fn t_dtw_is_independent_of_t0_t1() {
    let raw = TokenData { t0: 100, t1: 200, t_dtw: 150, ..token(0) };
    let tok = Token::from_raw(raw);
    assert_eq!(tok.t0(), 100);
    assert_eq!(tok.t1(), 200);
    assert_eq!(tok.t_dtw(), Some(150));
    assert_ne!(tok.t_dtw(), Some(tok.t0()));
    assert_ne!(tok.t_dtw(), Some(tok.t1()));
}

#[test]
fn t_dtw_sentinel_minus_one_maps_to_none() {
    let raw = TokenData { t_dtw: -1, ..token(0) };
    let tok = Token::from_raw(raw);
    assert_eq!(
        tok.t_dtw(),
        None,
        "t_dtw == -1 must surface as None (DTW unavailable for token)",
    );
}

#[test]
fn t_dtw_zero_maps_to_some_zero() {
    let raw = TokenData { t_dtw: 0, ..token(0) };
    let tok = Token::from_raw(raw);
    assert_eq!(
        tok.t_dtw(),
        Some(0),
        "t_dtw == 0 is a valid timestamp (token at audio start), not the sentinel",
    );
}

#[test]
fn segments_iter_empty_state_yields_zero_items() {
    let state = poisoned_state();
    let count = state.segments_iter().count();
    assert_eq!(count, 0, "poisoned state must yield zero segments");
}

#[test]
fn segments_iter_count_matches_n_segments() {
    let state = poisoned_state();
    let expected = state.n_segments();
    assert_eq!(expected, 0, "test fixture is poisoned");
    let actual = state.segments_iter().count() as i32;
    assert_eq!(actual, expected);
}

#[test]
fn segments_iter_exact_size_len_matches_count() {
    let state = poisoned_state();
    let iter = state.segments_iter();
    let len_before = iter.len();
    let counted = iter.count();
    assert_eq!(len_before, counted);
    assert_eq!(len_before, 0);
}

#[test]
fn segments_iter_size_hint_is_exact() {
    let state = poisoned_state();
    let iter = state.segments_iter();
    let (lower, upper) = iter.size_hint();
    assert_eq!(lower, 0);
    assert_eq!(upper, Some(0));
}

#[test]
fn segments_iter_fused_after_exhaustion() {
    let state = poisoned_state();
    let mut iter = state.segments_iter();
    assert!(iter.next().is_none());
    assert!(iter.next().is_none());
    assert!(iter.next().is_none());
}

#[test]
fn multiple_segments_iter_alive_concurrently() {
    let state = poisoned_state();
    let it1 = state.segments_iter();
    let it2 = state.segments_iter();
    assert_eq!(it1.len(), it2.len());
    assert_eq!(it1.count(), 0);
    assert_eq!(it2.count(), 0);
}

#[test]
fn segments_iter_composes_with_adapters() {
    let state = poisoned_state();
    let collected: Vec<i64> =
        state.segments_iter().collect().into_iter().map(|seg| seg.t0()).collect();
    assert!(collected.is_empty());
}

#[test]
fn nested_segments_and_tokens_iter_compiles() {
    let state = poisoned_state();
    let mut total: i32 = 0;
    for seg in state.segments_iter().collect() {
        for tok in seg.tokens_iter().collect() {
            total = total.wrapping_add(tok.id());
        }
    }
    assert_eq!(total, 0);
}

#[test]
fn tokens_iter_composes_with_flat_map() {
    let state = poisoned_state();
    let total: usize = state
        .segments_iter()
        .collect()
        .into_iter()
        .flat_map(|seg| seg.tokens_iter().collect())
        .count();
    assert_eq!(total, 0);
}

#[test]
fn segments_iter_double_ended_compiles_and_empty_yields_none() {
    let state = poisoned_state();
    let mut iter = state.segments_iter();
    assert!(iter.next_back().is_none());
    let rev_count = state.segments_iter().collect().into_iter().rev().count();
    assert_eq!(rev_count, 0);
}

#[test]
fn a_poisoned_state_reads_as_empty() {
    let state = poisoned_state();
    assert_eq!(state.n_segments(), 0);
    assert_eq!(state.n_mel_frames(), 0);
    assert!(state.segment(0).is_none());
    assert_eq!(state.detected_lang(), None);
    assert!(!state.print_timings());
    let mut state = state;
    assert!(!state.reset_timings());
    assert_eq!(state.release(), NativeAction::Gone);
    assert!(state.is_poisoned());
}

#[test]
fn timings_are_asked_for_while_the_native_state_is_there() {
    let mut ctx = context();
    let mut state = spoken_state(&mut ctx);
    assert!(state.print_timings());
    assert!(state.reset_timings());
    assert_eq!(state.n_segments(), 3);
}

fn spoken_state(ctx: &mut Context) -> State {
    let mut state = new_state(ctx);
    let (result, action) = run(&mut state, ctx, 0);
    assert!(result.is_ok());
    assert_eq!(action, NativeAction::Keep);
    state
}

#[test]
fn a_run_gives_its_segments_and_tokens() {
    let mut ctx = context();
    let state = spoken_state(&mut ctx);
    assert_eq!(state.n_segments(), 3);
    assert_eq!(state.n_mel_frames(), 3000);
    assert_eq!(state.detected_lang(), Some(Lang::Zh));
    assert_eq!(state.context().n_vocab, 100);
    let seg = state.segment(1).unwrap();
    assert_eq!(seg.t0(), 50);
    assert_eq!(seg.t1(), 100);
    assert_eq!(seg.text().ok().unwrap(), " wörld");
    assert_eq!(value(seg.no_speech_prob()), 0.25);
    assert!(seg.speaker_turn_next());
    assert_eq!(seg.n_tokens(), 1);
    assert_eq!(seg.token(0).unwrap().id(), 3);
    assert!(seg.token(1).is_none());
    assert!(seg.token(-1).is_none());
    assert!(state.segment(3).is_none());
    assert!(state.segment(-1).is_none());
    assert!(!state.segment(0).unwrap().speaker_turn_next());
}

#[test]
fn iterating_agrees_with_indexing() {
    let mut ctx = context();
    let state = spoken_state(&mut ctx);
    let listed = state.segments_iter().collect();
    assert_eq!(listed.len() as i32, state.n_segments());
    for (i, seg) in listed.iter().enumerate() {
        let same = state.segment(i as i32).unwrap();
        assert_eq!(seg.t0(), same.t0());
        let tokens = seg.tokens_iter().collect();
        assert_eq!(tokens.len() as i32, same.n_tokens());
        for (j, tok) in tokens.iter().enumerate() {
            assert_eq!(tok.id(), same.token(j as i32).unwrap().id());
        }
    }
}

#[test]
fn both_ends_meet() {
    let mut ctx = context();
    let state = spoken_state(&mut ctx);
    let mut it = state.segments_iter();
    assert_eq!(it.size_hint(), (3, Some(3)));
    assert_eq!(it.next_back().unwrap().t0(), 100);
    assert_eq!(it.next().unwrap().t0(), 0);
    assert_eq!(it.len(), 1);
    assert_eq!(it.next_back().unwrap().t0(), 50);
    assert!(it.next().is_none());
    assert!(it.next_back().is_none());
    let mut tokens = state.segment(0).unwrap().tokens_iter();
    assert_eq!(tokens.size_hint(), (2, Some(2)));
    assert_eq!(tokens.next_back().unwrap().id(), 2);
    assert_eq!(tokens.len(), 1);
    assert_eq!(tokens.next().unwrap().id(), 1);
    assert!(tokens.next_back().is_none());
    assert_eq!(state.segment(0).unwrap().tokens_iter().count(), 2);
}

#[test]
fn segment_text_is_checked() {
    let mut ctx = context();
    let mut state = new_state(&ctx);
    let mut out = spoken();
    out.segments[0].text = None;
    out.segments[1].text = Some(vec![0x80]);
    let (result, _) = state.full(&mut ctx, &params(), 16_000, 0, ret(0, out));
    assert!(result.is_ok());
    assert_eq!(state.segment(0).unwrap().text().ok().unwrap(), "");
    match state.segment(1).unwrap().text() {
        Err(WhisperError::Utf8(e)) => {
            assert_eq!(Err(e), core::str::from_utf8(&[0x80]));
            assert_eq!((e.valid_up_to(), e.error_len()), (0, Some(1)));
        }
        r => panic!("{:?}", r),
    }
    out = spoken();
    out.segments[0].text = Some(b"ab\xE2\x82".to_vec());
    let (result, _) = state.full(&mut ctx, &params(), 16_000, 0, ret(0, out));
    assert!(result.is_ok());
    match state.segment(0).unwrap().text() {
        Err(WhisperError::Utf8(e)) => assert_eq!((e.valid_up_to(), e.error_len()), (2, None)),
        r => panic!("{:?}", r),
    }
}

#[test]
fn the_language_found_is_read_as_a_code() {
    let cases: Vec<(i32, Option<Vec<u8>>, Option<Lang>)> = vec![
        (0, Some(b"en".to_vec()), Some(Lang::En)),
        (99, Some(b"yue".to_vec()), Some(Lang::Yue)),
        (5, Some(b"xx".to_vec()), Some(Lang::Other(SmolStr::new("xx")))),
        (-1, Some(b"en".to_vec()), None),
        (3, None, None),
        (3, Some(vec![0xFF]), None),
    ];
    for (lang_id, lang_code, expected) in cases {
        let (result, _) = context().create_state(InitReturn::Ready(Output {
            segments: vec![],
            n_mel_frames: 0,
            lang_id,
            lang_code,
        }));
        assert_eq!(result.ok().unwrap().detected_lang(), expected);
    }
}

#[test]
fn states_are_created_unless_the_native_side_or_poison_says_no() {
    let mut ctx = context();
    assert!(ctx.create_state_request().is_ok());
    let (result, action) = ctx.create_state(InitReturn::Null { exception: 0 });
    assert!(matches!(result, Err(WhisperError::StateInit { code: None })));
    assert_eq!(action, NativeAction::Gone);
    let (result, action) = ctx.create_state(InitReturn::Null { exception: -101 });
    assert!(matches!(result, Err(WhisperError::StateInit { code: Some(-101) })));
    assert_eq!(action, NativeAction::Gone);
    assert!(!ctx.is_poisoned(), "a failed attempt poisons nothing");
    ctx.mark_lost();
    assert!(matches!(ctx.create_state_request(), Err(WhisperError::ContextPoisoned)));
    let (result, action) = ctx.create_state(InitReturn::Ready(fresh()));
    assert!(matches!(result, Err(WhisperError::ContextPoisoned)));
    assert_eq!(action, NativeAction::Free, "a state that came too late is freed");
    let (result, action) = ctx.create_state(InitReturn::Null { exception: -100 });
    assert!(matches!(result, Err(WhisperError::ContextPoisoned)));
    assert_eq!(action, NativeAction::Gone);
}

fn request(n: usize, p: &Params, lang_id: i32) -> WhisperResult<i32> {
    let ctx = context();
    new_state(&ctx).full_request(&ctx, p, n, lang_id)
}

#[test]
fn too_few_or_too_many_samples_are_refused() {
    assert!(matches!(
        request(200, &params(), 0),
        Err(WhisperError::SamplesTooShort { samples: 200, min_required: 201 })
    ));
    assert!(matches!(
        request(0, &params(), 0),
        Err(WhisperError::SamplesTooShort { samples: 0, min_required: 201 })
    ));
    assert_eq!(request(201, &params(), 0).ok(), Some(201));
    let most = i32::MAX as usize;
    assert_eq!(request(most, &params(), 0).ok(), Some(i32::MAX));
    match request(most + 1, &params(), 0) {
        Err(WhisperError::SamplesOverflow { samples }) => assert_eq!(samples, most + 1),
        r => panic!("{:?}", r),
    }
}

#[test]
fn the_first_foreign_token_is_reported() {
    let mut p = params();
    p.set_tokens(&[0, 99, 100, -5]).ok().unwrap();
    assert!(matches!(
        request(16_000, &p, 0),
        Err(WhisperError::TokenOutOfRange { token: 100, vocab_size: 100 })
    ));
    p.set_tokens(&[0, -5, 100]).ok().unwrap();
    assert!(matches!(
        request(16_000, &p, 0),
        Err(WhisperError::TokenOutOfRange { token: -5, vocab_size: 100 })
    ));
    p.set_tokens(&[0, 99]).ok().unwrap();
    assert!(request(16_000, &p, 0).is_ok());
}

#[test]
fn languages_that_the_model_lacks_are_refused() {
    let mut p = params();
    p.set_language("zh", 1).ok().unwrap();
    assert!(request(16_000, &p, 1).is_ok());
    match request(16_000, &p, 2) {
        Err(WhisperError::LanguageNotSupportedByModel(s)) => assert_eq!(s, "zh"),
        r => panic!("{:?}", r),
    }
    assert!(matches!(
        request(16_000, &p, -1),
        Err(WhisperError::LanguageNotSupportedByModel(_))
    ));
    p.set_detect_language(true);
    assert!(request(16_000, &p, 2).is_ok(), "a hint is not read where the language is found out");
}

#[test]
fn an_english_model_takes_english_alone() {
    let ctx = english_context();
    let state = new_state(&ctx);
    let mut p = params();
    assert!(state.full_request(&ctx, &p, 16_000, 0).is_ok());
    p.set_language("zh", 1).ok().unwrap();
    assert!(matches!(
        state.full_request(&ctx, &p, 16_000, 1),
        Err(WhisperError::LanguageNotSupportedByModel(s)) if s == "zh"
    ));
    for hint in ["", "auto"] {
        p.set_language(hint, -1).ok().unwrap();
        assert!(matches!(
            state.full_request(&ctx, &p, 16_000, -1),
            Err(WhisperError::LanguageNotSupportedByModel(s)) if s == "auto"
        ));
    }
    p.set_language("en", 0).ok().unwrap().set_detect_language(true);
    assert!(matches!(
        state.full_request(&ctx, &p, 16_000, 0),
        Err(WhisperError::LanguageNotSupportedByModel(s)) if s == "auto"
    ));
}

#[test]
fn auto_detection_needs_no_known_language() {
    let mut p = params();
    p.set_language("auto", -1).ok().unwrap();
    assert!(request(16_000, &p, -1).is_ok());
}

#[test]
fn ranges_must_lie_within_the_audio() {
    let mut p = params();
    p.set_offset_ms(400).set_duration_ms(600);
    assert!(request(16_000, &p, 0).is_ok());
    p.set_duration_ms(601);
    assert!(matches!(
        request(16_000, &p, 0),
        Err(WhisperError::InvalidDuration {
            offset_ms: 400,
            duration_ms: 601,
            audio_duration_ms: 1000
        })
    ));
    p.set_duration_ms(-1);
    assert!(matches!(request(16_000, &p, 0), Err(WhisperError::InvalidDuration { .. })));
    p.set_offset_ms(1000).set_duration_ms(0);
    assert!(request(16_000, &p, 0).is_ok());
    p.set_offset_ms(1001);
    assert!(matches!(request(16_000, &p, 0), Err(WhisperError::InvalidDuration { .. })));
    p.set_offset_ms(0).set_duration_ms(i32::MAX);
    assert!(matches!(
        request(201, &p, 0),
        Err(WhisperError::InvalidDuration { audio_duration_ms: 12, .. })
    ));
    p.set_offset_ms(i32::MAX).set_duration_ms(i32::MAX);
    assert!(matches!(request(16_000, &p, 0), Err(WhisperError::InvalidDuration { .. })));
}

#[test]
fn refusals_come_in_order() {
    let mut p = params();
    p.set_language("zh", 1).ok().unwrap().set_duration_ms(-1);
    p.set_tokens(&[-1]).ok().unwrap();
    assert!(matches!(request(1, &p, 99), Err(WhisperError::SamplesTooShort { .. })));
    assert!(matches!(request(16_000, &p, 99), Err(WhisperError::TokenOutOfRange { .. })));
    p.set_tokens(&[]).ok().unwrap();
    assert!(matches!(
        request(16_000, &p, 99),
        Err(WhisperError::LanguageNotSupportedByModel(_))
    ));
    assert!(matches!(request(16_000, &p, 1), Err(WhisperError::InvalidDuration { .. })));
    p.set_duration_ms(0);
    let mut ctx = context();
    let mut lost = new_state(&ctx);
    let other = new_state(&ctx);
    let (result, _) = run(&mut lost, &mut ctx, -7);
    assert!(matches!(result, Err(WhisperError::StateLost { code: -7 })));
    assert!(matches!(
        lost.full_request(&ctx, &p, 1, 1),
        Err(WhisperError::SamplesTooShort { .. })
    ));
    assert!(matches!(
        lost.full_request(&ctx, &p, 16_000, 1),
        Err(WhisperError::StateLost { code: -7 })
    ));
    assert!(matches!(
        other.full_request(&ctx, &p, 16_000, 1),
        Err(WhisperError::ContextPoisoned)
    ));
}

#[test]
fn a_failed_run_keeps_the_state() {
    for code in [-1, -6, -8, -99, 1, i32::MAX] {
        let mut ctx = context();
        let mut state = new_state(&ctx);
        let (result, action) = run(&mut state, &mut ctx, code);
        match result {
            Err(WhisperError::Full { code: c }) => assert_eq!(c, code),
            r => panic!("{:?}", r),
        }
        assert_eq!(action, NativeAction::Keep);
        assert!(!state.is_poisoned());
        assert!(!ctx.is_poisoned());
        assert_eq!(state.n_segments(), 3);
        assert!(run(&mut state, &mut ctx, 0).0.is_ok());
    }
}

#[test]
fn a_lost_state_poisons_its_context() {
    for (code, expected) in [
        (-7, NativeAction::Gone),
        (-100, NativeAction::Free),
        (-103, NativeAction::Free),
        (i32::MIN, NativeAction::Free),
    ] {
        let mut ctx = context();
        let mut state = new_state(&ctx);
        let mut sibling = new_state(&ctx);
        let (result, action) = run(&mut state, &mut ctx, code);
        match result {
            Err(WhisperError::StateLost { code: c }) => assert_eq!(c, code),
            r => panic!("{:?}", r),
        }
        assert_eq!(action, expected);
        assert!(state.is_poisoned());
        assert!(ctx.is_poisoned());
        let (result, action) = run(&mut state, &mut ctx, 0);
        assert!(matches!(result, Err(WhisperError::StateLost { code: -7 })));
        assert_eq!(action, NativeAction::Gone);
        let (result, action) = run(&mut sibling, &mut ctx, 0);
        assert!(matches!(result, Err(WhisperError::ContextPoisoned)));
        assert_eq!(action, NativeAction::Keep);
        assert_eq!(sibling.n_segments(), 0, "nothing was read of the native answer");
        assert!(matches!(ctx.create_state_request(), Err(WhisperError::ContextPoisoned)));
        assert_eq!(state.release(), NativeAction::Gone);
        assert_eq!(sibling.release(), NativeAction::Free);
        assert_eq!(sibling.release(), NativeAction::Gone);
    }
}

#[test]
fn native_states_are_given_back_once() {
    let scripts: Vec<Vec<i32>> = vec![
        vec![],
        vec![0, 0, 0],
        vec![0, -1, -7, 0, -100],
        vec![-100, -7],
        vec![-3, -103, -103],
    ];
    for script in scripts {
        let mut ctx = context();
        let mut state = new_state(&ctx);
        let mut given_back = 0;
        for code in script {
            let there = !state.is_poisoned();
            let (_, action) = run(&mut state, &mut ctx, code);
            if there && action != NativeAction::Keep {
                given_back += 1;
            }
        }
        if state.release() == NativeAction::Free {
            given_back += 1;
        }
        assert_eq!(given_back, 1);
    }
}

#[test]
fn refused_runs_change_nothing() {
    let mut ctx = context();
    let mut state = spoken_state(&mut ctx);
    let (result, action) = state.full(&mut ctx, &params(), 5, 0, ret(-7, fresh()));
    assert!(matches!(result, Err(WhisperError::SamplesTooShort { .. })));
    assert_eq!(action, NativeAction::Keep);
    assert_eq!(state.n_segments(), 3);
    assert!(!ctx.is_poisoned());
}

#[test]
fn native_states_are_read_only_where_they_survive() {
    for code in [0, 1, -1, -6, -8, -99] {
        assert!(survives_run(code));
    }
    for code in [-7, -100, -101, -103, i32::MIN] {
        assert!(!survives_run(code));
    }
}

#[test]
fn states_know_their_own_context() {
    let ctx = context();
    let other = english_context();
    let state = new_state(&ctx);
    assert_eq!(ctx.serial_number(), 7);
    assert!(state.is_of(&ctx));
    assert!(!state.is_of(&other));
}

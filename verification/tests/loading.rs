use smol_str::SmolStr;
use whispercpp::context::{
    Context, ContextParams, InfoCache, LoadReturn, Model, ModelDims, NativeAction, SpecialTokens,
    AlignmentHeadsPreset, MAX_DTW_MEM_SIZE, MIN_DTW_MEM_SIZE,
};
use whispercpp::room::with_room;
use whispercpp::tokenize::{first_call, single_call, TokenizeCall, TokenizeStep};
use whispercpp::{system_info, version, Lang, WhisperError};

fn model() -> Model {
    Model {
        multilingual: 1,
        n_vocab: 5,
        n_audio_ctx: 1500,
        n_text_ctx: 448,
        model_type: Some(b"tiny"),
        tokens: SpecialTokens {
            eot: 50257,
            sot: 50258,
            beg: 50364,
            translate: 50358,
            transcribe: 50359,
            prev: 50361,
            nosp: 50362,
            not: 50363,
            solm: 50360,
        },
        dims: ModelDims {
            n_audio_state: 384,
            n_audio_head: 6,
            n_audio_layer: 4,
            n_text_state: 385,
            n_text_head: 7,
            n_text_layer: 5,
            n_mels: 80,
            model_ftype: 1,
        },
        vocab: vec![
            Some(b"!".to_vec()),
            None,
            Some(vec![0xE2, 0x82]),
            Some("né".as_bytes().to_vec()),
        ],
    }
}

fn context() -> Context {
    let (result, action) =
        Context::new("model.bin", ContextParams::new(), LoadReturn::Loaded(model()), 1);
    assert_eq!(action, NativeAction::Keep);
    result.ok().unwrap()
}

fn dtw_params() -> ContextParams {
    ContextParams::new()
        .with_dtw_token_timestamps(true)
        .with_dtw_aheads_preset(AlignmentHeadsPreset::LargeV3Turbo)
}

#[test]
fn fresh_context_marker_starts_unpoisoned() {
    let mut ctx = context();
    assert!(!ctx.is_poisoned());
    ctx.mark_lost();
    assert!(ctx.is_poisoned());
}

#[test]
fn mark_lost_is_idempotent_and_monotonic() {
    let mut ctx = context();
    ctx.mark_lost();
    ctx.mark_lost();
    ctx.mark_lost();
    assert!(ctx.is_poisoned(), "stays true across repeated marks");
}

#[test]
fn context_new_rejects_dtw_plus_flash_attn() {
    let params = ContextParams::new()
        .with_flash_attn(true)
        .with_dtw_token_timestamps(true)
        .with_dtw_aheads_preset(AlignmentHeadsPreset::LargeV3Turbo);
    let (result, action) = Context::new(
        "/nonexistent/dtw+flash-attn-test.bin",
        params,
        LoadReturn::Null { exception: 0 },
        1,
    );
    match result {
        Err(WhisperError::ContextLoad { reason, .. }) => {
            assert!(
                reason.contains("DTW") && reason.contains("flash_attn"),
                "ContextLoad reason must explain DTW + flash_attn incompatibility — got: {}",
                reason,
            );
        }
        Err(e) => panic!("expected ContextLoad with DTW + flash_attn rejection, got: {:?}", e),
        Ok(_) => panic!("expected error for DTW + flash_attn config, got Ok(Context)"),
    }
    assert_eq!(action, NativeAction::Gone);
}

#[test]
fn context_new_rejects_dtw_plus_flash_attn_setter_order_invariant() {
    let params = ContextParams::new()
        .with_dtw_token_timestamps(true)
        .with_dtw_aheads_preset(AlignmentHeadsPreset::LargeV3Turbo)
        .with_flash_attn(true);
    let (result, _) = Context::new(
        "/nonexistent/dtw+flash-attn-test2.bin",
        params,
        LoadReturn::Null { exception: 0 },
        1,
    );
    let err = result.err().expect("expected ContextLoad error, got Ok(Context)");
    assert!(
        matches!(err, WhisperError::ContextLoad { .. }),
        "expected ContextLoad regardless of setter order, got: {:?}",
        err,
    );
}

#[test]
fn context_new_accepts_flash_attn_with_dtw_timestamps_but_no_preset() {
    let params = ContextParams::new().with_flash_attn(true).with_dtw_token_timestamps(true);
    let plan = params.load_plan("/nonexistent/no-dtw-fine.bin").ok().unwrap();
    assert!(!plan.params.dtw_token_timestamps);
    assert!(plan.params.flash_attn);
    let (result, _) = Context::new(
        "/nonexistent/no-dtw-fine.bin",
        params,
        LoadReturn::Null { exception: 0 },
        1,
    );
    if let Err(WhisperError::ContextLoad { reason, .. }) = &result {
        assert!(
            !(reason.contains("DTW") && reason.contains("flash_attn")),
            "DTW + flash_attn rejection fired for a config where DTW is off: {}",
            reason,
        );
    }
}

#[test]
fn dtw_with_flash_attn_is_refused_before_the_native_call() {
    let err = dtw_params().with_flash_attn(true).load_plan("a.bin").err().unwrap();
    match err {
        WhisperError::ContextLoad { path, reason, code } => {
            assert_eq!(path, SmolStr::new("a.bin"));
            assert!(reason.starts_with("DTW token timestamps cannot be combined with flash_attn"));
            assert!(reason.ends_with("with_dtw_token_timestamps(false)."));
            assert_eq!(code, None);
        }
        e => panic!("{:?}", e),
    }
}

#[test]
fn a_path_with_a_nul_is_refused() {
    let err = ContextParams::new().load_plan("a\0b").err().unwrap();
    assert!(matches!(err, WhisperError::InvalidCString(s) if s == "a\0b"));
    let (result, action) =
        Context::new("a\0b", ContextParams::new(), LoadReturn::Loaded(model()), 1);
    assert!(matches!(result, Err(WhisperError::InvalidCString(_))));
    assert_eq!(action, NativeAction::Free);
}

#[test]
fn a_nul_in_the_path_wins_over_the_settings() {
    let err = dtw_params().with_flash_attn(true).load_plan("a\0b").err().unwrap();
    assert!(matches!(err, WhisperError::InvalidCString(_)));
}

#[test]
fn the_plan_carries_the_settings() {
    let plan = ContextParams::new()
        .with_use_gpu(false)
        .with_gpu_device(2)
        .with_flash_attn(true)
        .load_plan("dir/é.bin")
        .ok()
        .unwrap();
    assert_eq!(plan.path.as_str(), "dir/é.bin");
    assert_eq!(plan.path.as_bytes_with_nul(), "dir/é.bin\0".as_bytes());
    assert!(!plan.params.use_gpu);
    assert_eq!(plan.params.gpu_device, 2);
    assert!(plan.params.flash_attn);
    assert!(!plan.params.dtw_token_timestamps);
    assert_eq!(plan.params.dtw_aheads_preset, 0);
    assert_eq!(plan.params.dtw_mem_size, MIN_DTW_MEM_SIZE);
}

#[test]
fn dtw_raises_the_memory_to_what_the_preset_needs() {
    let params = dtw_params().with_dtw_aheads_preset(AlignmentHeadsPreset::LargeV2);
    let plan = params.load_plan("a.bin").ok().unwrap();
    assert!(plan.params.dtw_token_timestamps);
    assert_eq!(plan.params.dtw_aheads_preset, 12);
    assert_eq!(plan.params.dtw_mem_size, 278_208_000);
    let plan = params.with_dtw_mem_size(usize::MAX).load_plan("a.bin").ok().unwrap();
    assert_eq!(plan.params.dtw_mem_size, MAX_DTW_MEM_SIZE);
    let off = params.with_dtw_token_timestamps(false).load_plan("a.bin").ok().unwrap();
    assert_eq!(off.params.dtw_mem_size, MIN_DTW_MEM_SIZE);
    assert_eq!(off.params.dtw_aheads_preset, 0);
}

#[test]
fn a_wide_model_is_refused_with_dtw_and_freed() {
    let mut wide = model();
    wide.n_text_ctx = 449;
    let (result, action) = Context::new("w.bin", dtw_params(), LoadReturn::Loaded(wide), 1);
    match result {
        Err(WhisperError::ContextLoad { path, reason, code }) => {
            assert_eq!(path, SmolStr::new("w.bin"));
            assert!(reason.contains("SUPPORTED_DTW_N_TEXT_CTX (448)"));
            assert_eq!(code, None);
        }
        r => panic!("{:?}", r),
    }
    assert_eq!(action, NativeAction::Free);
}

#[test]
fn a_wide_model_loads_without_dtw_and_a_standard_one_with_it() {
    let mut wide = model();
    wide.n_text_ctx = 4096;
    let (result, action) = Context::new("w.bin", ContextParams::new(), LoadReturn::Loaded(wide), 1);
    assert_eq!(result.ok().unwrap().n_text_ctx(), 4096);
    assert_eq!(action, NativeAction::Keep);
    let (result, action) = Context::new("w.bin", dtw_params(), LoadReturn::Loaded(model()), 1);
    assert!(result.is_ok());
    assert_eq!(action, NativeAction::Keep);
}

#[test]
fn failed_loads_carry_the_exception_sentinel() {
    let (result, action) =
        Context::new("x.bin", ContextParams::new(), LoadReturn::Null { exception: -100 }, 1);
    match result {
        Err(WhisperError::ContextLoad { path, reason, code }) => {
            assert_eq!(path, SmolStr::new("x.bin"));
            assert!(reason.contains("caught C++ exception"));
            assert_eq!(code, Some(-100));
        }
        r => panic!("{:?}", r),
    }
    assert_eq!(action, NativeAction::Gone);
    let (result, _) =
        Context::new("x.bin", ContextParams::new(), LoadReturn::Null { exception: 0 }, 1);
    match result {
        Err(WhisperError::ContextLoad { reason, code, .. }) => {
            assert!(reason.contains("returned NULL"));
            assert_eq!(code, None);
        }
        r => panic!("{:?}", r),
    }
}

#[test]
fn a_context_tells_what_the_model_says() {
    let ctx = context();
    assert!(ctx.is_multilingual());
    assert_eq!(ctx.n_vocab(), 5);
    assert_eq!(ctx.n_audio_ctx(), 1500);
    assert_eq!(ctx.n_text_ctx(), 448);
    assert_eq!(ctx.model_type(), Some("tiny"));
    assert_eq!(ctx.token_eot(), 50257);
    assert_eq!(ctx.token_sot(), 50258);
    assert_eq!(ctx.token_beg(), 50364);
    assert_eq!(ctx.token_translate(), 50358);
    assert_eq!(ctx.token_transcribe(), 50359);
    assert_eq!(ctx.token_prev(), 50361);
    assert_eq!(ctx.token_nosp(), 50362);
    assert_eq!(ctx.token_not(), 50363);
    assert_eq!(ctx.token_solm(), 50360);
    let dims = ctx.model_dims();
    assert_eq!(dims, model().dims);
}

#[test]
fn a_model_type_that_is_missing_or_not_utf8_reads_as_none() {
    for raw in [None, Some(&[0xFFu8][..])] {
        let mut m = model();
        m.model_type = raw;
        let (result, _) = Context::new("m", ContextParams::new(), LoadReturn::Loaded(m), 1);
        assert_eq!(result.ok().unwrap().model_type(), None);
    }
}

#[test]
fn tokens_are_looked_up_in_the_vocabulary() {
    let ctx = context();
    assert_eq!(ctx.token_to_str(0), Some("!"));
    assert_eq!(ctx.token_to_bytes(0), Some(&b"!"[..]));
    assert_eq!(ctx.token_to_str(3), Some("né"));
    assert_eq!(ctx.token_to_bytes(1), None);
    assert_eq!(ctx.token_to_str(1), None);
    assert_eq!(ctx.token_to_bytes(2), Some(&[0xE2u8, 0x82][..]));
    assert_eq!(ctx.token_to_str(2), None);
    assert_eq!(ctx.token_to_bytes(4), None, "inside n_vocab, beyond the loaded entries");
    assert_eq!(ctx.token_to_bytes(5), None);
    assert_eq!(ctx.token_to_bytes(-1), None);
    assert_eq!(ctx.token_to_str(i32::MIN), None);
    assert_eq!(ctx.token_to_str(i32::MAX), None);
}

#[test]
fn entries_beyond_n_vocab_are_not_handed_out() {
    let mut m = model();
    m.n_vocab = 1;
    let (result, _) = Context::new("m", ContextParams::new(), LoadReturn::Loaded(m), 1);
    let ctx = result.ok().unwrap();
    assert_eq!(ctx.token_to_str(0), Some("!"));
    assert_eq!(ctx.token_to_str(3), None);
}

#[test]
fn language_tokens_stay_among_the_language_tokens() {
    let ctx = context();
    assert_eq!(ctx.token_for_lang(&Lang::En, 0), Some(50259));
    assert_eq!(ctx.token_for_lang(&Lang::Su, 98), Some(50357));
    assert_eq!(ctx.token_for_lang(&Lang::Yue, 99), None, "would be <|translate|>");
    assert_eq!(ctx.token_for_lang(&Lang::Other(SmolStr::new("xx")), -1), None);
    assert_eq!(ctx.token_for_lang(&Lang::Other(SmolStr::new("e\0n")), 0), None);
    assert_eq!(ctx.token_for_lang(&Lang::En, i32::MAX), None);
    let mut m = model();
    m.multilingual = 0;
    let (result, _) = Context::new("m", ContextParams::new(), LoadReturn::Loaded(m), 1);
    assert_eq!(result.ok().unwrap().token_for_lang(&Lang::En, 0), None);
}

#[test]
fn version_returns_some_string_for_healthy_build() {
    let v = version(Some(b"1.8.4")).expect("whisper_version returned NULL or non-UTF-8");
    assert!(!v.is_empty(), "whisper_version returned empty string");
    assert!(
        v.bytes().any(|b| b.is_ascii_digit()),
        "version {v:?} contains no digits — looks corrupt"
    );
    assert_eq!(v, "1.8.4");
}

#[test]
fn native_texts_that_are_missing_or_not_utf8_read_as_none() {
    assert_eq!(version(None), None);
    assert_eq!(version(Some(&[0xC0])), None);
    assert_eq!(system_info(&mut InfoCache::new(), None), None);
    assert_eq!(system_info(&mut InfoCache::new(), Some(&[0xC0])), None);
    assert_eq!(
        system_info(&mut InfoCache::new(), Some(b"AVX = 1 | METAL = 0 |")),
        Some(SmolStr::new("AVX = 1 | METAL = 0 |"))
    );
}

#[test]
fn the_native_description_is_asked_for_once() {
    let mut cache = InfoCache::new();
    assert!(cache.owes_call());
    assert_eq!(system_info(&mut cache, Some(b"first")), Some(SmolStr::new("first")));
    assert!(!cache.owes_call());
    assert_eq!(system_info(&mut cache, Some(b"second")), Some(SmolStr::new("first")));
    assert_eq!(system_info(&mut cache, None), Some(SmolStr::new("first")));
    let mut cache = InfoCache::new();
    assert_eq!(system_info(&mut cache, None), None);
    assert!(!cache.owes_call());
    assert_eq!(system_info(&mut cache, Some(b"late")), None);
}

fn native_tokenize(tokens: &[i32], out: &mut [i32]) -> i32 {
    if tokens.len() <= out.len() {
        out[..tokens.len()].copy_from_slice(tokens);
        tokens.len() as i32
    } else {
        -(tokens.len() as i32)
    }
}

#[test]
fn a_single_token_is_found_where_the_text_has_just_that_one() {
    for n in [0, 1, 2, 100, 256, 257, 1000] {
        let tokens: Vec<i32> = (0..n).map(|i| i + 40).collect();
        let mut call = context().tokenize("text").unwrap();
        let found = loop {
            let written = native_tokenize(&tokens, call.out.as_mut_slice());
            match call.complete(written) {
                TokenizeStep::Done(found) => break found,
                TokenizeStep::Retry(next) => call = next,
            }
        };
        assert_eq!(found, Some(tokens.clone()));
        let mut call = context().tokenize_one("text").unwrap();
        let written = native_tokenize(&tokens, &mut call.out);
        assert_eq!(call.complete(written), if n == 1 { Some(40) } else { None });
    }
}

fn done(step: TokenizeStep) -> Option<Vec<i32>> {
    match step {
        TokenizeStep::Done(r) => r,
        TokenizeStep::Retry(_) => panic!("expected the end"),
    }
}

#[test]
fn tokenising_starts_with_room_for_256_tokens() {
    let call = context().tokenize("héllo").unwrap();
    assert_eq!(call.input.as_bytes_with_nul(), "héllo\0".as_bytes());
    assert_eq!(call.out.as_slice(), [0; 256]);
    assert_eq!(call.out.asked_for(), 256);
    assert!(!call.retried);
}

#[test]
fn a_text_with_a_nul_is_not_tokenised() {
    assert!(context().tokenize("a\0b").is_none());
    assert!(context().tokenize_one("a\0b").is_none());
    assert!(first_call("a\0b", with_room(10), with_room(256)).is_none());
    assert!(single_call("\0", with_room(10)).is_none());
}

#[test]
fn refused_memory_ends_tokenising() {
    assert!(first_call("a", None, with_room(256)).is_none());
    assert!(first_call("a", with_room(2), None).is_none());
    assert!(single_call("a", None).is_none());
    let call = first_call("a", with_room(2), with_room(256)).unwrap();
    assert_eq!(done(call.follow(-500, None)), None);
}

#[test]
fn memory_asked_for_in_too_small_an_amount_ends_tokenising() {
    assert!(first_call("é", with_room(2), with_room(256)).is_none());
    assert!(first_call("é", with_room(3), with_room(255)).is_none());
    assert!(first_call("é", with_room(3), with_room(256)).is_some());
    assert!(single_call("é", with_room(2)).is_none());
    assert!(single_call("é", with_room(3)).is_some());
    let call = context().tokenize("a").unwrap();
    assert_eq!(done(call.follow(-500, with_room(499))), None);
    let call = context().tokenize("a").unwrap();
    assert_eq!(retried(call.follow(-500, with_room(500))).out.as_slice(), [0; 500]);
}

#[test]
fn tokens_that_fit_are_taken() {
    let mut call = context().tokenize("abc").unwrap();
    call.out.as_mut_slice()[0] = 7;
    call.out.as_mut_slice()[1] = 8;
    call.out.as_mut_slice()[2] = 9;
    assert_eq!(done(call.complete(3)), Some(vec![7, 8, 9]));
    assert_eq!(done(context().tokenize("").unwrap().complete(0)), Some(vec![]));
}

#[test]
fn an_exception_or_a_count_beyond_the_room_gives_none() {
    assert_eq!(done(context().tokenize("a").unwrap().complete(i32::MIN)), None);
    assert_eq!(done(context().tokenize("a").unwrap().complete(257)), None);
    assert_eq!(done(context().tokenize("a").unwrap().complete(i32::MAX)), None);
}

fn retried(step: TokenizeStep) -> TokenizeCall {
    match step {
        TokenizeStep::Retry(call) => call,
        TokenizeStep::Done(_) => panic!("expected another call"),
    }
}

#[test]
fn a_buffer_that_is_too_small_is_enlarged_once() {
    let mut second = retried(context().tokenize("long").unwrap().complete(-300));
    assert_eq!(second.out.as_slice(), [0; 300]);
    assert_eq!(second.out.asked_for(), 300);
    assert_eq!(second.input.as_str(), "long");
    assert!(second.retried);
    second.out.as_mut_slice()[299] = 5;
    let tokens = done(second.complete(300)).unwrap();
    assert_eq!(tokens.len(), 300);
    assert_eq!(tokens[299], 5);
    let second = retried(context().tokenize("long").unwrap().complete(-300));
    assert_eq!(done(second.complete(-301)), None);
    let second = retried(context().tokenize("long").unwrap().complete(-300));
    assert_eq!(done(second.complete(i32::MIN)), None);
}

#[test]
fn a_second_attempt_takes_the_places_that_are_needed() {
    let call = context().tokenize("t").unwrap();
    assert_eq!(call.room_needed(-300), Some(300));
    assert_eq!(call.room_needed(-i32::MAX), Some(i32::MAX as usize));
    assert_eq!(call.room_needed(i32::MIN), None);
    assert_eq!(call.room_needed(0), None);
    assert_eq!(call.room_needed(12), None);
    let second = retried(call.complete(-300));
    assert_eq!(second.room_needed(-301), None);
}

#[test]
fn counts_that_look_like_sentinels_are_counts() {
    for needed in 257..=403 {
        let second = retried(context().tokenize("t").unwrap().complete(-needed));
        assert_eq!(second.out.as_slice().len(), needed as usize);
    }
}

#[test]
fn a_single_token_is_taken_only_where_there_is_exactly_one() {
    let mut call = context().tokenize_one("<|en|>").unwrap();
    assert_eq!(call.input.as_bytes_with_nul(), b"<|en|>\0");
    assert_eq!(call.out, [0]);
    call.out[0] = 50259;
    assert_eq!(call.complete(1), Some(50259));
    for written in [0, -2, i32::MIN, 2] {
        let mut call = context().tokenize_one("x").unwrap();
        call.out[0] = 1;
        assert_eq!(call.complete(written), None);
    }
}

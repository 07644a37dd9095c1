use whispercpp::context::{
    alignment_head_count, clamp_dtw_mem_size, required_dtw_mem_size_for, AlignmentHeadsPreset,
    ContextParams, DEFAULT_DTW_MEM_SIZE, MAX_DTW_MEM_SIZE, MIN_DTW_MEM_SIZE,
    SUPPORTED_DTW_N_TEXT_CTX,
};

const ALL_PRESETS: [AlignmentHeadsPreset; 13] = [
    AlignmentHeadsPreset::Off,
    AlignmentHeadsPreset::TinyEn,
    AlignmentHeadsPreset::Tiny,
    AlignmentHeadsPreset::BaseEn,
    AlignmentHeadsPreset::Base,
    AlignmentHeadsPreset::SmallEn,
    AlignmentHeadsPreset::Small,
    AlignmentHeadsPreset::MediumEn,
    AlignmentHeadsPreset::Medium,
    AlignmentHeadsPreset::LargeV1,
    AlignmentHeadsPreset::LargeV2,
    AlignmentHeadsPreset::LargeV3,
    AlignmentHeadsPreset::LargeV3Turbo,
];

#[test]
fn default_context_params_have_dtw_off_and_default_mem_budget() {
    let p = ContextParams::new();
    assert!(!p.dtw_token_timestamps());
    assert_eq!(p.dtw_aheads_preset(), AlignmentHeadsPreset::Off);
    assert_eq!(p.dtw_mem_size(), DEFAULT_DTW_MEM_SIZE);
    assert_eq!(DEFAULT_DTW_MEM_SIZE, 128 * 1024 * 1024);
}

#[test]
fn default_and_new_agree_on_the_rest() {
    let p = ContextParams::default();
    assert!(p.use_gpu());
    assert_eq!(p.gpu_device(), 0);
    assert!(!p.flash_attn());
    assert!(!p.dtw_token_timestamps());
    assert_eq!(p.dtw_aheads_preset(), AlignmentHeadsPreset::Off);
    assert_eq!(p.dtw_mem_size(), DEFAULT_DTW_MEM_SIZE);
}

#[test]
fn plain_setters_change_their_own_field() {
    let p = ContextParams::new().with_gpu_device(3).with_flash_attn(true);
    assert_eq!(p.gpu_device(), 3);
    assert!(p.flash_attn());
    assert!(p.use_gpu());
}

#[test]
fn context_params_chained_dtw_setters_compose() {
    let custom_mem = MIN_DTW_MEM_SIZE * 2;
    let p = ContextParams::new()
        .with_use_gpu(false)
        .with_dtw_token_timestamps(true)
        .with_dtw_aheads_preset(AlignmentHeadsPreset::LargeV3Turbo)
        .with_dtw_mem_size(custom_mem);
    assert!(!p.use_gpu());
    assert!(p.dtw_token_timestamps());
    assert_eq!(p.dtw_aheads_preset(), AlignmentHeadsPreset::LargeV3Turbo);
    assert_eq!(p.dtw_mem_size(), custom_mem);
}

#[test]
fn clamp_dtw_mem_size_pins_invariants() {
    assert_eq!(clamp_dtw_mem_size(0), MIN_DTW_MEM_SIZE);
    assert_eq!(clamp_dtw_mem_size(1), MIN_DTW_MEM_SIZE);
    assert_eq!(clamp_dtw_mem_size(1024), MIN_DTW_MEM_SIZE);
    assert_eq!(clamp_dtw_mem_size(MIN_DTW_MEM_SIZE - 1), MIN_DTW_MEM_SIZE);
    assert_eq!(clamp_dtw_mem_size(MIN_DTW_MEM_SIZE), MIN_DTW_MEM_SIZE);
    assert_eq!(clamp_dtw_mem_size(MIN_DTW_MEM_SIZE + 1), MIN_DTW_MEM_SIZE + 1);
    assert_eq!(
        clamp_dtw_mem_size(256 * 1024 * 1024),
        256 * 1024 * 1024,
        "256 MiB sits between MIN ({MIN_DTW_MEM_SIZE}) and MAX ({MAX_DTW_MEM_SIZE})",
    );
    assert_eq!(clamp_dtw_mem_size(MAX_DTW_MEM_SIZE), MAX_DTW_MEM_SIZE);
    assert_eq!(clamp_dtw_mem_size(MAX_DTW_MEM_SIZE - 1), MAX_DTW_MEM_SIZE - 1);
    assert_eq!(clamp_dtw_mem_size(MAX_DTW_MEM_SIZE + 1), MAX_DTW_MEM_SIZE);
    assert_eq!(clamp_dtw_mem_size(usize::MAX), MAX_DTW_MEM_SIZE);
    assert!(MIN_DTW_MEM_SIZE <= MAX_DTW_MEM_SIZE);
    assert_eq!(MIN_DTW_MEM_SIZE, DEFAULT_DTW_MEM_SIZE);
}

#[test]
fn max_dtw_mem_size_follows_the_pointer_width() {
    if usize::BITS == 64 {
        assert_eq!(MAX_DTW_MEM_SIZE as u64, 4 * 1024 * 1024 * 1024);
    } else {
        assert_eq!(MAX_DTW_MEM_SIZE as u64, 1024 * 1024 * 1024);
    }
}

#[test]
fn with_dtw_mem_size_clamps_zero_and_usize_max() {
    let p = ContextParams::new().with_dtw_mem_size(0);
    assert_eq!(
        p.dtw_mem_size(),
        MIN_DTW_MEM_SIZE,
        "0 → MIN (defends against ggml_init NULL on zero arena)",
    );
    let p = ContextParams::new().with_dtw_mem_size(usize::MAX);
    assert_eq!(
        p.dtw_mem_size(),
        MAX_DTW_MEM_SIZE,
        "usize::MAX → MAX (defends against ggml_init internal arena math overflow)",
    );
    let p = ContextParams::new().with_dtw_mem_size(MIN_DTW_MEM_SIZE * 2);
    assert_eq!(p.dtw_mem_size(), MIN_DTW_MEM_SIZE * 2);
}

#[test]
fn supported_dtw_n_text_ctx_pins_to_standard_whisper_value() {
    assert_eq!(
        SUPPORTED_DTW_N_TEXT_CTX, 448,
        "Standard whisper checkpoints all use n_text_ctx = 448. \
         If you changed this, also re-derive the DTW scratch budget \
         and update the byte-count pins in \
         `required_dtw_mem_size_pins_per_preset_minimums`.",
    );
}

#[test]
fn alignment_head_count_matches_whisper_cpp_tables() {
    assert_eq!(alignment_head_count(AlignmentHeadsPreset::Off), 0);
    assert_eq!(alignment_head_count(AlignmentHeadsPreset::TinyEn), 8);
    assert_eq!(alignment_head_count(AlignmentHeadsPreset::Tiny), 6);
    assert_eq!(alignment_head_count(AlignmentHeadsPreset::BaseEn), 5);
    assert_eq!(alignment_head_count(AlignmentHeadsPreset::Base), 8);
    assert_eq!(alignment_head_count(AlignmentHeadsPreset::SmallEn), 19);
    assert_eq!(alignment_head_count(AlignmentHeadsPreset::Small), 10);
    assert_eq!(alignment_head_count(AlignmentHeadsPreset::MediumEn), 18);
    assert_eq!(alignment_head_count(AlignmentHeadsPreset::Medium), 6);
    assert_eq!(alignment_head_count(AlignmentHeadsPreset::LargeV1), 9);
    assert_eq!(alignment_head_count(AlignmentHeadsPreset::LargeV2), 23);
    assert_eq!(alignment_head_count(AlignmentHeadsPreset::LargeV3), 10);
    assert_eq!(alignment_head_count(AlignmentHeadsPreset::LargeV3Turbo), 6);
}

#[test]
fn required_dtw_mem_size_pins_per_preset_minimums() {
    assert_eq!(required_dtw_mem_size_for(AlignmentHeadsPreset::Off), 0);
    for preset in [
        AlignmentHeadsPreset::TinyEn,
        AlignmentHeadsPreset::Tiny,
        AlignmentHeadsPreset::BaseEn,
        AlignmentHeadsPreset::Base,
        AlignmentHeadsPreset::Small,
        AlignmentHeadsPreset::Medium,
        AlignmentHeadsPreset::LargeV1,
        AlignmentHeadsPreset::LargeV3,
        AlignmentHeadsPreset::LargeV3Turbo,
    ] {
        let req = required_dtw_mem_size_for(preset);
        assert!(
            req >= MIN_DTW_MEM_SIZE,
            "{:?} requires {} bytes; must be ≥ MIN_DTW_MEM_SIZE ({})",
            preset,
            req,
            MIN_DTW_MEM_SIZE,
        );
        assert!(
            req <= MAX_DTW_MEM_SIZE,
            "{:?} requires {} bytes; must be ≤ MAX_DTW_MEM_SIZE ({})",
            preset,
            req,
            MAX_DTW_MEM_SIZE,
        );
    }
    for preset in [
        AlignmentHeadsPreset::SmallEn,
        AlignmentHeadsPreset::MediumEn,
        AlignmentHeadsPreset::LargeV2,
    ] {
        let req = required_dtw_mem_size_for(preset);
        assert!(
            req > MIN_DTW_MEM_SIZE,
            "{:?} requires only {} bytes — must exceed MIN_DTW_MEM_SIZE ({})",
            preset,
            req,
            MIN_DTW_MEM_SIZE,
        );
    }
    assert_eq!(required_dtw_mem_size_for(AlignmentHeadsPreset::LargeV2), 278_208_000);
    assert_eq!(required_dtw_mem_size_for(AlignmentHeadsPreset::SmallEn), 229_824_000);
    assert_eq!(required_dtw_mem_size_for(AlignmentHeadsPreset::MediumEn), 217_728_000);
}

#[test]
fn every_preset_gets_room_for_three_tensors() {
    for preset in ALL_PRESETS {
        let tensor = 448 * 1500 * alignment_head_count(preset) * 4;
        assert!(required_dtw_mem_size_for(preset) >= 3 * tensor);
    }
}

#[test]
fn alignment_heads_preset_maps_to_distinct_raw_values() {
    let raws: Vec<u32> = ALL_PRESETS.iter().map(|p| p.to_raw()).collect();
    let mut sorted = raws.clone();
    sorted.sort();
    sorted.dedup();
    assert_eq!(
        sorted.len(),
        ALL_PRESETS.len(),
        "AlignmentHeadsPreset → raw mapping must be injective: got {:?}",
        raws,
    );
    assert_eq!(raws, vec![0, 3, 4, 5, 6, 7, 8, 9, 10, 11, 12, 13, 14]);
}

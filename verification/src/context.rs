//! `Context`: the loaded model, and how it is loaded.

use crate::error::{fails_with, ErrorView, WhisperError, WhisperResult};
use crate::lang::{id_of_name, lang_id_for, Lang};
use crate::text::{
    bytes_have_nul, bytes_view, has_nul, native_text, smol_chars, smol_new, smol_static, str_view,
    utf8_or_none, NativeString,
};
use smol_str::SmolStr;
use std::sync::Arc;
use vstd::prelude::*;

verus! {

/// Default working memory of the alignment pass: 128 MiB.
pub const DEFAULT_DTW_MEM_SIZE: usize = 128 * 1024 * 1024;

/// The least working memory that [`ContextParams::with_dtw_mem_size`] accepts.
/// With less, the native allocator fails in ways that end the process.
pub const MIN_DTW_MEM_SIZE: usize = DEFAULT_DTW_MEM_SIZE;

/// The most working memory that [`ContextParams::with_dtw_mem_size`] accepts:
/// 4 GiB where addresses have 64 bits, and 1 GiB where they have fewer. The
/// native allocator adds to the size, so it must stay clear of the largest
/// representable one.
pub const MAX_DTW_MEM_SIZE: usize = 1073741824 + 3221225472 * (usize::BITS / 64) as usize;

/// The longest text context that the alignment pass has memory for. Every
/// standard model has exactly this one.
pub const SUPPORTED_DTW_N_TEXT_CTX: i32 = 448;

/// The most audio positions that the alignment pass looks at: half the frames of
/// a chunk of 30 seconds.
pub const MAX_AUDIO_TOKENS: usize = 1500;

/// `n`, moved into the range from `lo` to `hi`.
pub open spec fn clamped(n: int, lo: int, hi: int) -> int {
    if n < lo {
        lo
    } else if n > hi {
        hi
    } else {
        n
    }
}

/// Moves a memory size into the accepted range.
pub fn clamp_dtw_mem_size(n: usize) -> (r: usize)
    ensures
        r == clamped(n as int, MIN_DTW_MEM_SIZE as int, MAX_DTW_MEM_SIZE as int),
{
    if n < MIN_DTW_MEM_SIZE {
        MIN_DTW_MEM_SIZE
    } else if n > MAX_DTW_MEM_SIZE {
        MAX_DTW_MEM_SIZE
    } else {
        n
    }
}

/// Which attention heads the alignment pass reads. Each standard model has its
/// own set; the preset must match the model.
#[derive(Debug, Clone, Copy, PartialEq, Eq, Structural)]
pub enum AlignmentHeadsPreset {
    /// No heads: switches the pass off.
    Off,
    /// `tiny.en`
    TinyEn,
    /// `tiny`
    Tiny,
    /// `base.en`
    BaseEn,
    /// `base`
    Base,
    /// `small.en`
    SmallEn,
    /// `small`
    Small,
    /// `medium.en`
    MediumEn,
    /// `medium`
    Medium,
    /// `large-v1`
    LargeV1,
    /// `large-v2`
    LargeV2,
    /// `large-v3`
    LargeV3,
    /// `large-v3-turbo`
    LargeV3Turbo,
}

impl AlignmentHeadsPreset {
    /// How many heads the preset reads.
    pub open spec fn heads(self) -> nat {
        match self {
            AlignmentHeadsPreset::Off => 0,
            AlignmentHeadsPreset::TinyEn => 8,
            AlignmentHeadsPreset::Tiny => 6,
            AlignmentHeadsPreset::BaseEn => 5,
            AlignmentHeadsPreset::Base => 8,
            AlignmentHeadsPreset::SmallEn => 19,
            AlignmentHeadsPreset::Small => 10,
            AlignmentHeadsPreset::MediumEn => 18,
            AlignmentHeadsPreset::Medium => 6,
            AlignmentHeadsPreset::LargeV1 => 9,
            AlignmentHeadsPreset::LargeV2 => 23,
            AlignmentHeadsPreset::LargeV3 => 10,
            AlignmentHeadsPreset::LargeV3Turbo => 6,
        }
    }

    /// The native number of the preset. Numbers 1 and 2 are the two native
    /// presets whose head count has no bound, which have no counterpart here.
    pub open spec fn number(self) -> u32 {
        match self {
            AlignmentHeadsPreset::Off => 0,
            AlignmentHeadsPreset::TinyEn => 3,
            AlignmentHeadsPreset::Tiny => 4,
            AlignmentHeadsPreset::BaseEn => 5,
            AlignmentHeadsPreset::Base => 6,
            AlignmentHeadsPreset::SmallEn => 7,
            AlignmentHeadsPreset::Small => 8,
            AlignmentHeadsPreset::MediumEn => 9,
            AlignmentHeadsPreset::Medium => 10,
            AlignmentHeadsPreset::LargeV1 => 11,
            AlignmentHeadsPreset::LargeV2 => 12,
            AlignmentHeadsPreset::LargeV3 => 13,
            AlignmentHeadsPreset::LargeV3Turbo => 14,
        }
    }

    /// The native number of the preset.
    pub fn to_raw(self) -> (r: u32)
        ensures
            r == self.number(),
    {
        match self {
            AlignmentHeadsPreset::Off => 0,
            AlignmentHeadsPreset::TinyEn => 3,
            AlignmentHeadsPreset::Tiny => 4,
            AlignmentHeadsPreset::BaseEn => 5,
            AlignmentHeadsPreset::Base => 6,
            AlignmentHeadsPreset::SmallEn => 7,
            AlignmentHeadsPreset::Small => 8,
            AlignmentHeadsPreset::MediumEn => 9,
            AlignmentHeadsPreset::Medium => 10,
            AlignmentHeadsPreset::LargeV1 => 11,
            AlignmentHeadsPreset::LargeV2 => 12,
            AlignmentHeadsPreset::LargeV3 => 13,
            AlignmentHeadsPreset::LargeV3Turbo => 14,
        }
    }
}

/// How many heads a preset reads.
pub fn alignment_head_count(preset: AlignmentHeadsPreset) -> (r: usize)
    ensures
        r == preset.heads(),
{
    match preset {
        AlignmentHeadsPreset::Off => 0,
        AlignmentHeadsPreset::TinyEn => 8,
        AlignmentHeadsPreset::Tiny => 6,
        AlignmentHeadsPreset::BaseEn => 5,
        AlignmentHeadsPreset::Base => 8,
        AlignmentHeadsPreset::SmallEn => 19,
        AlignmentHeadsPreset::Small => 10,
        AlignmentHeadsPreset::MediumEn => 18,
        AlignmentHeadsPreset::Medium => 6,
        AlignmentHeadsPreset::LargeV1 => 9,
        AlignmentHeadsPreset::LargeV2 => 23,
        AlignmentHeadsPreset::LargeV3 => 10,
        AlignmentHeadsPreset::LargeV3Turbo => 6,
    }
}

/// The size of one working tensor of the alignment pass, at its largest: four
/// bytes for each text position, audio position and head.
pub open spec fn dtw_tensor_bytes(preset: AlignmentHeadsPreset) -> int {
    SUPPORTED_DTW_N_TEXT_CTX * 1500 * preset.heads() * 4
}

/// The memory that the alignment pass needs with a preset: none without heads;
/// otherwise room for three tensors and half as much again, moved into the
/// accepted range.
pub open spec fn dtw_bytes_needed(preset: AlignmentHeadsPreset) -> int {
    if preset.heads() == 0 {
        0
    } else {
        clamped(
            3 * dtw_tensor_bytes(preset) * 3 / 2,
            MIN_DTW_MEM_SIZE as int,
            MAX_DTW_MEM_SIZE as int,
        )
    }
}

/// The memory that the alignment pass needs with a preset.
pub fn required_dtw_mem_size_for(preset: AlignmentHeadsPreset) -> (r: usize)
    ensures
        r == dtw_bytes_needed(preset),
{
    let n_heads = alignment_head_count(preset);
    if n_heads == 0 {
        return 0;
    }
    let positions: usize = (SUPPORTED_DTW_N_TEXT_CTX as usize) * MAX_AUDIO_TOKENS;
    assert(positions * n_heads == 672_000 * n_heads && n_heads <= 23) by (nonlinear_arith)
        requires
            positions == 672_000,
            n_heads <= 23,
    ;
    let per_tensor: usize = positions * n_heads * 4;
    let with_safety: usize = (per_tensor * 3) * 3 / 2;
    clamp_dtw_mem_size(with_safety)
}

/// What to load a model with.
#[derive(Debug, Clone, Copy)]
pub struct ContextParams {
    use_gpu: bool,
    gpu_device: i32,
    flash_attn: bool,
    dtw_token_timestamps: bool,
    dtw_aheads_preset: AlignmentHeadsPreset,
    dtw_mem_size: usize,
}

/// The settings that a [`ContextParams`] holds.
pub struct ContextParamsView {
    /// Whether to run on a GPU.
    pub use_gpu: bool,
    /// Which GPU to run on.
    pub gpu_device: i32,
    /// Whether to use flash attention.
    pub flash_attn: bool,
    /// Whether timestamps by alignment are asked for.
    pub dtw_token_timestamps: bool,
    /// Which heads the alignment pass reads.
    pub dtw_aheads_preset: AlignmentHeadsPreset,
    /// The working memory of the alignment pass.
    pub dtw_mem_size: usize,
}

impl View for ContextParams {
    type V = ContextParamsView;

    closed spec fn view(&self) -> ContextParamsView {
        ContextParamsView {
            use_gpu: self.use_gpu,
            gpu_device: self.gpu_device,
            flash_attn: self.flash_attn,
            dtw_token_timestamps: self.dtw_token_timestamps,
            dtw_aheads_preset: self.dtw_aheads_preset,
            dtw_mem_size: self.dtw_mem_size,
        }
    }
}

impl ContextParamsView {
    /// Whether the alignment pass runs: it is asked for, and there are heads to
    /// read.
    pub open spec fn dtw_on(self) -> bool {
        self.dtw_token_timestamps && self.dtw_aheads_preset != AlignmentHeadsPreset::Off
    }

    /// The working memory that the alignment pass gets: what was configured, and
    /// where the pass runs at least what its preset needs.
    pub open spec fn dtw_arena(self) -> int {
        let configured = clamped(
            self.dtw_mem_size as int,
            MIN_DTW_MEM_SIZE as int,
            MAX_DTW_MEM_SIZE as int,
        );
        if self.dtw_on() && configured < dtw_bytes_needed(self.dtw_aheads_preset) {
            dtw_bytes_needed(self.dtw_aheads_preset)
        } else {
            configured
        }
    }
}

impl ContextParams {
    /// The configured memory size is always in the accepted range.
    #[verifier::type_invariant]
    spec fn mem_size_in_range(self) -> bool {
        MIN_DTW_MEM_SIZE <= self.dtw_mem_size <= MAX_DTW_MEM_SIZE
    }

    /// The defaults: on the first GPU, without flash attention, without the
    /// alignment pass.
    pub fn new() -> (r: Self)
        ensures
            r@ == (ContextParamsView {
                use_gpu: true,
                gpu_device: 0,
                flash_attn: false,
                dtw_token_timestamps: false,
                dtw_aheads_preset: AlignmentHeadsPreset::Off,
                dtw_mem_size: DEFAULT_DTW_MEM_SIZE,
            }),
    {
        ContextParams {
            use_gpu: true,
            gpu_device: 0,
            flash_attn: false,
            dtw_token_timestamps: false,
            dtw_aheads_preset: AlignmentHeadsPreset::Off,
            dtw_mem_size: DEFAULT_DTW_MEM_SIZE,
        }
    }

    /// Whether to run on a GPU.
    pub fn use_gpu(&self) -> (r: bool)
        ensures
            r == self@.use_gpu,
    {
        self.use_gpu
    }

    /// Sets [`ContextParams::use_gpu`].
    pub fn with_use_gpu(self, on: bool) -> (r: Self)
        ensures
            r@ == (ContextParamsView { use_gpu: on, ..self@ }),
    {
        proof {
            use_type_invariant(&self);
        }
        ContextParams { use_gpu: on, ..self }
    }

    /// Which GPU to run on.
    pub fn gpu_device(&self) -> (r: i32)
        ensures
            r == self@.gpu_device,
    {
        self.gpu_device
    }

    /// Sets [`ContextParams::gpu_device`].
    pub fn with_gpu_device(self, idx: i32) -> (r: Self)
        ensures
            r@ == (ContextParamsView { gpu_device: idx, ..self@ }),
    {
        proof {
            use_type_invariant(&self);
        }
        ContextParams { gpu_device: idx, ..self }
    }

    /// Whether to use flash attention.
    pub fn flash_attn(&self) -> (r: bool)
        ensures
            r == self@.flash_attn,
    {
        self.flash_attn
    }

    /// Sets [`ContextParams::flash_attn`].
    pub fn with_flash_attn(self, on: bool) -> (r: Self)
        ensures
            r@ == (ContextParamsView { flash_attn: on, ..self@ }),
    {
        proof {
            use_type_invariant(&self);
        }
        ContextParams { flash_attn: on, ..self }
    }

    /// Whether timestamps by alignment are asked for. They are computed only
    /// with a preset other than [`AlignmentHeadsPreset::Off`].
    pub fn dtw_token_timestamps(&self) -> (r: bool)
        ensures
            r == self@.dtw_token_timestamps,
    {
        self.dtw_token_timestamps
    }

    /// Sets [`ContextParams::dtw_token_timestamps`].
    pub fn with_dtw_token_timestamps(self, on: bool) -> (r: Self)
        ensures
            r@ == (ContextParamsView { dtw_token_timestamps: on, ..self@ }),
    {
        proof {
            use_type_invariant(&self);
        }
        ContextParams { dtw_token_timestamps: on, ..self }
    }

    /// Which heads the alignment pass reads.
    pub fn dtw_aheads_preset(&self) -> (r: AlignmentHeadsPreset)
        ensures
            r == self@.dtw_aheads_preset,
    {
        self.dtw_aheads_preset
    }

    /// Sets [`ContextParams::dtw_aheads_preset`].
    pub fn with_dtw_aheads_preset(self, preset: AlignmentHeadsPreset) -> (r: Self)
        ensures
            r@ == (ContextParamsView { dtw_aheads_preset: preset, ..self@ }),
    {
        proof {
            use_type_invariant(&self);
        }
        ContextParams { dtw_aheads_preset: preset, ..self }
    }

    /// The working memory of the alignment pass, in bytes.
    pub fn dtw_mem_size(&self) -> (r: usize)
        ensures
            r == self@.dtw_mem_size,
            MIN_DTW_MEM_SIZE <= r <= MAX_DTW_MEM_SIZE,
    {
        proof {
            use_type_invariant(self);
        }
        self.dtw_mem_size
    }

    /// Sets [`ContextParams::dtw_mem_size`], moved into the accepted range.
    pub fn with_dtw_mem_size(self, n: usize) -> (r: Self)
        ensures
            r@ == (ContextParamsView {
                dtw_mem_size: clamped(
                    n as int,
                    MIN_DTW_MEM_SIZE as int,
                    MAX_DTW_MEM_SIZE as int,
                ) as usize,
                ..self@
            }),
    {
        let dtw_mem_size = clamp_dtw_mem_size(n);
        ContextParams { dtw_mem_size, ..self }
    }
}

impl Default for ContextParams {
    fn default() -> (r: Self)
        ensures
            r@ == (ContextParamsView {
                use_gpu: true,
                gpu_device: 0,
                flash_attn: false,
                dtw_token_timestamps: false,
                dtw_aheads_preset: AlignmentHeadsPreset::Off,
                dtw_mem_size: DEFAULT_DTW_MEM_SIZE,
            }),
    {
        ContextParams::new()
    }
}

/// Different presets have different native numbers, none of which is that of a
/// preset without a bound on its heads.
pub proof fn law_preset_numbers_are_distinct(a: AlignmentHeadsPreset, b: AlignmentHeadsPreset)
    ensures
        a.number() == b.number() ==> a == b,
        a.number() != 1 && a.number() != 2,
{
}

/// What a preset needs is nothing or in the accepted range, and holds three
/// working tensors.
pub proof fn law_dtw_bytes_needed(preset: AlignmentHeadsPreset)
    ensures
        preset == AlignmentHeadsPreset::Off ==> dtw_bytes_needed(preset) == 0,
        preset != AlignmentHeadsPreset::Off ==> MIN_DTW_MEM_SIZE <= dtw_bytes_needed(preset)
            <= MAX_DTW_MEM_SIZE,
        dtw_bytes_needed(preset) >= 3 * dtw_tensor_bytes(preset),
{
}

/// The memory that the alignment pass gets is in the accepted range, never less
/// than what was configured in that range, and holds what its preset needs.
pub proof fn law_dtw_arena_suffices(p: ContextParamsView)
    ensures
        MIN_DTW_MEM_SIZE <= p.dtw_arena() <= MAX_DTW_MEM_SIZE,
        p.dtw_on() ==> p.dtw_arena() >= dtw_bytes_needed(p.dtw_aheads_preset),
        p.dtw_on() ==> p.dtw_arena() >= 3 * dtw_tensor_bytes(p.dtw_aheads_preset),
        MIN_DTW_MEM_SIZE <= p.dtw_mem_size <= MAX_DTW_MEM_SIZE ==> p.dtw_arena()
            >= p.dtw_mem_size,
{
    law_dtw_bytes_needed(p.dtw_aheads_preset);
}

/// Why a load is refused that asks for both alignment and flash attention.
pub const REASON_DTW_WITH_FLASH_ATTN: &'static str =
    "DTW token timestamps cannot be combined with flash_attn — whisper.cpp silently disables DTW under flash_attn. Set with_flash_attn(false) or with_dtw_token_timestamps(false).";

/// Why a loaded model is refused that is too wide for the alignment pass.
pub const REASON_TEXT_CTX_TOO_WIDE: &'static str =
    "DTW enabled with a model whose n_text_ctx exceeds SUPPORTED_DTW_N_TEXT_CTX (448) — disable DTW (with_dtw_token_timestamps(false)) or use a standard checkpoint";

/// Why a load failed that ended in a native exception.
pub const REASON_LOAD_EXCEPTION: &'static str =
    "whispercpp_init_from_file_no_state caught C++ exception; native cleanup completed via init_context RAII exit + model_load RAII guards";

/// Why a load failed that ended without a native exception.
pub const REASON_LOAD_NULL: &'static str =
    "whispercpp_init_from_file_no_state returned NULL (upstream load failure, no native exception caught)";

/// What becomes of the native object that a call had to do with.
#[derive(Debug, Clone, Copy, PartialEq, Eq, Structural)]
pub enum NativeAction {
    /// It lives on, with its owner on this side.
    Keep,
    /// It has no owner any more and is to be freed, once.
    Free,
    /// There is none: it never came to be, or was freed on the native side.
    Gone,
}

/// The settings that a model is loaded with, as the native library takes them.
#[derive(Debug, Clone, Copy, PartialEq, Eq, Structural)]
pub struct NativeContextParams {
    /// Whether to run on a GPU.
    pub use_gpu: bool,
    /// Which GPU to run on.
    pub gpu_device: i32,
    /// Whether to use flash attention.
    pub flash_attn: bool,
    /// Whether the alignment pass runs.
    pub dtw_token_timestamps: bool,
    /// The native number of the preset that the alignment pass uses.
    pub dtw_aheads_preset: u32,
    /// The working memory of the alignment pass.
    pub dtw_mem_size: usize,
}

/// A load that may go ahead.
#[derive(Debug)]
pub struct LoadPlan {
    /// The path.
    pub path: NativeString,
    /// The settings to load with.
    pub params: NativeContextParams,
}

/// The answer of the native loader.
#[derive(Debug)]
pub enum LoadReturn {
    /// A model was loaded.
    Loaded(Model),
    /// No model was loaded, and nothing native is left of the attempt.
    Null {
        /// The sentinel of the exception that was caught; 0 where none was.
        exception: i32,
    },
}

/// Hyper-parameters of a loaded model.
#[derive(Debug, Clone, Copy, PartialEq, Eq, Structural)]
pub struct ModelDims {
    /// Encoder hidden size.
    pub n_audio_state: i32,
    /// Encoder attention heads per layer.
    pub n_audio_head: i32,
    /// Encoder layers.
    pub n_audio_layer: i32,
    /// Decoder hidden size.
    pub n_text_state: i32,
    /// Decoder attention heads per layer.
    pub n_text_head: i32,
    /// Decoder layers.
    pub n_text_layer: i32,
    /// Bins of the mel spectrogram.
    pub n_mels: i32,
    /// The file type of the model file.
    pub model_ftype: i32,
}

/// The ids of the tokens with a special meaning.
#[derive(Debug, Clone, Copy, PartialEq, Eq, Structural)]
pub struct SpecialTokens {
    /// End of text.
    pub eot: i32,
    /// Start of transcript.
    pub sot: i32,
    /// The first timestamp token.
    pub beg: i32,
    /// Selects translation. The language tokens lie between `sot` and this.
    pub translate: i32,
    /// Selects transcription.
    pub transcribe: i32,
    /// Start of the previous context.
    pub prev: i32,
    /// No speech.
    pub nosp: i32,
    /// No timestamps.
    pub not: i32,
    /// Start of the language model.
    pub solm: i32,
}

/// What a loaded model says of itself. It never changes.
#[derive(Debug)]
pub struct Model {
    /// Not 0 where the model knows more languages than English.
    pub multilingual: i32,
    /// The size of the vocabulary.
    pub n_vocab: i32,
    /// Audio context window.
    pub n_audio_ctx: i32,
    /// Text context window.
    pub n_text_ctx: i32,
    /// The name of the model's size, in bytes.
    pub model_type: Option<&'static [u8]>,
    /// The special tokens.
    pub tokens: SpecialTokens,
    /// The hyper-parameters.
    pub dims: ModelDims,
    /// The bytes of each token, where the vocabulary holds it.
    pub vocab: Vec<Option<Vec<u8>>>,
}

impl Model {
    /// The bytes of a token.
    pub open spec fn entry(self, token: i32) -> Option<Seq<u8>> {
        if 0 <= token < self.n_vocab && token < self.vocab@.len() {
            owned_bytes(self.vocab@[token as int])
        } else {
            None
        }
    }

    /// Whether the model knows the language with the given native number: with
    /// several languages, the language's token must lie among the language
    /// tokens; with English alone, it must be English, which has number 0.
    pub open spec fn supports(self, lang_id: int) -> bool {
        if self.multilingual != 0 {
            self.tokens.sot < lang_token(self.tokens, lang_id) < self.tokens.translate
        } else {
            lang_id == 0
        }
    }

    /// The name of the model's size; `None` where the native library gives none,
    /// or one that is not UTF-8.
    pub fn size_name(&self) -> (r: Option<&'static str>)
        ensures
            str_view(r) == native_text(bytes_view(self.model_type)),
    {
        utf8_or_none(self.model_type)
    }

    /// The text of a token; `None` where [`Model::token_to_bytes`] gives none, or
    /// bytes that are not UTF-8.
    pub fn token_to_str(&self, token: i32) -> (r: Option<&str>)
        ensures
            str_view(r) == native_text(self.entry(token)),
    {
        utf8_or_none(self.token_to_bytes(token))
    }

    /// The bytes of a token; `None` for a number outside the vocabulary, and for
    /// one that a sparse vocabulary leaves out.
    pub fn token_to_bytes(&self, token: i32) -> (r: Option<&[u8]>)
        ensures
            bytes_view(r) == self.entry(token),
    {
        if token < 0 || token >= self.n_vocab || token as usize >= self.vocab.len() {
            return None;
        }
        borrow_bytes(&self.vocab[token as usize])
    }

    /// Whether the model knows the language with the given native number.
    pub(crate) fn supports_lang(&self, lang_id: i32) -> (r: bool)
        ensures
            r == self.supports(lang_id as int),
    {
        if self.multilingual != 0 {
            let token: i64 = self.tokens.sot as i64 + 1 + lang_id as i64;
            token > self.tokens.sot as i64 && token < self.tokens.translate as i64
        } else {
            lang_id == 0
        }
    }
}

/// The token of the language with the given native number.
pub open spec fn lang_token(tokens: SpecialTokens, lang_id: int) -> int {
    tokens.sot + 1 + lang_id
}

/// The bytes behind an optional vector.
pub open spec fn owned_bytes(v: Option<Vec<u8>>) -> Option<Seq<u8>> {
    match v {
        Some(bytes) => Some(bytes@),
        None => None,
    }
}

/// Borrows the bytes behind an optional vector.
pub(crate) fn borrow_bytes(v: &Option<Vec<u8>>) -> (r: Option<&[u8]>)
    ensures
        bytes_view(r) == owned_bytes(*v),
{
    match v {
        Some(bytes) => Some(bytes.as_slice()),
        None => None,
    }
}

/// `<Arc as Clone>::clone`: another handle on the same model.
#[verifier::external_body]
fn share(model: &Arc<Model>) -> (r: Arc<Model>)
    ensures
        r == *model,
{
    Arc::clone(model)
}

/// The error with which a load is refused before it starts, if it is.
pub open spec fn load_refusal(path: Seq<char>, params: ContextParamsView) -> Option<ErrorView> {
    if has_nul(path) {
        Some(ErrorView::InvalidCString { text: path })
    } else if params.dtw_on() && params.flash_attn {
        Some(
            ErrorView::ContextLoad { path, reason: REASON_DTW_WITH_FLASH_ATTN@, code: None },
        )
    } else {
        None
    }
}

/// The settings that a load hands to the native library. Alignment without heads
/// is no alignment.
pub open spec fn native_context_params(params: ContextParamsView) -> NativeContextParams {
    NativeContextParams {
        use_gpu: params.use_gpu,
        gpu_device: params.gpu_device,
        flash_attn: params.flash_attn,
        dtw_token_timestamps: params.dtw_on(),
        dtw_aheads_preset: if params.dtw_on() {
            params.dtw_aheads_preset.number()
        } else {
            AlignmentHeadsPreset::Off.number()
        },
        dtw_mem_size: params.dtw_arena() as usize,
    }
}

/// The error with which a load fails that the native library made nothing of.
pub open spec fn load_failure(path: Seq<char>, exception: i32) -> ErrorView {
    if exception != 0 {
        ErrorView::ContextLoad { path, reason: REASON_LOAD_EXCEPTION@, code: Some(exception) }
    } else {
        ErrorView::ContextLoad { path, reason: REASON_LOAD_NULL@, code: None }
    }
}

impl ContextParams {
    /// Whether the alignment pass runs.
    fn dtw_on(&self) -> (r: bool)
        ensures
            r == self@.dtw_on(),
    {
        self.dtw_token_timestamps && self.dtw_aheads_preset != AlignmentHeadsPreset::Off
    }

    /// Decides whether a model may be loaded from `path` with these settings, and
    /// what the native library is asked for.
    pub fn load_plan(&self, path: &str) -> (r: WhisperResult<LoadPlan>)
        ensures
            match load_refusal(path@, self@) {
                Some(e) => fails_with(r, e),
                None => r matches Ok(plan) && plan.path@ == path@ && plan.params
                    == native_context_params(self@),
            },
    {
        if bytes_have_nul(path.as_bytes()) {
            return Err(WhisperError::InvalidCString(smol_new(path)));
        }
        let dtw_on = self.dtw_on();
        if dtw_on && self.flash_attn {
            return Err(
                WhisperError::ContextLoad {
                    path: smol_new(path),
                    reason: smol_static(REASON_DTW_WITH_FLASH_ATTN),
                    code: None,
                },
            );
        }
        let dtw_aheads_preset = if dtw_on {
            self.dtw_aheads_preset.to_raw()
        } else {
            AlignmentHeadsPreset::Off.to_raw()
        };
        let configured = clamp_dtw_mem_size(self.dtw_mem_size);
        let dtw_mem_size = if dtw_on {
            let required = required_dtw_mem_size_for(self.dtw_aheads_preset);
            if configured >= required {
                configured
            } else {
                required
            }
        } else {
            configured
        };
        Ok(
            LoadPlan {
                path: NativeString::copy(path),
                params: NativeContextParams {
                    use_gpu: self.use_gpu,
                    gpu_device: self.gpu_device,
                    flash_attn: self.flash_attn,
                    dtw_token_timestamps: dtw_on,
                    dtw_aheads_preset,
                    dtw_mem_size,
                },
            },
        )
    }
}

/// A loaded model, and whether it may still be used for new work.
///
/// Once the native library has lost an inference state of a context, the context
/// is poisoned: it takes on no new work, and is to be dropped and loaded again.
#[derive(Debug)]
pub struct Context {
    model: Arc<Model>,
    serial: u64,
    lost: bool,
}

impl Context {
    /// The loaded model.
    pub closed spec fn model(self) -> Model {
        *self.model
    }

    /// The number that tells the context from every other.
    pub closed spec fn serial(self) -> u64 {
        self.serial
    }

    /// Whether the context is poisoned.
    pub closed spec fn lost(self) -> bool {
        self.lost
    }

    /// The outcome of loading a model from `path` with `params`, where the native
    /// loader answered `loaded` to what [`ContextParams::load_plan`] asks for;
    /// and what becomes of the native context. `serial` is a number that no other
    /// context has.
    pub fn new(path: &str, params: ContextParams, loaded: LoadReturn, serial: u64) -> (r: (
        WhisperResult<Self>,
        NativeAction,
    ))
        ensures
            match load_refusal(path@, params@) {
                Some(e) => fails_with(r.0, e),
                None => match loaded {
                    LoadReturn::Loaded(model) => if params@.dtw_on() && model.n_text_ctx
                        > SUPPORTED_DTW_N_TEXT_CTX {
                        fails_with(
                            r.0,
                            ErrorView::ContextLoad {
                                path: path@,
                                reason: REASON_TEXT_CTX_TOO_WIDE@,
                                code: None,
                            },
                        )
                    } else {
                        r.0 matches Ok(context) && context.model() == model && context.serial()
                            == serial && !context.lost()
                    },
                    LoadReturn::Null { exception } => fails_with(
                        r.0,
                        load_failure(path@, exception),
                    ),
                },
            },
            r.1 == (if r.0 is Ok {
                NativeAction::Keep
            } else if loaded is Loaded {
                NativeAction::Free
            } else {
                NativeAction::Gone
            }),
    {
        let refused = params.load_plan(path);
        match loaded {
            LoadReturn::Loaded(model) => {
                if let Err(e) = refused {
                    return (Err(e), NativeAction::Free);
                }
                if params.dtw_on() && model.n_text_ctx > SUPPORTED_DTW_N_TEXT_CTX {
                    let e = WhisperError::ContextLoad {
                        path: smol_new(path),
                        reason: smol_static(REASON_TEXT_CTX_TOO_WIDE),
                        code: None,
                    };
                    return (Err(e), NativeAction::Free);
                }
                (Ok(Context { model: Arc::new(model), serial, lost: false }), NativeAction::Keep)
            },
            LoadReturn::Null { exception } => {
                if let Err(e) = refused {
                    return (Err(e), NativeAction::Gone);
                }
                let (reason, code) = if exception != 0 {
                    (smol_static(REASON_LOAD_EXCEPTION), Some(exception))
                } else {
                    (smol_static(REASON_LOAD_NULL), None)
                };
                let e = WhisperError::ContextLoad { path: smol_new(path), reason, code };
                (Err(e), NativeAction::Gone)
            },
        }
    }

    /// Poisons the context.
    pub fn mark_lost(&mut self)
        ensures
            final(self).lost(),
            final(self).model() == old(self).model(),
            final(self).serial() == old(self).serial(),
    {
        self.lost = true;
    }

    /// Whether the context is poisoned.
    pub fn is_poisoned(&self) -> (r: bool)
        ensures
            r == self.lost(),
    {
        self.lost
    }

    /// The number that tells the context from every other.
    pub fn serial_number(&self) -> (r: u64)
        ensures
            r == self.serial(),
    {
        self.serial
    }

    /// Another handle on the model.
    pub fn share_model(&self) -> (r: Arc<Model>)
        ensures
            *r == self.model(),
    {
        share(&self.model)
    }
}


impl Context {
    /// Whether the model knows more languages than English.
    pub fn is_multilingual(&self) -> (r: bool)
        ensures
            r == (self.model().multilingual != 0),
    {
        self.model.multilingual != 0
    }

    /// The size of the vocabulary.
    pub fn n_vocab(&self) -> (r: i32)
        ensures
            r == self.model().n_vocab,
    {
        self.model.n_vocab
    }

    /// Audio context window.
    pub fn n_audio_ctx(&self) -> (r: i32)
        ensures
            r == self.model().n_audio_ctx,
    {
        self.model.n_audio_ctx
    }

    /// Text context window.
    pub fn n_text_ctx(&self) -> (r: i32)
        ensures
            r == self.model().n_text_ctx,
    {
        self.model.n_text_ctx
    }

    /// The name of the model's size; see [`Model::size_name`].
    pub fn model_type(&self) -> (r: Option<&'static str>)
        ensures
            str_view(r) == native_text(bytes_view(self.model().model_type)),
    {
        self.model.size_name()
    }

    /// The token for the end of text.
    pub fn token_eot(&self) -> (r: i32)
        ensures
            r == self.model().tokens.eot,
    {
        self.model.tokens.eot
    }

    /// The token for the start of a transcript.
    pub fn token_sot(&self) -> (r: i32)
        ensures
            r == self.model().tokens.sot,
    {
        self.model.tokens.sot
    }

    /// The first timestamp token.
    pub fn token_beg(&self) -> (r: i32)
        ensures
            r == self.model().tokens.beg,
    {
        self.model.tokens.beg
    }

    /// The token that selects translation.
    pub fn token_translate(&self) -> (r: i32)
        ensures
            r == self.model().tokens.translate,
    {
        self.model.tokens.translate
    }

    /// The token that selects transcription.
    pub fn token_transcribe(&self) -> (r: i32)
        ensures
            r == self.model().tokens.transcribe,
    {
        self.model.tokens.transcribe
    }

    /// The token that starts the previous context.
    pub fn token_prev(&self) -> (r: i32)
        ensures
            r == self.model().tokens.prev,
    {
        self.model.tokens.prev
    }

    /// The token for no speech.
    pub fn token_nosp(&self) -> (r: i32)
        ensures
            r == self.model().tokens.nosp,
    {
        self.model.tokens.nosp
    }

    /// The token that switches timestamps off.
    pub fn token_not(&self) -> (r: i32)
        ensures
            r == self.model().tokens.not,
    {
        self.model.tokens.not
    }

    /// The token that starts the language model.
    pub fn token_solm(&self) -> (r: i32)
        ensures
            r == self.model().tokens.solm,
    {
        self.model.tokens.solm
    }

    /// The hyper-parameters of the model.
    pub fn model_dims(&self) -> (r: ModelDims)
        ensures
            r == self.model().dims,
    {
        self.model.dims
    }

    /// The text of a token; see [`Model::token_to_str`].
    pub fn token_to_str(&self, token: i32) -> (r: Option<&str>)
        ensures
            str_view(r) == native_text(self.model().entry(token)),
    {
        self.model.token_to_str(token)
    }

    /// The bytes of a token; see [`Model::token_to_bytes`].
    pub fn token_to_bytes(&self, token: i32) -> (r: Option<&[u8]>)
        ensures
            bytes_view(r) == self.model().entry(token),
    {
        self.model.token_to_bytes(token)
    }

    /// The token of a language, where the native library answered `native_id` to
    /// [`lang_query`](crate::lang::lang_query) for its code. `None` where the
    /// model knows English alone, where the native library does not know the
    /// code, and where the token would not lie among the model's language tokens.
    pub fn token_for_lang(&self, lang: &Lang, native_id: i32) -> (r: Option<i32>)
        ensures
            r is Some <==> self.model().multilingual != 0 && (id_of_name(
                lang.code(),
                native_id,
            ) matches Some(id) && self.model().supports(id as int)),
            r matches Some(token) ==> token == lang_token(self.model().tokens, native_id as int),
    {
        if !self.is_multilingual() {
            return None;
        }
        match lang_id_for(lang.as_str(), native_id) {
            Some(id) => if self.model.supports_lang(id) {
                Some(self.model.tokens.sot + 1 + id)
            } else {
                None
            },
            None => None,
        }
    }
}

/// The description of the linked native library, once it was asked for.
#[derive(Debug)]
pub struct InfoCache {
    answer: Option<Option<SmolStr>>,
}

impl View for InfoCache {
    type V = Option<Option<Seq<char>>>;

    closed spec fn view(&self) -> Option<Option<Seq<char>>> {
        match self.answer {
            Some(Some(info)) => Some(Some(smol_chars(info))),
            Some(None) => Some(None),
            None => None,
        }
    }
}

impl InfoCache {
    /// Nothing was asked for yet.
    pub fn new() -> (r: Self)
        ensures
            r@ is None,
    {
        InfoCache { answer: None }
    }

    /// Whether the native library is to be asked.
    pub fn owes_call(&self) -> (r: bool)
        ensures
            r == self@ is None,
    {
        self.answer.is_none()
    }
}

/// A call of [`system_info`]: what it was given, what it found and what it left.
pub struct InfoStep {
    /// The native answer, of which nothing is read unless it was owed.
    pub raw: Option<Seq<u8>>,
    /// The cache before.
    pub before: Option<Option<Seq<char>>>,
    /// The cache after.
    pub after: Option<Option<Seq<char>>>,
    /// The result.
    pub result: Option<Seq<char>>,
}

impl InfoStep {
    /// Whether the native library is asked.
    pub open spec fn asks(self) -> bool {
        self.before is None
    }

    /// What a call of [`system_info`] does.
    pub open spec fn is_lookup(self) -> bool {
        &&& self.result == (match self.before {
            Some(known) => known,
            None => native_text(self.raw),
        })
        &&& self.after == Some(self.result)
    }
}

/// The characters behind an optional description.
pub open spec fn info_view(info: Option<SmolStr>) -> Option<Seq<char>> {
    match info {
        Some(info) => Some(smol_chars(info)),
        None => None,
    }
}

/// The description of the linked native library; `None` where it gives none, or
/// bytes that are not UTF-8. `raw` is what it gives, where [`InfoCache::owes_call`]
/// says that it is to be asked; otherwise the earlier answer holds.
pub fn system_info(cache: &mut InfoCache, raw: Option<&[u8]>) -> (r: Option<SmolStr>)
    ensures
        (InfoStep {
            raw: bytes_view(raw),
            before: old(cache)@,
            after: final(cache)@,
            result: info_view(r),
        }).is_lookup(),
{
    match &cache.answer {
        Some(known) => match known {
            Some(info) => Some(info.clone()),
            None => None,
        },
        None => match utf8_or_none(raw) {
            Some(info) => {
                let info = smol_new(info);
                cache.answer = Some(Some(info.clone()));
                Some(info)
            },
            None => {
                cache.answer = Some(None);
                None
            },
        },
    }
}

/// However often the description of the native library is asked for, the native
/// library is asked once, by the first call; and all calls give what it answered
/// then.
pub proof fn law_system_info_is_asked_for_once(steps: Seq<InfoStep>)
    requires
        steps.len() > 0,
        steps.first().before is None,
        forall|i: int| 0 <= i < steps.len() ==> (#[trigger] steps[i]).is_lookup(),
        forall|i: int, j: int|
            0 <= i && j == i + 1 && j < steps.len() ==> (#[trigger] steps[j]).before == (
            #[trigger] steps[i]).after,
    ensures
        forall|i: int| 0 <= i < steps.len() ==> ((#[trigger] steps[i]).asks() <==> i == 0),
        forall|i: int|
            0 <= i < steps.len() ==> (#[trigger] steps[i]).result == native_text(
                steps.first().raw,
            ),
    decreases steps.len(),
{
    let n = steps.len() as int;
    let last = steps[n - 1];
    if n > 1 {
        let head = steps.drop_last();
        assert(forall|i: int| 0 <= i < head.len() ==> head[i] == steps[i]);
        law_system_info_is_asked_for_once(head);
        assert(last.before == steps[n - 2].after);
        assert(head[n - 2].result == native_text(steps.first().raw));
        assert forall|i: int| 0 <= i < steps.len() implies ((#[trigger] steps[i]).asks() <==> i
            == 0) by {
            if i < n - 1 {
                assert(head[i].asks() <==> i == 0);
            }
        }
        assert forall|i: int| 0 <= i < steps.len() implies (#[trigger] steps[i]).result
            == native_text(steps.first().raw) by {
            if i < n - 1 {
                assert(head[i].result == native_text(steps.first().raw));
            }
        }
    } else {
        assert(last.is_lookup());
    }
}

/// A token for a language, where there is one, lies among the language tokens:
/// it is never a task token, nor the start of a transcript.
pub proof fn law_language_tokens_are_bounded(model: Model, lang_id: int)
    requires
        model.multilingual != 0,
        model.supports(lang_id),
    ensures
        model.tokens.sot < lang_token(model.tokens, lang_id) < model.tokens.translate,
        0 <= lang_id < model.tokens.translate - model.tokens.sot - 1,
{
}

} // verus!

//! Loading a model, and what it says of itself.

use crate::context::{
    alignment_head_count, clamp_dtw_mem_size, required_dtw_mem_size_for, system_info,
    AlignmentHeadsPreset, Context, ContextParams, InfoCache, LoadPlan, LoadReturn, Model, ModelDims,
    NativeAction, MAX_DTW_MEM_SIZE, REASON_DTW_WITH_FLASH_ATTN, REASON_LOAD_EXCEPTION,
    REASON_LOAD_NULL, REASON_TEXT_CTX_TOO_WIDE,
};
use crate::error::{WhisperError, WhisperResult};
use crate::lang::Lang;
use crate::text::{law_nul_is_a_character, smol_chars};
use crate::version;
use smol_str::SmolStr;
use std::sync::Arc;
use vstd::prelude::*;
use vstd::utf8::{encode_utf8, valid_utf8};

verus! {

/// A load is planned for every path without NUL and for all settings, but for those
/// that ask for both alignment and flash attention. The native library is handed the
/// path, the device and the flash attention that were configured, unchanged. Alignment
/// runs where it was asked for with heads to read, by the number of its preset; its
/// memory is what was configured, or what the preset needs where that is more.
pub proof fn law_a_plan_keeps_what_was_configured(
    params: &ContextParams,
    path: &str,
    use_gpu: bool,
    gpu_device: i32,
    flash_attn: bool,
    timestamps: bool,
    preset: AlignmentHeadsPreset,
    configured: usize,
    number: u32,
    needed: usize,
    r: WhisperResult<LoadPlan>,
)
    requires
        call_ensures(ContextParams::use_gpu, (params,), use_gpu),
        call_ensures(ContextParams::gpu_device, (params,), gpu_device),
        call_ensures(ContextParams::flash_attn, (params,), flash_attn),
        call_ensures(ContextParams::dtw_token_timestamps, (params,), timestamps),
        call_ensures(ContextParams::dtw_aheads_preset, (params,), preset),
        call_ensures(ContextParams::dtw_mem_size, (params,), configured),
        call_ensures(AlignmentHeadsPreset::to_raw, (preset,), number),
        call_ensures(required_dtw_mem_size_for, (preset,), needed),
        call_ensures(ContextParams::load_plan, (params, path), r),
    ensures
        ({
            let aligns = timestamps && preset != AlignmentHeadsPreset::Off;
            if path@.contains('\0') {
                r matches Err(WhisperError::InvalidCString(text)) && smol_chars(text) == path@
            } else if aligns && flash_attn {
                &&& r matches Err(WhisperError::ContextLoad { path: p, reason, code })
                &&& smol_chars(p) == path@
                &&& smol_chars(reason) == REASON_DTW_WITH_FLASH_ATTN@
                &&& code is None
            } else {
                &&& r matches Ok(plan)
                &&& plan.path@ == path@
                &&& plan.params.use_gpu == use_gpu
                &&& plan.params.gpu_device == gpu_device
                &&& plan.params.flash_attn == flash_attn
                &&& plan.params.dtw_token_timestamps == aligns
                &&& plan.params.dtw_aheads_preset == if aligns {
                    number
                } else {
                    0
                }
                &&& plan.params.dtw_mem_size == if aligns && needed > configured {
                    needed
                } else {
                    configured
                }
            }
        }),
{
    law_nul_is_a_character(path@);
}

/// A setting that is changed is read back as it was given, and all the others stay.
/// The working memory is moved into its range.
pub proof fn law_load_settings_are_kept(
    p: ContextParams,
    on: bool,
    idx: i32,
    preset: AlignmentHeadsPreset,
    n: usize,
    moved: usize,
    r: ContextParams,
)
    requires
        call_ensures(clamp_dtw_mem_size, (n,), moved),
    ensures
        call_ensures(ContextParams::with_use_gpu, (p, on), r) ==> {
            &&& r@.use_gpu == on
            &&& r@.gpu_device == p@.gpu_device && r@.flash_attn == p@.flash_attn
            &&& r@.dtw_token_timestamps == p@.dtw_token_timestamps
            &&& r@.dtw_aheads_preset == p@.dtw_aheads_preset && r@.dtw_mem_size == p@.dtw_mem_size
        },
        call_ensures(ContextParams::with_gpu_device, (p, idx), r) ==> {
            &&& r@.gpu_device == idx
            &&& r@.use_gpu == p@.use_gpu && r@.flash_attn == p@.flash_attn
            &&& r@.dtw_token_timestamps == p@.dtw_token_timestamps
            &&& r@.dtw_aheads_preset == p@.dtw_aheads_preset && r@.dtw_mem_size == p@.dtw_mem_size
        },
        call_ensures(ContextParams::with_flash_attn, (p, on), r) ==> {
            &&& r@.flash_attn == on
            &&& r@.use_gpu == p@.use_gpu && r@.gpu_device == p@.gpu_device
            &&& r@.dtw_token_timestamps == p@.dtw_token_timestamps
            &&& r@.dtw_aheads_preset == p@.dtw_aheads_preset && r@.dtw_mem_size == p@.dtw_mem_size
        },
        call_ensures(ContextParams::with_dtw_token_timestamps, (p, on), r) ==> {
            &&& r@.dtw_token_timestamps == on
            &&& r@.use_gpu == p@.use_gpu && r@.gpu_device == p@.gpu_device
            &&& r@.flash_attn == p@.flash_attn
            &&& r@.dtw_aheads_preset == p@.dtw_aheads_preset && r@.dtw_mem_size == p@.dtw_mem_size
        },
        call_ensures(ContextParams::with_dtw_aheads_preset, (p, preset), r) ==> {
            &&& r@.dtw_aheads_preset == preset
            &&& r@.use_gpu == p@.use_gpu && r@.gpu_device == p@.gpu_device
            &&& r@.flash_attn == p@.flash_attn
            &&& r@.dtw_token_timestamps == p@.dtw_token_timestamps
            &&& r@.dtw_mem_size == p@.dtw_mem_size
        },
        call_ensures(ContextParams::with_dtw_mem_size, (p, n), r) ==> {
            &&& r@.dtw_mem_size == moved
            &&& r@.use_gpu == p@.use_gpu && r@.gpu_device == p@.gpu_device
            &&& r@.flash_attn == p@.flash_attn
            &&& r@.dtw_token_timestamps == p@.dtw_token_timestamps
            &&& r@.dtw_aheads_preset == p@.dtw_aheads_preset
        },
        call_ensures(ContextParams::new, (), r) || call_ensures(
            <ContextParams as Default>::default,
            (),
            r,
        ) ==> {
            &&& r@.use_gpu && r@.gpu_device == 0 && !r@.flash_attn
            &&& !r@.dtw_token_timestamps && r@.dtw_aheads_preset == AlignmentHeadsPreset::Off
            &&& r@.dtw_mem_size == 134217728
        },
{
}

/// What is read of the settings is what they hold.
pub proof fn law_load_settings_are_read(
    params: &ContextParams,
    use_gpu: bool,
    gpu_device: i32,
    flash_attn: bool,
    timestamps: bool,
    preset: AlignmentHeadsPreset,
    mem_size: usize,
)
    requires
        call_ensures(ContextParams::use_gpu, (params,), use_gpu),
        call_ensures(ContextParams::gpu_device, (params,), gpu_device),
        call_ensures(ContextParams::flash_attn, (params,), flash_attn),
        call_ensures(ContextParams::dtw_token_timestamps, (params,), timestamps),
        call_ensures(ContextParams::dtw_aheads_preset, (params,), preset),
        call_ensures(ContextParams::dtw_mem_size, (params,), mem_size),
    ensures
        use_gpu == params@.use_gpu && gpu_device == params@.gpu_device,
        flash_attn == params@.flash_attn && timestamps == params@.dtw_token_timestamps,
        preset == params@.dtw_aheads_preset && mem_size == params@.dtw_mem_size,
        134217728 <= mem_size,
{
}

/// A memory size is moved as little as possible: of all sizes from 128 MiB to the
/// largest that is accepted, which is 4 GiB with addresses of 64 bits and 1 GiB with
/// addresses of 32, the one that is taken is the nearest to the one that was given.
pub proof fn law_memory_sizes_move_little(n: usize, r: usize, other: usize)
    requires
        call_ensures(clamp_dtw_mem_size, (n,), r),
    ensures
        134217728 <= r <= MAX_DTW_MEM_SIZE,
        134217728 <= other <= MAX_DTW_MEM_SIZE ==> if n <= r {
            r - n <= if n <= other {
                other - n
            } else {
                n - other
            }
        } else {
            n - r <= if n <= other {
                other - n
            } else {
                n - other
            }
        },
        usize::BITS == 64 ==> MAX_DTW_MEM_SIZE == 4294967296,
        usize::BITS == 32 ==> MAX_DTW_MEM_SIZE == 1073741824,
{
}

/// The memory that a preset needs is nothing without heads; otherwise 128 MiB, or four
/// and a half tensors of four bytes for each head, each of 448 text positions and each
/// of 1500 audio positions, where that is more.
pub proof fn law_memory_grows_with_the_heads(
    preset: AlignmentHeadsPreset,
    heads: usize,
    number: u32,
    r: usize,
)
    requires
        call_ensures(alignment_head_count, (preset,), heads),
        call_ensures(AlignmentHeadsPreset::to_raw, (preset,), number),
        call_ensures(required_dtw_mem_size_for, (preset,), r),
    ensures
        preset == AlignmentHeadsPreset::Off <==> heads == 0,
        preset == AlignmentHeadsPreset::Off <==> number == 0,
        heads == 0 ==> r == 0,
        heads > 0 && 2 * 134217728 <= 9 * (4 * heads * 448 * 1500) ==> 2 * r == 9 * (4 * heads * 448
            * 1500),
        heads > 0 && 2 * 134217728 > 9 * (4 * heads * 448 * 1500) ==> r == 134217728,
        (heads, number) == match preset {
            AlignmentHeadsPreset::Off => (0usize, 0u32),
            AlignmentHeadsPreset::TinyEn => (8, 3),
            AlignmentHeadsPreset::Tiny => (6, 4),
            AlignmentHeadsPreset::BaseEn => (5, 5),
            AlignmentHeadsPreset::Base => (8, 6),
            AlignmentHeadsPreset::SmallEn => (19, 7),
            AlignmentHeadsPreset::Small => (10, 8),
            AlignmentHeadsPreset::MediumEn => (18, 9),
            AlignmentHeadsPreset::Medium => (6, 10),
            AlignmentHeadsPreset::LargeV1 => (9, 11),
            AlignmentHeadsPreset::LargeV2 => (23, 12),
            AlignmentHeadsPreset::LargeV3 => (10, 13),
            AlignmentHeadsPreset::LargeV3Turbo => (6, 14),
        },
{
}

/// A load ends as its plan and the native loader say: with the error of a plan that
/// was refused; with the model that was loaded, sound and under the given number; with
/// a refusal of a model whose text context is beyond 448 where alignment runs; or with
/// an error that says which exception was caught, if one was. A native model without
/// an owner is to be freed.
pub proof fn law_a_planned_load_is_made(
    path: &str,
    params: &ContextParams,
    loaded: LoadReturn,
    serial: u64,
    plan: WhisperResult<LoadPlan>,
    r: (WhisperResult<Context>, NativeAction),
)
    requires
        call_ensures(ContextParams::load_plan, (params, path), plan),
        call_ensures(Context::new, (path, *params, loaded, serial), r),
    ensures
        plan matches Err(e) ==> (r.0 matches Err(x) && x@ == e@),
        plan matches Ok(plan) ==> match loaded {
            LoadReturn::Loaded(model) => if plan.params.dtw_token_timestamps && model.n_text_ctx
                > 448 {
                &&& r.0 matches Err(WhisperError::ContextLoad { path: p, reason, code })
                &&& smol_chars(p) == path@
                &&& smol_chars(reason) == REASON_TEXT_CTX_TOO_WIDE@
                &&& code is None
            } else {
                &&& r.0 matches Ok(context)
                &&& context.model() == model
                &&& context.serial() == serial
                &&& !context.lost()
            },
            LoadReturn::Null { exception } => {
                &&& r.0 matches Err(WhisperError::ContextLoad { path: p, reason, code })
                &&& smol_chars(p) == path@
                &&& exception != 0 ==> code == Some(exception) && smol_chars(reason)
                    == REASON_LOAD_EXCEPTION@
                &&& exception == 0 ==> code is None && smol_chars(reason) == REASON_LOAD_NULL@
            },
        },
        r.0 is Ok ==> r.1 == NativeAction::Keep,
        r.0 is Err && loaded is Loaded ==> r.1 == NativeAction::Free,
        loaded is Null ==> r.1 == NativeAction::Gone,
{
}

/// What a context says of its model is what the native loader said.
pub proof fn law_a_model_is_read_as_loaded(
    context: &Context,
    multilingual: bool,
    n_vocab: i32,
    n_audio_ctx: i32,
    n_text_ctx: i32,
    dims: ModelDims,
    shared: Arc<Model>,
    serial: u64,
    poisoned: bool,
)
    requires
        call_ensures(Context::is_multilingual, (context,), multilingual),
        call_ensures(Context::n_vocab, (context,), n_vocab),
        call_ensures(Context::n_audio_ctx, (context,), n_audio_ctx),
        call_ensures(Context::n_text_ctx, (context,), n_text_ctx),
        call_ensures(Context::model_dims, (context,), dims),
        call_ensures(Context::share_model, (context,), shared),
        call_ensures(Context::serial_number, (context,), serial),
        call_ensures(Context::is_poisoned, (context,), poisoned),
    ensures
        multilingual <==> context.model().multilingual != 0,
        n_vocab == context.model().n_vocab,
        n_audio_ctx == context.model().n_audio_ctx,
        n_text_ctx == context.model().n_text_ctx,
        dims == context.model().dims,
        *shared == context.model(),
        serial == context.serial(),
        poisoned == context.lost(),
{
}

/// Each special token is the one that the native loader gave for it.
pub proof fn law_special_tokens_are_read_as_loaded(
    context: &Context,
    eot: i32,
    sot: i32,
    beg: i32,
    translate: i32,
    transcribe: i32,
    prev: i32,
    nosp: i32,
    not: i32,
    solm: i32,
)
    requires
        call_ensures(Context::token_eot, (context,), eot),
        call_ensures(Context::token_sot, (context,), sot),
        call_ensures(Context::token_beg, (context,), beg),
        call_ensures(Context::token_translate, (context,), translate),
        call_ensures(Context::token_transcribe, (context,), transcribe),
        call_ensures(Context::token_prev, (context,), prev),
        call_ensures(Context::token_nosp, (context,), nosp),
        call_ensures(Context::token_not, (context,), not),
        call_ensures(Context::token_solm, (context,), solm),
    ensures
        ({
            let tokens = context.model().tokens;
            &&& eot == tokens.eot && sot == tokens.sot && beg == tokens.beg
            &&& translate == tokens.translate && transcribe == tokens.transcribe
            &&& prev == tokens.prev && nosp == tokens.nosp
            &&& not == tokens.not && solm == tokens.solm
        }),
{
}

/// A token has the bytes that the vocabulary holds for it, where it lies within the
/// vocabulary and has any; its text is what they encode, where they are UTF-8. The
/// name of the model's size is read in the same way. A model and its context agree.
pub proof fn law_tokens_are_read_as_loaded(
    context: &Context,
    model: &Model,
    token: i32,
    bytes: Option<&[u8]>,
    text: Option<&str>,
    own_bytes: Option<&[u8]>,
    own_text: Option<&str>,
    size: Option<&str>,
    own_size: Option<&str>,
)
    requires
        *model == context.model(),
        call_ensures(Model::token_to_bytes, (model, token), own_bytes),
        call_ensures(Model::token_to_str, (model, token), own_text),
        call_ensures(Context::token_to_bytes, (context, token), bytes),
        call_ensures(Context::token_to_str, (context, token), text),
        call_ensures(Model::size_name, (model,), own_size),
        call_ensures(Context::model_type, (context,), size),
    ensures
        bytes is Some <==> 0 <= token < model.n_vocab && token < model.vocab@.len()
            && model.vocab@[token as int] is Some,
        bytes matches Some(b) ==> b@ == model.vocab@[token as int]->0@,
        text is Some <==> bytes is Some && valid_utf8(bytes->0@),
        text matches Some(t) ==> encode_utf8(t@) == bytes->0@,
        own_bytes is Some <==> bytes is Some,
        own_bytes matches Some(b) ==> b@ == bytes->0@,
        own_text is Some <==> text is Some,
        own_text matches Some(t) ==> t@ == text->0@,
        size is Some <==> model.model_type is Some && valid_utf8(model.model_type->0@),
        size matches Some(t) ==> encode_utf8(t@) == model.model_type->0@,
        own_size is Some <==> size is Some,
        own_size matches Some(t) ==> t@ == size->0@,
{
    broadcast use vstd::utf8::decode_utf8_encode_utf8;

}

/// A load may be planned for any path and any settings, and ended with any native
/// answer; any number may be asked for as a token; any language may be looked up.
pub proof fn law_loads_are_open(
    context: &Context,
    params: &ContextParams,
    path: &str,
    loaded: LoadReturn,
    serial: u64,
    token: i32,
    lang: &Lang,
)
    ensures
        call_requires(ContextParams::load_plan, (params, path)),
        call_requires(Context::new, (path, *params, loaded, serial)),
        call_requires(Context::token_to_bytes, (context, token)),
        call_requires(Context::token_to_str, (context, token)),
        call_requires(Context::token_for_lang, (context, lang, token)),
        call_requires(Context::tokenize, (context, path)),
        call_requires(Context::tokenize_one, (context, path)),
        call_requires(Lang::from_wire, (path,)),
        call_requires(Lang::from_iso639_1, (path,)),
{
}

/// A poisoned context stays so, and is otherwise as it was.
pub proof fn law_poison_changes_nothing_else(context: &mut Context, r: ())
    requires
        call_ensures(Context::mark_lost, (context,), r),
    ensures
        final(context).lost(),
        final(context).model() == old(context).model(),
        final(context).serial() == old(context).serial(),
{
}

/// The version of the native library is the text that its bytes encode, where it gives
/// any and they are UTF-8.
pub proof fn law_the_version_is_read(raw: Option<&[u8]>, r: Option<&str>)
    requires
        call_ensures(version, (raw,), r),
    ensures
        r is Some <==> raw is Some && valid_utf8(raw->0@),
        r matches Some(t) ==> encode_utf8(t@) == raw->0@,
{
    broadcast use vstd::utf8::decode_utf8_encode_utf8;

}

/// The description of the native library is the text that its bytes encode, where it
/// gives any and they are UTF-8. It is asked for by the first call; the second gives
/// the same, whatever it is handed.
pub proof fn law_the_description_is_read_once(
    fresh: InfoCache,
    cache: &mut InfoCache,
    later: &mut InfoCache,
    between: &InfoCache,
    raw: Option<&[u8]>,
    other: Option<&[u8]>,
    owes: bool,
    owes_later: bool,
    first: Option<SmolStr>,
    second: Option<SmolStr>,
)
    requires
        call_ensures(InfoCache::new, (), fresh),
        fresh == *old(cache),
        *old(later) == *final(cache),
        *between == *final(cache),
        call_ensures(system_info, (cache, raw), first),
        call_ensures(system_info, (later, other), second),
        call_ensures(InfoCache::owes_call, (&fresh,), owes),
        call_ensures(InfoCache::owes_call, (between,), owes_later),
    ensures
        owes && !owes_later,
        first is Some <==> raw is Some && valid_utf8(raw->0@),
        first matches Some(t) ==> encode_utf8(smol_chars(t)) == raw->0@,
        second is Some <==> first is Some,
        second matches Some(t) ==> smol_chars(t) == smol_chars(first->0),
{
    broadcast use vstd::utf8::decode_utf8_encode_utf8;

}

} // verus!

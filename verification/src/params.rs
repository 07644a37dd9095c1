//! `Params`: the settings of one run of the model.

use crate::context::clamped;
use crate::error::{fails_with, ErrorView, WhisperError, WhisperResult};
use crate::float32::{from_bits, Float32};
use crate::lang::{id_of_name, lang_id_for, MAX_NAME_BYTES};
use crate::room::{refused, with_room, Room};
use crate::text::{
    byte_len, bytes_have_nul, bytes_view, has_nul, head_chars, head_of, native_copy, native_text,
    room_for, smol_new, str_view, utf8_or_none, NativeString,
};
use vstd::arithmetic::power2::{lemma2_to64, lemma_pow2_adds, lemma_pow2_pos, pow2};
use vstd::prelude::*;
use vstd::slice::slice_subrange;

verus! {

/// The most threads that [`Params::set_n_threads`] accepts. With more, an
/// exception on the native side may end the process.
pub const MAX_N_THREADS: i32 = 1;

/// The most attempts or beams that a [`SamplingStrategy`] is taken to ask for.
pub const MAX_BEAM_SIZE: i32 = 64;

/// The longest initial prompt that [`Params::set_initial_prompt`] accepts, in
/// bytes: 1 MiB.
pub const MAX_PROMPT_BYTES: usize = 1024 * 1024;

/// The bit pattern of the largest temperature that is passed on: 1.0.
pub const MAX_TEMPERATURE_BITS: u32 = 0x3F80_0000;

/// The bit pattern of the smallest temperature step that is passed on: 0.001,
/// rounded. With a smaller one the native loop over temperatures could stall.
pub const MIN_TEMPERATURE_INC_BITS: u32 = 0x3A83_126F;

/// The bit pattern of the largest temperature step that is passed on: 1.0.
pub const MAX_TEMPERATURE_INC_BITS: u32 = 0x3F80_0000;

/// The bit pattern of the latest start of the first segment that is passed on:
/// 30.0 seconds, the width of a chunk.
pub const MAX_INITIAL_TS_S_BITS: u32 = 0x41F0_0000;

/// Moves a number of attempts or beams into the accepted range.
pub fn clamp_topk(k: i32) -> (r: i32)
    ensures
        r == clamped(k as int, 1, MAX_BEAM_SIZE as int),
{
    if k < 1 {
        1
    } else if k > MAX_BEAM_SIZE {
        MAX_BEAM_SIZE
    } else {
        k
    }
}

/// Moves a number of threads into the accepted range.
pub fn clamp_n_threads(n: i32) -> (r: i32)
    ensures
        r == clamped(n as int, 1, MAX_N_THREADS as int),
{
    if n < 1 {
        1
    } else if n > MAX_N_THREADS {
        MAX_N_THREADS
    } else {
        n
    }
}

/// `t`, where it lies between zero and `max`; zero below that, and for a number
/// that is not finite; `max` above it.
pub open spec fn up_to(t: Float32, max: Float32) -> Float32 {
    if !t.is_finite() || t.units() < 0 {
        from_bits(0)
    } else if t.units() > max.units() {
        max
    } else {
        t
    }
}

/// `t`, where it lies between `min` and `max`; zero below that, for a minus sign and
/// for what is no number; `max` above it, and for plus infinity.
pub open spec fn zero_or_within(t: Float32, min: Float32, max: Float32) -> Float32 {
    if t.is_nan() || t.has_minus() || (t.is_finite() && t.units() < min.units()) {
        from_bits(0)
    } else if !t.is_finite() || t.units() > max.units() {
        max
    } else {
        t
    }
}

/// Moves a number into the range from zero to the finite number `max`.
fn clamp_up_to(t: Float32, max: Float32) -> (r: Float32)
    requires
        max.is_finite(),
    ensures
        r == up_to(t, max),
{
    let zero = Float32 { bits: 0 };
    if !t.finite() {
        return zero;
    }
    if t.less(zero) {
        zero
    } else if max.less(t) {
        max
    } else {
        t
    }
}

/// Makes the latest start of the first segment one that the native library can
/// round to a whole number of positions.
pub fn clamp_max_initial_ts(t: Float32) -> (r: Float32)
    ensures
        r == up_to(t, from_bits(MAX_INITIAL_TS_S_BITS)),
{
    clamp_up_to(t, Float32 { bits: MAX_INITIAL_TS_S_BITS })
}

/// Makes the temperature one that the native loop over temperatures can start
/// from.
pub fn clamp_temperature(t: Float32) -> (r: Float32)
    ensures
        r == up_to(t, from_bits(MAX_TEMPERATURE_BITS)),
{
    clamp_up_to(t, Float32 { bits: MAX_TEMPERATURE_BITS })
}

/// Makes the temperature step zero, for a single attempt, or one with which the
/// native loop over temperatures advances.
pub fn clamp_temperature_inc(inc: Float32) -> (r: Float32)
    ensures
        r == zero_or_within(
            inc,
            from_bits(MIN_TEMPERATURE_INC_BITS),
            from_bits(MAX_TEMPERATURE_INC_BITS),
        ),
{
    let min = Float32 { bits: MIN_TEMPERATURE_INC_BITS };
    let max = Float32 { bits: MAX_TEMPERATURE_INC_BITS };
    if inc.nan() || inc.minus() {
        return Float32 { bits: 0 };
    }
    if !inc.finite() {
        return max;
    }
    if inc.less(min) {
        Float32 { bits: 0 }
    } else if max.less(inc) {
        max
    } else {
        inc
    }
}

/// How tokens are sampled.
#[derive(Debug, Clone, Copy)]
pub enum SamplingStrategy {
    /// The most likely token, with the best of several attempts.
    Greedy {
        /// How many attempts.
        best_of: i32,
    },
    /// Beam search.
    BeamSearch {
        /// How many beams.
        beam_size: i32,
        /// The patience; -1.0 switches it off.
        patience: Float32,
    },
}

impl SamplingStrategy {
    /// The native number of the strategy.
    pub open spec fn number(self) -> u32 {
        match self {
            SamplingStrategy::Greedy { .. } => 0,
            SamplingStrategy::BeamSearch { .. } => 1,
        }
    }

    /// The native number of the strategy.
    pub fn to_raw(&self) -> (r: u32)
        ensures
            r == self.number(),
    {
        match self {
            SamplingStrategy::Greedy { .. } => 0,
            SamplingStrategy::BeamSearch { .. } => 1,
        }
    }
}

/// The plain settings of a run, as the native library takes them.
#[derive(Debug, Clone, Copy, PartialEq, Eq, Structural)]
pub struct NativeParams {
    /// The native number of the sampling strategy.
    pub strategy: u32,
    /// How many attempts greedy sampling makes.
    pub best_of: i32,
    /// How many beams beam search keeps.
    pub beam_size: i32,
    /// The patience of beam search.
    pub patience: Float32,
    /// How many threads work.
    pub n_threads: i32,
    /// The most text carried over between segments, in tokens.
    pub n_max_text_ctx: i32,
    /// Where in the audio to start, in milliseconds.
    pub offset_ms: i32,
    /// How much audio to take, in milliseconds; 0 for all of it.
    pub duration_ms: i32,
    /// The audio context window; 0 for that of the model.
    pub audio_ctx: i32,
    /// The most tokens per attempt; 0 for no limit.
    pub max_tokens: i32,
    /// The most characters per segment.
    pub max_len: i32,
    /// Whether to translate into English.
    pub translate: bool,
    /// Whether earlier segments are kept out of the prompt.
    pub no_context: bool,
    /// Whether timestamps are left out.
    pub no_timestamps: bool,
    /// Whether to make a single segment.
    pub single_segment: bool,
    /// Whether segments end at words.
    pub split_on_word: bool,
    /// Whether tokens get timestamps.
    pub token_timestamps: bool,
    /// Whether to detect the language.
    pub detect_language: bool,
    /// Whether empty output is suppressed.
    pub suppress_blank: bool,
    /// Whether tokens that are not speech are suppressed.
    pub suppress_nst: bool,
    /// Whether special tokens are printed.
    pub print_special: bool,
    /// Whether progress is printed.
    pub print_progress: bool,
    /// Whether results are printed as they come.
    pub print_realtime: bool,
    /// Whether timestamps are printed.
    pub print_timestamps: bool,
    /// The temperature of the first attempt.
    pub temperature: Float32,
    /// The step to the temperature of the next attempt; 0 for a single one.
    pub temperature_inc: Float32,
    /// The latest start of the first segment, in seconds; 0 for no limit.
    pub max_initial_ts: Float32,
    /// The penalty on length.
    pub length_penalty: Float32,
    /// The entropy threshold.
    pub entropy_thold: Float32,
    /// The log probability threshold.
    pub logprob_thold: Float32,
    /// The threshold on the probability of no speech.
    pub no_speech_thold: Float32,
    /// The threshold on the probability of a timestamp.
    pub thold_pt: Float32,
    /// The threshold on the sum of those probabilities.
    pub thold_ptsum: Float32,
}

/// What the native library starts a run from.
#[derive(Debug)]
pub struct ParamsDefaults {
    /// The plain settings.
    pub raw: NativeParams,
    /// The language, in bytes, where there is one.
    pub language: Option<Vec<u8>>,
}

/// Tokens that the decoder is seeded with: at least one, and no more than a
/// native `int` can count.
struct Prompt {
    tokens: Room<i32>,
}

impl Prompt {
    #[verifier::type_invariant]
    spec fn countable(self) -> bool {
        0 < self.tokens@.len() <= i32::MAX
    }
}

/// The settings of one run of the model.
pub struct Params {
    raw: NativeParams,
    default_language: Option<Vec<u8>>,
    language: Option<NativeString>,
    initial_prompt: Option<NativeString>,
    prompt_tokens: Option<Prompt>,
    abort_callback: bool,
}

/// The settings that a [`Params`] holds.
pub struct ParamsView {
    /// The plain settings.
    pub raw: NativeParams,
    /// The native default language, in bytes.
    pub default_language: Option<Seq<u8>>,
    /// The language that was set.
    pub language: Option<Seq<char>>,
    /// The initial prompt that was set.
    pub initial_prompt: Option<Seq<char>>,
    /// The bytes for which memory was asked before it was copied; 0 without one.
    pub initial_prompt_asked: nat,
    /// The tokens that the decoder is seeded with.
    pub prompt_tokens: Option<Seq<i32>>,
    /// The tokens for which memory was asked before they were copied; 0 without any.
    pub prompt_tokens_asked: nat,
    /// Whether a callback may abort the run.
    pub abort_callback: bool,
}

impl ParamsView {
    /// The same settings, with other plain ones.
    pub open spec fn with_raw(self, raw: NativeParams) -> ParamsView {
        ParamsView { raw, ..self }
    }

    /// The language in force: the one that was set, or else the native default.
    pub open spec fn language_in_force(self) -> Option<Seq<char>> {
        match self.language {
            Some(language) => Some(language),
            None => native_text(self.default_language),
        }
    }

    /// Whether the language is to be found out from the audio.
    pub open spec fn auto_detects(self) -> bool {
        self.raw.detect_language || match self.language_in_force() {
            Some(language) => is_auto(language),
            None => true,
        }
    }
}

/// The characters behind an optional native string.
spec fn string_view(s: Option<NativeString>) -> Option<Seq<char>> {
    match s {
        Some(s) => Some(s@),
        None => None,
    }
}

impl View for Params {
    type V = ParamsView;

    closed spec fn view(&self) -> ParamsView {
        ParamsView {
            raw: self.raw,
            default_language: crate::context::owned_bytes(self.default_language),
            language: string_view(self.language),
            initial_prompt: string_view(self.initial_prompt),
            initial_prompt_asked: match self.initial_prompt {
                Some(prompt) => prompt.asked(),
                None => 0,
            },
            prompt_tokens: match self.prompt_tokens {
                Some(prompt) => Some(prompt.tokens@),
                None => None,
            },
            prompt_tokens_asked: match self.prompt_tokens {
                Some(prompt) => prompt.tokens.asked(),
                None => 0,
            },
            abort_callback: self.abort_callback,
        }
    }
}

/// Whether a language hint asks for the language to be found out.
pub open spec fn is_auto(hint: Seq<char>) -> bool {
    hint.len() == 0 || hint == "auto"@
}

/// Whether a language hint asks for the language to be found out.
pub(crate) fn asks_for_detection(hint: &str) -> (r: bool)
    ensures
        r == is_auto(hint@),
{
    proof {
        reveal_strlit("auto");
    }
    let n = hint.unicode_len();
    if n == 0 {
        return true;
    }
    let r = n == 4 && hint.get_char(0) == 'a' && hint.get_char(1) == 'u' && hint.get_char(2) == 't'
        && hint.get_char(3) == 'o';
    assert(r ==> hint@ =~= "auto"@);
    r
}

/// The answer to the native library on behalf of an abort callback that returned
/// `outcome`, or `None` where it panicked: a panic aborts the run.
pub fn abort_verdict(outcome: Option<bool>) -> (r: bool)
    ensures
        r == (match outcome {
            Some(abort) => abort,
            None => true,
        }),
{
    match outcome {
        Some(abort) => abort,
        None => true,
    }
}

/// The error with which a language hint is refused, if it is, where the native
/// library knows it as number `native_id`.
pub open spec fn language_refusal(hint: Seq<char>, native_id: i32) -> Option<ErrorView> {
    if byte_len(hint) > MAX_NAME_BYTES {
        Some(
            ErrorView::InputTooLong {
                head: head_chars(hint),
                len: byte_len(hint),
                cap: MAX_NAME_BYTES as nat,
            },
        )
    } else if has_nul(hint) {
        Some(ErrorView::InvalidCString { text: hint })
    } else if !is_auto(hint) && id_of_name(hint, native_id) is None {
        Some(ErrorView::UnknownLanguage { hint })
    } else {
        None
    }
}

/// The error with which an initial prompt is refused whatever memory there is, if
/// it is.
pub open spec fn prompt_refusal(prompt: Seq<char>) -> Option<ErrorView> {
    if byte_len(prompt) > MAX_PROMPT_BYTES {
        Some(
            ErrorView::InputTooLong {
                head: head_chars(prompt),
                len: byte_len(prompt),
                cap: MAX_PROMPT_BYTES as nat,
            },
        )
    } else if has_nul(prompt) {
        Some(ErrorView::InvalidCString { text: head_chars(prompt) })
    } else {
        None
    }
}

/// The error for memory that was refused for a copy.
pub open spec fn no_memory(context: &'static str) -> ErrorView {
    ErrorView::AllocationFailed { context: context@ }
}

/// What the copy of an initial prompt is called in an error.
pub const CONTEXT_INITIAL_PROMPT: &'static str = "initial_prompt";

/// What the copy of the prompt tokens is called in an error.
pub const CONTEXT_PROMPT_TOKENS: &'static str = "prompt_tokens";

/// The tokens that are kept of those that the decoder is to be seeded with.
pub open spec fn kept_tokens(tokens: Seq<i32>) -> Seq<i32> {
    if tokens.len() > i32::MAX {
        tokens.take(i32::MAX as int)
    } else {
        tokens
    }
}

impl Params {
    /// The settings for a strategy, from the native defaults for it. The numbers
    /// of attempts, beams and threads are moved into their ranges.
    pub fn new(strategy: SamplingStrategy, defaults: ParamsDefaults) -> (r: Self)
        ensures
            r@ == (ParamsView {
                raw: match strategy {
                    SamplingStrategy::Greedy { best_of } => NativeParams {
                        best_of: clamped(best_of as int, 1, MAX_BEAM_SIZE as int) as i32,
                        n_threads: clamped(
                            defaults.raw.n_threads as int,
                            1,
                            MAX_N_THREADS as int,
                        ) as i32,
                        ..defaults.raw
                    },
                    SamplingStrategy::BeamSearch { beam_size, patience } => NativeParams {
                        beam_size: clamped(beam_size as int, 1, MAX_BEAM_SIZE as int) as i32,
                        patience,
                        n_threads: clamped(
                            defaults.raw.n_threads as int,
                            1,
                            MAX_N_THREADS as int,
                        ) as i32,
                        ..defaults.raw
                    },
                },
                default_language: crate::context::owned_bytes(defaults.language),
                language: None,
                initial_prompt: None,
                initial_prompt_asked: 0,
                prompt_tokens: None,
                prompt_tokens_asked: 0,
                abort_callback: false,
            }),
    {
        let mut raw = defaults.raw;
        match strategy {
            SamplingStrategy::Greedy { best_of } => {
                raw.best_of = clamp_topk(best_of);
            },
            SamplingStrategy::BeamSearch { beam_size, patience } => {
                raw.beam_size = clamp_topk(beam_size);
                raw.patience = patience;
            },
        }
        raw.n_threads = clamp_n_threads(raw.n_threads);
        Params {
            raw,
            default_language: defaults.language,
            language: None,
            initial_prompt: None,
            prompt_tokens: None,
            abort_callback: false,
        }
    }

    /// Sets the language, which the native library knows as number `native_id`
    /// (its answer to [`lang_query`](crate::lang::lang_query)). `""` and
    /// `"auto"` ask for the language to be found out, and need not be known.
    pub fn set_language(&mut self, lang: &str, native_id: i32) -> (r: WhisperResult<&mut Self>)
        ensures
            match language_refusal(lang@, native_id) {
                Some(e) => fails_with(r, e) && *final(self) == *old(self),
                None => r matches Ok(params) && params@ == (ParamsView {
                    language: Some(lang@),
                    ..old(self)@
                }) && *final(self) == *final(params),
            },
    {
        let bytes = lang.as_bytes();
        if bytes.len() > MAX_NAME_BYTES {
            return Err(
                WhisperError::InputTooLong {
                    head: head_of(lang),
                    len: bytes.len(),
                    cap: MAX_NAME_BYTES,
                },
            );
        }
        if bytes_have_nul(bytes) {
            return Err(WhisperError::InvalidCString(smol_new(lang)));
        }
        if !asks_for_detection(lang) && lang_id_for(lang, native_id).is_none() {
            return Err(WhisperError::UnknownLanguage(smol_new(lang)));
        }
        self.language = Some(NativeString::copy(lang));
        Ok(self)
    }

    /// Sets the initial prompt, copied into `memory` where it was given in the amount
    /// that the native form of the prompt takes.
    pub fn set_initial_prompt_in(&mut self, prompt: &str, memory: Option<Room<u8>>) -> (r:
        WhisperResult<&mut Self>)
        ensures
            match prompt_refusal(prompt@) {
                Some(e) => fails_with(r, e) && *final(self) == *old(self),
                None => match memory {
                    Some(m) if byte_len(prompt@) < m.asked() => r matches Ok(params) && params@ == (
                    ParamsView {
                        initial_prompt: Some(prompt@),
                        initial_prompt_asked: m.asked(),
                        ..old(self)@
                    }) && *final(self) == *final(params),
                    _ => fails_with(r, no_memory(CONTEXT_INITIAL_PROMPT)) && *final(self) == *old(
                        self,
                    ),
                },
            },
    {
        let bytes = prompt.as_bytes();
        if bytes.len() > MAX_PROMPT_BYTES {
            return Err(
                WhisperError::InputTooLong {
                    head: head_of(prompt),
                    len: bytes.len(),
                    cap: MAX_PROMPT_BYTES,
                },
            );
        }
        if bytes_have_nul(bytes) {
            return Err(WhisperError::InvalidCString(head_of(prompt)));
        }
        match native_copy(prompt, memory) {
            Some(copy) => {
                self.initial_prompt = Some(copy);
                Ok(self)
            },
            None => Err(WhisperError::AllocationFailed { context: CONTEXT_INITIAL_PROMPT }),
        }
    }

    /// Sets the initial prompt. Memory for it is asked for beforehand, in the amount
    /// that its native form takes, and a refusal is reported.
    pub fn set_initial_prompt(&mut self, prompt: &str) -> (r: WhisperResult<&mut Self>)
        ensures
            match prompt_refusal(prompt@) {
                Some(e) => fails_with(r, e) && *final(self) == *old(self),
                None => {
                    ||| fails_with(r, no_memory(CONTEXT_INITIAL_PROMPT)) && *final(self) == *old(
                        self,
                    ) && refused::<u8>(byte_len(prompt@) + 1)
                    ||| r matches Ok(params) && params@ == (ParamsView {
                        initial_prompt: Some(prompt@),
                        initial_prompt_asked: byte_len(prompt@) + 1,
                        ..old(self)@
                    }) && *final(self) == *final(params)
                },
            },
    {
        let memory = if prompt.as_bytes().len() > MAX_PROMPT_BYTES {
            None
        } else {
            room_for(prompt)
        };
        self.set_initial_prompt_in(prompt, memory)
    }

    /// Seeds the decoder with tokens, copied into `memory` where it was given in the
    /// amount that they take. An empty slice takes an earlier seed away.
    pub fn set_tokens_in(&mut self, tokens: &[i32], memory: Option<Room<i32>>) -> (r:
        WhisperResult<&mut Self>)
        ensures
            if tokens@.len() == 0 {
                r matches Ok(params) && params@ == (ParamsView {
                    prompt_tokens: None,
                    prompt_tokens_asked: 0,
                    ..old(self)@
                }) && *final(self) == *final(params)
            } else {
                match memory {
                    Some(m) if kept_tokens(tokens@).len() <= m.asked() => r matches Ok(params)
                        && params@ == (ParamsView {
                        prompt_tokens: Some(kept_tokens(tokens@)),
                        prompt_tokens_asked: m.asked(),
                        ..old(self)@
                    }) && *final(self) == *final(params),
                    _ => fails_with(r, no_memory(CONTEXT_PROMPT_TOKENS)) && *final(self) == *old(
                        self,
                    ),
                }
            },
    {
        if tokens.len() == 0 {
            self.prompt_tokens = None;
            return Ok(self);
        }
        let n = countable(tokens.len());
        match memory {
            Some(memory) => {
                if memory.asked_for() < n {
                    return Err(WhisperError::AllocationFailed { context: CONTEXT_PROMPT_TOKENS });
                }
                let mut owned = memory;
                owned.clear();
                let kept = slice_subrange(tokens, 0, n);
                owned.extend(kept);
                assert(owned@ =~= kept_tokens(tokens@));
                self.prompt_tokens = Some(Prompt { tokens: owned });
                Ok(self)
            },
            None => Err(WhisperError::AllocationFailed { context: CONTEXT_PROMPT_TOKENS }),
        }
    }

    /// Seeds the decoder with tokens. An empty slice takes an earlier seed away.
    /// Tokens beyond the most that a native `int` can count are left out. Memory for
    /// the others is asked for beforehand, in the amount that they take, and a
    /// refusal is reported.
    pub fn set_tokens(&mut self, tokens: &[i32]) -> (r: WhisperResult<&mut Self>)
        ensures
            if tokens@.len() == 0 {
                r matches Ok(params) && params@ == (ParamsView {
                    prompt_tokens: None,
                    prompt_tokens_asked: 0,
                    ..old(self)@
                }) && *final(self) == *final(params)
            } else {
                ||| fails_with(r, no_memory(CONTEXT_PROMPT_TOKENS)) && *final(self) == *old(self)
                    && refused::<i32>(kept_tokens(tokens@).len())
                ||| r matches Ok(params) && params@ == (ParamsView {
                    prompt_tokens: Some(kept_tokens(tokens@)),
                    prompt_tokens_asked: kept_tokens(tokens@).len(),
                    ..old(self)@
                }) && *final(self) == *final(params)
            },
    {
        let memory = if tokens.len() == 0 {
            None
        } else {
            with_room(countable(tokens.len()))
        };
        self.set_tokens_in(tokens, memory)
    }

    /// Notes that a callback may abort the run.
    pub fn set_abort_callback(&mut self) -> (r: &mut Self)
        ensures
            r@ == (ParamsView { abort_callback: true, ..old(self)@ }),
            *final(self) == *final(r),
    {
        self.abort_callback = true;
        self
    }

    /// Whether a callback may abort the run.
    pub fn has_abort_callback(&self) -> (r: bool)
        ensures
            r == self@.abort_callback,
    {
        self.abort_callback
    }

    /// Sets whether the language is found out from the audio, whatever hint is set.
    pub fn set_detect_language(&mut self, on: bool) -> (r: &mut Self)
        ensures
            r@ == old(self)@.with_raw(NativeParams { detect_language: on, ..old(self)@.raw }),
            *final(self) == *final(r),
    {
        self.raw.detect_language = on;
        self
    }

    /// Sets the number of threads, moved into the range up to [`MAX_N_THREADS`].
    pub fn set_n_threads(&mut self, n: i32) -> (r: &mut Self)
        ensures
            r@ == old(self)@.with_raw(
                NativeParams {
                    n_threads: clamped(n as int, 1, MAX_N_THREADS as int) as i32,
                    ..old(self)@.raw
                },
            ),
            *final(self) == *final(r),
    {
        self.raw.n_threads = clamp_n_threads(n);
        self
    }

    /// Sets the number of threads, at least 1. Where the host cannot start that many,
    /// the process may end.
    pub fn set_n_threads_unchecked(&mut self, n: i32) -> (r: &mut Self)
        ensures
            r@ == old(self)@.with_raw(
                NativeParams {
                    n_threads: if n < 1 {
                        1
                    } else {
                        n
                    },
                    ..old(self)@.raw
                },
            ),
            *final(self) == *final(r),
    {
        self.raw.n_threads = if n < 1 {
            1
        } else {
            n
        };
        self
    }

    /// Sets the number of beams, at least 1, beyond [`MAX_BEAM_SIZE`] too.
    pub fn set_beam_size_unchecked(&mut self, n: i32) -> (r: &mut Self)
        ensures
            r@ == old(self)@.with_raw(
                NativeParams {
                    beam_size: if n < 1 {
                        1
                    } else {
                        n
                    },
                    ..old(self)@.raw
                },
            ),
            *final(self) == *final(r),
    {
        self.raw.beam_size = if n < 1 {
            1
        } else {
            n
        };
        self
    }

    /// Sets the number of attempts, at least 1, beyond [`MAX_BEAM_SIZE`] too.
    pub fn set_best_of_unchecked(&mut self, n: i32) -> (r: &mut Self)
        ensures
            r@ == old(self)@.with_raw(
                NativeParams {
                    best_of: if n < 1 {
                        1
                    } else {
                        n
                    },
                    ..old(self)@.raw
                },
            ),
            *final(self) == *final(r),
    {
        self.raw.best_of = if n < 1 {
            1
        } else {
            n
        };
        self
    }

    /// Sets whether earlier segments are kept out of the prompt.
    pub fn set_no_context(&mut self, on: bool) -> (r: &mut Self)
        ensures
            r@ == old(self)@.with_raw(NativeParams { no_context: on, ..old(self)@.raw }),
            *final(self) == *final(r),
    {
        self.raw.no_context = on;
        self
    }

    /// Sets the threshold on the probability of no speech.
    pub fn set_no_speech_thold(&mut self, t: Float32) -> (r: &mut Self)
        ensures
            r@ == old(self)@.with_raw(NativeParams { no_speech_thold: t, ..old(self)@.raw }),
            *final(self) == *final(r),
    {
        self.raw.no_speech_thold = t;
        self
    }

    /// Sets the temperature, from zero to one.
    pub fn set_temperature(&mut self, t: Float32) -> (r: &mut Self)
        ensures
            r@ == old(self)@.with_raw(
                NativeParams {
                    temperature: up_to(t, from_bits(MAX_TEMPERATURE_BITS)),
                    ..old(self)@.raw
                },
            ),
            *final(self) == *final(r),
    {
        self.raw.temperature = clamp_temperature(t);
        self
    }

    /// Sets the temperature step: zero for a single attempt, or from a thousandth to
    /// one. A larger step, plus infinity too, becomes one; a smaller one, a negative
    /// one and what is no number become zero.
    pub fn set_temperature_inc(&mut self, inc: Float32) -> (r: &mut Self)
        ensures
            r@ == old(self)@.with_raw(
                NativeParams {
                    temperature_inc: zero_or_within(
                        inc,
                        from_bits(MIN_TEMPERATURE_INC_BITS),
                        from_bits(MAX_TEMPERATURE_INC_BITS),
                    ),
                    ..old(self)@.raw
                },
            ),
            *final(self) == *final(r),
    {
        self.raw.temperature_inc = clamp_temperature_inc(inc);
        self
    }

    /// Sets whether empty output is suppressed.
    pub fn set_suppress_blank(&mut self, on: bool) -> (r: &mut Self)
        ensures
            r@ == old(self)@.with_raw(NativeParams { suppress_blank: on, ..old(self)@.raw }),
            *final(self) == *final(r),
    {
        self.raw.suppress_blank = on;
        self
    }

    /// Sets whether tokens that are not speech are suppressed.
    pub fn set_suppress_nst(&mut self, on: bool) -> (r: &mut Self)
        ensures
            r@ == old(self)@.with_raw(NativeParams { suppress_nst: on, ..old(self)@.raw }),
            *final(self) == *final(r),
    {
        self.raw.suppress_nst = on;
        self
    }

    /// Switches everything off that the native library would print.
    pub fn silence_print_toggles(&mut self) -> (r: &mut Self)
        ensures
            r@ == old(self)@.with_raw(
                NativeParams {
                    print_special: false,
                    print_progress: false,
                    print_realtime: false,
                    print_timestamps: false,
                    ..old(self)@.raw
                },
            ),
            *final(self) == *final(r),
    {
        self.raw.print_special = false;
        self.raw.print_progress = false;
        self.raw.print_realtime = false;
        self.raw.print_timestamps = false;
        self
    }

    /// Sets where in the audio to start, in milliseconds, not before its beginning.
    pub fn set_offset_ms(&mut self, ms: i32) -> (r: &mut Self)
        ensures
            r@ == old(self)@.with_raw(
                NativeParams {
                    offset_ms: if ms < 0 {
                        0
                    } else {
                        ms
                    },
                    ..old(self)@.raw
                },
            ),
            *final(self) == *final(r),
    {
        self.raw.offset_ms = if ms < 0 {
            0
        } else {
            ms
        };
        self
    }

    /// Sets how much audio to take, in milliseconds; 0 for all of it.
    pub fn set_duration_ms(&mut self, ms: i32) -> (r: &mut Self)
        ensures
            r@ == old(self)@.with_raw(NativeParams { duration_ms: ms, ..old(self)@.raw }),
            *final(self) == *final(r),
    {
        self.raw.duration_ms = ms;
        self
    }

    /// Sets the audio context window; 0 for that of the model.
    pub fn set_audio_ctx(&mut self, n: i32) -> (r: &mut Self)
        ensures
            r@ == old(self)@.with_raw(NativeParams { audio_ctx: n, ..old(self)@.raw }),
            *final(self) == *final(r),
    {
        self.raw.audio_ctx = n;
        self
    }

    /// Sets the most tokens per attempt; 0 for no limit.
    pub fn set_max_tokens(&mut self, n: i32) -> (r: &mut Self)
        ensures
            r@ == old(self)@.with_raw(NativeParams { max_tokens: n, ..old(self)@.raw }),
            *final(self) == *final(r),
    {
        self.raw.max_tokens = n;
        self
    }

    /// Sets the most characters per segment.
    pub fn set_max_len(&mut self, n: i32) -> (r: &mut Self)
        ensures
            r@ == old(self)@.with_raw(NativeParams { max_len: n, ..old(self)@.raw }),
            *final(self) == *final(r),
    {
        self.raw.max_len = n;
        self
    }

    /// Sets the latest start of the first segment, from zero to 30 seconds; zero for no
    /// limit.
    pub fn set_max_initial_ts(&mut self, t: Float32) -> (r: &mut Self)
        ensures
            r@ == old(self)@.with_raw(
                NativeParams {
                    max_initial_ts: up_to(t, from_bits(MAX_INITIAL_TS_S_BITS)),
                    ..old(self)@.raw
                },
            ),
            *final(self) == *final(r),
    {
        self.raw.max_initial_ts = clamp_max_initial_ts(t);
        self
    }

    /// Sets the most text carried over between segments, in tokens.
    pub fn set_n_max_text_ctx(&mut self, n: i32) -> (r: &mut Self)
        ensures
            r@ == old(self)@.with_raw(NativeParams { n_max_text_ctx: n, ..old(self)@.raw }),
            *final(self) == *final(r),
    {
        self.raw.n_max_text_ctx = n;
        self
    }

    /// Sets whether to make a single segment.
    pub fn set_single_segment(&mut self, on: bool) -> (r: &mut Self)
        ensures
            r@ == old(self)@.with_raw(NativeParams { single_segment: on, ..old(self)@.raw }),
            *final(self) == *final(r),
    {
        self.raw.single_segment = on;
        self
    }

    /// Sets the log probability threshold.
    pub fn set_logprob_thold(&mut self, t: Float32) -> (r: &mut Self)
        ensures
            r@ == old(self)@.with_raw(NativeParams { logprob_thold: t, ..old(self)@.raw }),
            *final(self) == *final(r),
    {
        self.raw.logprob_thold = t;
        self
    }

    /// Sets the entropy threshold.
    pub fn set_entropy_thold(&mut self, t: Float32) -> (r: &mut Self)
        ensures
            r@ == old(self)@.with_raw(NativeParams { entropy_thold: t, ..old(self)@.raw }),
            *final(self) == *final(r),
    {
        self.raw.entropy_thold = t;
        self
    }

    /// Sets the threshold on the probability of a timestamp.
    pub fn set_thold_pt(&mut self, t: Float32) -> (r: &mut Self)
        ensures
            r@ == old(self)@.with_raw(NativeParams { thold_pt: t, ..old(self)@.raw }),
            *final(self) == *final(r),
    {
        self.raw.thold_pt = t;
        self
    }

    /// Sets the threshold on the sum of those probabilities.
    pub fn set_thold_ptsum(&mut self, t: Float32) -> (r: &mut Self)
        ensures
            r@ == old(self)@.with_raw(NativeParams { thold_ptsum: t, ..old(self)@.raw }),
            *final(self) == *final(r),
    {
        self.raw.thold_ptsum = t;
        self
    }

    /// Sets the penalty on length.
    pub fn set_length_penalty(&mut self, p: Float32) -> (r: &mut Self)
        ensures
            r@ == old(self)@.with_raw(NativeParams { length_penalty: p, ..old(self)@.raw }),
            *final(self) == *final(r),
    {
        self.raw.length_penalty = p;
        self
    }

    /// Sets whether timestamps are left out.
    pub fn set_no_timestamps(&mut self, on: bool) -> (r: &mut Self)
        ensures
            r@ == old(self)@.with_raw(NativeParams { no_timestamps: on, ..old(self)@.raw }),
            *final(self) == *final(r),
    {
        self.raw.no_timestamps = on;
        self
    }

    /// Sets whether segments end at words.
    pub fn set_split_on_word(&mut self, on: bool) -> (r: &mut Self)
        ensures
            r@ == old(self)@.with_raw(NativeParams { split_on_word: on, ..old(self)@.raw }),
            *final(self) == *final(r),
    {
        self.raw.split_on_word = on;
        self
    }

    /// Sets whether tokens get timestamps.
    pub fn set_token_timestamps(&mut self, on: bool) -> (r: &mut Self)
        ensures
            r@ == old(self)@.with_raw(NativeParams { token_timestamps: on, ..old(self)@.raw }),
            *final(self) == *final(r),
    {
        self.raw.token_timestamps = on;
        self
    }

    /// Sets whether to translate into English.
    pub fn set_translate(&mut self, on: bool) -> (r: &mut Self)
        ensures
            r@ == old(self)@.with_raw(NativeParams { translate: on, ..old(self)@.raw }),
            *final(self) == *final(r),
    {
        self.raw.translate = on;
        self
    }

    /// The plain settings.
    pub fn raw(&self) -> (r: NativeParams)
        ensures
            r == self@.raw,
    {
        self.raw
    }

    /// The language in force; `None` where none was set and the native default is
    /// none, or is not UTF-8.
    pub fn language(&self) -> (r: Option<&str>)
        ensures
            str_view(r) == self@.language_in_force(),
    {
        match &self.language {
            Some(language) => Some(language.as_str()),
            None => utf8_or_none(crate::context::borrow_bytes(&self.default_language)),
        }
    }

    /// Whether the language is found out from the audio, whatever hint is set.
    pub fn detect_language(&self) -> (r: bool)
        ensures
            r == self@.raw.detect_language,
    {
        self.raw.detect_language
    }

    /// Where in the audio to start, in milliseconds.
    pub fn offset_ms(&self) -> (r: i32)
        ensures
            r == self@.raw.offset_ms,
    {
        self.raw.offset_ms
    }

    /// How much audio to take, in milliseconds; 0 for all of it.
    pub fn duration_ms(&self) -> (r: i32)
        ensures
            r == self@.raw.duration_ms,
    {
        self.raw.duration_ms
    }

    /// The language that was set, as the native library takes it.
    pub fn native_language(&self) -> (r: Option<&NativeString>)
        ensures
            (match r {
                Some(language) => Some(language@),
                None => None,
            }) == self@.language,
    {
        match &self.language {
            Some(language) => Some(language),
            None => None,
        }
    }

    /// The initial prompt that was set, as the native library takes it.
    pub fn native_initial_prompt(&self) -> (r: Option<&NativeString>)
        ensures
            (match r {
                Some(prompt) => Some(prompt@),
                None => None,
            }) == self@.initial_prompt,
    {
        match &self.initial_prompt {
            Some(prompt) => Some(prompt),
            None => None,
        }
    }

    /// The tokens that the decoder is seeded with. There is at least one, and no
    /// more than a native `int` can count.
    pub fn prompt_tokens(&self) -> (r: Option<&[i32]>)
        ensures
            (match r {
                Some(tokens) => Some(tokens@),
                None => None,
            }) == self@.prompt_tokens,
            r matches Some(tokens) ==> 0 < tokens@.len() <= i32::MAX,
    {
        match &self.prompt_tokens {
            Some(prompt) => {
                proof {
                    use_type_invariant(prompt);
                }
                Some(prompt.tokens.as_slice())
            },
            None => None,
        }
    }
}

/// A length, or the most that a native `int` can count.
fn countable(n: usize) -> (r: usize)
    ensures
        r == (if n > i32::MAX {
            i32::MAX as int
        } else {
            n as int
        }),
{
    if n > i32::MAX as usize {
        i32::MAX as usize
    } else {
        n
    }
}

/// Numbers of attempts, beams and threads are moved into their ranges once: a
/// second time changes nothing.
pub proof fn law_clamping_is_idempotent(n: int, lo: int, hi: int)
    requires
        lo <= hi,
    ensures
        lo <= clamped(n, lo, hi) <= hi,
        clamped(clamped(n, lo, hi), lo, hi) == clamped(n, lo, hi),
{
}

/// What is passed on of a temperature, a temperature step or a start of the first
/// segment is finite, not negative, and not above its bound; a step is zero or
/// large enough for the native loop over temperatures to advance.
pub proof fn law_floats_passed_on_are_bounded(t: Float32)
    ensures
        up_to(t, from_bits(MAX_TEMPERATURE_BITS)).is_finite(),
        0 <= up_to(t, from_bits(MAX_TEMPERATURE_BITS)).units() <= pow2(149),
        up_to(t, from_bits(MAX_INITIAL_TS_S_BITS)).is_finite(),
        0 <= up_to(t, from_bits(MAX_INITIAL_TS_S_BITS)).units() <= 30 * pow2(149),
        ({
            let step = zero_or_within(
                t,
                from_bits(MIN_TEMPERATURE_INC_BITS),
                from_bits(MAX_TEMPERATURE_INC_BITS),
            );
            &&& step.is_finite()
            &&& step.units() == 0 || from_bits(MIN_TEMPERATURE_INC_BITS).units() <= step.units()
                <= pow2(149)
        }),
{
    law_float_bounds();
}

/// The bounds are the numbers 1, 30 and, to the nearest that there is, a
/// thousandth.
pub proof fn law_float_bounds()
    ensures
        from_bits(MAX_TEMPERATURE_BITS).units() == pow2(149),
        from_bits(MAX_TEMPERATURE_INC_BITS).units() == pow2(149),
        from_bits(MAX_INITIAL_TS_S_BITS).units() == 30 * pow2(149),
        from_bits(MIN_TEMPERATURE_INC_BITS).units() == 0x83_126F * pow2(116),
        -500 * pow2(116) < 1000 * from_bits(MIN_TEMPERATURE_INC_BITS).units() - pow2(149)
            < 500 * pow2(116),
{
    lemma2_to64();
    lemma_pow2_adds(23, 126);
    lemma_pow2_adds(19, 130);
    lemma_pow2_adds(32, 1);
    lemma_pow2_adds(33, 116);
    lemma_pow2_pos(116);
    let p = pow2(130) as int;
    let q = pow2(116) as int;
    assert(pow2(149) == 0x8_0000 * p);
    assert(pow2(149) == 0x2_0000_0000 * q);
    assert(from_bits(MAX_INITIAL_TS_S_BITS).units() == 0xF0_0000 * p);
}

} // verus!

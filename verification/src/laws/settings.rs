//! The settings of a run: what is kept of what was set, and what is refused.

use crate::error::{WhisperError, WhisperResult};
use crate::float32::{
    from_bits, law_numbers_are_ordered_as_their_bits, law_what_is_not_finite, Float32,
};
use crate::params::{
    abort_verdict, clamp_max_initial_ts, clamp_n_threads, clamp_temperature, clamp_temperature_inc,
    clamp_topk, NativeParams, Params, ParamsDefaults, ParamsView, SamplingStrategy,
};
use crate::room::{refused, Room};
use crate::text::{law_nul_is_a_character, smol_chars, NativeString};
use vstd::prelude::*;
use vstd::utf8::{encode_utf8, valid_utf8};

verus! {

/// Seed tokens are kept whole and in their order, as many as a native `int` counts;
/// beyond that, the first of them. None takes an earlier seed away. They are refused
/// only where the memory for them is, and then nothing changes. No other setting
/// changes.
pub proof fn law_a_seed_is_kept_whole(
    p: &mut Params,
    tokens: &[i32],
    r: WhisperResult<&mut Params>,
)
    requires
        call_ensures(Params::set_tokens, (p, tokens), r),
    ensures
        r is Err ==> tokens@.len() > 0 && refused::<i32>(
            if tokens@.len() <= 2147483647 {
                tokens@.len()
            } else {
                2147483647
            },
        ),
        r matches Err(e) ==> *final(p) == *old(p) && (e matches WhisperError::AllocationFailed {
            context,
        } && context@ == "prompt_tokens"@),
        r matches Ok(q) ==> *final(p) == *final(q) && q@ == (ParamsView {
            prompt_tokens: if tokens@.len() == 0 {
                None
            } else if tokens@.len() <= 2147483647 {
                Some(tokens@)
            } else {
                Some(tokens@.take(2147483647))
            },
            prompt_tokens_asked: if tokens@.len() <= 2147483647 {
                tokens@.len()
            } else {
                2147483647
            },
            ..old(p)@
        }),
{
}

/// With memory at hand for all of the tokens, a seed is kept whole and in its order.
pub proof fn law_a_seed_with_memory_is_kept_whole(
    p: &mut Params,
    tokens: &[i32],
    memory: Option<Room<i32>>,
    r: WhisperResult<&mut Params>,
)
    requires
        call_ensures(Params::set_tokens_in, (p, tokens, memory), r),
        0 < tokens@.len() <= 2147483647,
    ensures
        r is Ok <==> memory is Some && tokens@.len() <= memory->0.asked(),
        r is Err ==> *final(p) == *old(p),
        r matches Ok(q) ==> *final(p) == *final(q) && q@ == (ParamsView {
            prompt_tokens: Some(tokens@),
            prompt_tokens_asked: memory->0.asked(),
            ..old(p)@
        }),
{
}

/// An initial prompt of at most 1 MiB without NUL is kept as it is, unless the memory
/// for its bytes and one more is refused. A longer one is refused with its length and
/// its first characters, 64 at most; one with a NUL with its first characters. A
/// refusal changes nothing, and no other setting changes.
pub proof fn law_a_prompt_is_kept_whole(
    p: &mut Params,
    prompt: &str,
    r: WhisperResult<&mut Params>,
)
    requires
        call_ensures(Params::set_initial_prompt, (p, prompt), r),
    ensures
        r is Err ==> *final(p) == *old(p),
        r matches Ok(q) ==> *final(p) == *final(q) && q@ == (ParamsView {
            initial_prompt: Some(prompt@),
            initial_prompt_asked: encode_utf8(prompt@).len() + 1,
            ..old(p)@
        }),
        encode_utf8(prompt@).len() > 1048576 ==> {
            &&& r matches Err(WhisperError::InputTooLong { head, len, cap })
            &&& len == encode_utf8(prompt@).len()
            &&& cap == 1048576
            &&& smol_chars(head) == prompt@.take(smol_chars(head).len() as int)
            &&& smol_chars(head).len() == 64 || smol_chars(head) == prompt@
            &&& smol_chars(head).len() <= 64
        },
        encode_utf8(prompt@).len() <= 1048576 && prompt@.contains('\0') ==> {
            &&& r matches Err(WhisperError::InvalidCString(head))
            &&& smol_chars(head) == prompt@.take(smol_chars(head).len() as int)
            &&& smol_chars(head).len() == 64 || smol_chars(head) == prompt@
            &&& smol_chars(head).len() <= 64
        },
        encode_utf8(prompt@).len() <= 1048576 && !prompt@.contains('\0') ==> {
            ||| r is Ok
            ||| {
                &&& r matches Err(WhisperError::AllocationFailed { context })
                &&& context@ == "initial_prompt"@
                &&& refused::<u8>(encode_utf8(prompt@).len() + 1)
            }
        },
{
    law_nul_is_a_character(prompt@);
    assert(prompt@.take(prompt@.len() as int) =~= prompt@);
}

/// With memory at hand for its bytes and one more, a prompt of at most 1 MiB without
/// NUL is kept as it is.
pub proof fn law_a_prompt_with_memory_is_kept_whole(
    p: &mut Params,
    prompt: &str,
    memory: Option<Room<u8>>,
    r: WhisperResult<&mut Params>,
)
    requires
        call_ensures(Params::set_initial_prompt_in, (p, prompt, memory), r),
    ensures
        r is Ok <==> encode_utf8(prompt@).len() <= 1048576 && !prompt@.contains('\0')
            && memory is Some && encode_utf8(prompt@).len() < memory->0.asked(),
        r is Err ==> *final(p) == *old(p),
        r matches Ok(q) ==> *final(p) == *final(q) && q@ == (ParamsView {
            initial_prompt: Some(prompt@),
            initial_prompt_asked: memory->0.asked(),
            ..old(p)@
        }),
{
    law_nul_is_a_character(prompt@);
}

/// A language is kept as it is spelled where it has at most 32 bytes and no NUL, and
/// the native library knows it or it asks for the language to be found out. Each
/// refusal says what is wrong and changes nothing; no other setting changes.
pub proof fn law_a_language_is_kept(
    p: &mut Params,
    lang: &str,
    native_id: i32,
    r: WhisperResult<&mut Params>,
)
    requires
        call_ensures(Params::set_language, (p, lang, native_id), r),
    ensures
        r is Err ==> *final(p) == *old(p),
        r matches Ok(q) ==> *final(p) == *final(q) && q@ == (ParamsView {
            language: Some(lang@),
            ..old(p)@
        }),
        if encode_utf8(lang@).len() > 32 {
            &&& r matches Err(WhisperError::InputTooLong { head, len, cap })
            &&& len == encode_utf8(lang@).len()
            &&& cap == 32
            &&& smol_chars(head) == lang@.take(smol_chars(head).len() as int)
            &&& smol_chars(head).len() == 64 || smol_chars(head) == lang@
            &&& smol_chars(head).len() <= 64
        } else if lang@.contains('\0') {
            r matches Err(WhisperError::InvalidCString(text)) && smol_chars(text) == lang@
        } else if lang@.len() > 0 && lang@ != "auto"@ && native_id < 0 {
            r matches Err(WhisperError::UnknownLanguage(hint)) && smol_chars(hint) == lang@
        } else {
            r is Ok
        },
{
    law_nul_is_a_character(lang@);
    assert(lang@.take(lang@.len() as int) =~= lang@);
}

/// A switch is set as it is given, and no other setting changes.
pub proof fn law_switches_are_kept(p: &mut Params, on: bool, q: &mut Params)
    ensures
        call_ensures(Params::set_detect_language, (p, on), q) ==> old(q)@ == (ParamsView {
            raw: NativeParams { detect_language: on, ..old(p)@.raw },
            ..old(p)@
        }) && *final(p) == *final(q),
        call_ensures(Params::set_no_context, (p, on), q) ==> old(q)@ == (ParamsView {
            raw: NativeParams { no_context: on, ..old(p)@.raw },
            ..old(p)@
        }) && *final(p) == *final(q),
        call_ensures(Params::set_suppress_blank, (p, on), q) ==> old(q)@ == (ParamsView {
            raw: NativeParams { suppress_blank: on, ..old(p)@.raw },
            ..old(p)@
        }) && *final(p) == *final(q),
        call_ensures(Params::set_suppress_nst, (p, on), q) ==> old(q)@ == (ParamsView {
            raw: NativeParams { suppress_nst: on, ..old(p)@.raw },
            ..old(p)@
        }) && *final(p) == *final(q),
        call_ensures(Params::set_single_segment, (p, on), q) ==> old(q)@ == (ParamsView {
            raw: NativeParams { single_segment: on, ..old(p)@.raw },
            ..old(p)@
        }) && *final(p) == *final(q),
        call_ensures(Params::set_no_timestamps, (p, on), q) ==> old(q)@ == (ParamsView {
            raw: NativeParams { no_timestamps: on, ..old(p)@.raw },
            ..old(p)@
        }) && *final(p) == *final(q),
        call_ensures(Params::set_split_on_word, (p, on), q) ==> old(q)@ == (ParamsView {
            raw: NativeParams { split_on_word: on, ..old(p)@.raw },
            ..old(p)@
        }) && *final(p) == *final(q),
        call_ensures(Params::set_token_timestamps, (p, on), q) ==> old(q)@ == (ParamsView {
            raw: NativeParams { token_timestamps: on, ..old(p)@.raw },
            ..old(p)@
        }) && *final(p) == *final(q),
        call_ensures(Params::set_translate, (p, on), q) ==> old(q)@ == (ParamsView {
            raw: NativeParams { translate: on, ..old(p)@.raw },
            ..old(p)@
        }) && *final(p) == *final(q),
        call_ensures(Params::silence_print_toggles, (p,), q) ==> old(q)@ == (ParamsView {
            raw: NativeParams {
                print_special: false,
                print_progress: false,
                print_realtime: false,
                print_timestamps: false,
                ..old(p)@.raw
            },
            ..old(p)@
        }) && *final(p) == *final(q),
        call_ensures(Params::set_abort_callback, (p,), q) ==> old(q)@ == (ParamsView {
            abort_callback: true,
            ..old(p)@
        }) && *final(p) == *final(q),
{
}

/// A number is set as it is given, and no other setting changes. Where it counts
/// threads, beams or attempts without a bound, it is 1 at least; an offset is 0 at
/// least; and with a bound there is one thread.
pub proof fn law_numbers_are_kept(p: &mut Params, n: i32, at_least_one: i32, q: &mut Params)
    requires
        n >= 1 ==> at_least_one == n,
        n < 1 ==> at_least_one == 1,
    ensures
        call_ensures(Params::set_duration_ms, (p, n), q) ==> old(q)@ == (ParamsView {
            raw: NativeParams { duration_ms: n, ..old(p)@.raw },
            ..old(p)@
        }) && *final(p) == *final(q),
        call_ensures(Params::set_audio_ctx, (p, n), q) ==> old(q)@ == (ParamsView {
            raw: NativeParams { audio_ctx: n, ..old(p)@.raw },
            ..old(p)@
        }) && *final(p) == *final(q),
        call_ensures(Params::set_max_tokens, (p, n), q) ==> old(q)@ == (ParamsView {
            raw: NativeParams { max_tokens: n, ..old(p)@.raw },
            ..old(p)@
        }) && *final(p) == *final(q),
        call_ensures(Params::set_max_len, (p, n), q) ==> old(q)@ == (ParamsView {
            raw: NativeParams { max_len: n, ..old(p)@.raw },
            ..old(p)@
        }) && *final(p) == *final(q),
        call_ensures(Params::set_n_max_text_ctx, (p, n), q) ==> old(q)@ == (ParamsView {
            raw: NativeParams { n_max_text_ctx: n, ..old(p)@.raw },
            ..old(p)@
        }) && *final(p) == *final(q),
        call_ensures(Params::set_n_threads_unchecked, (p, n), q) ==> old(q)@ == (ParamsView {
            raw: NativeParams { n_threads: at_least_one, ..old(p)@.raw },
            ..old(p)@
        }) && *final(p) == *final(q),
        call_ensures(Params::set_beam_size_unchecked, (p, n), q) ==> old(q)@ == (ParamsView {
            raw: NativeParams { beam_size: at_least_one, ..old(p)@.raw },
            ..old(p)@
        }) && *final(p) == *final(q),
        call_ensures(Params::set_best_of_unchecked, (p, n), q) ==> old(q)@ == (ParamsView {
            raw: NativeParams { best_of: at_least_one, ..old(p)@.raw },
            ..old(p)@
        }) && *final(p) == *final(q),
        call_ensures(Params::set_n_threads, (p, n), q) ==> old(q)@ == (ParamsView {
            raw: NativeParams { n_threads: 1, ..old(p)@.raw },
            ..old(p)@
        }) && *final(p) == *final(q),
        call_ensures(Params::set_offset_ms, (p, n), q) ==> old(q)@ == (ParamsView {
            raw: NativeParams {
                offset_ms: if n >= 0 {
                    n
                } else {
                    0
                },
                ..old(p)@.raw
            },
            ..old(p)@
        }) && *final(p) == *final(q),
{
}

/// A threshold or a penalty is set as it is given, and no other setting changes. A
/// temperature, its step and the start of the first segment are moved into their
/// ranges first.
pub proof fn law_fractions_are_kept(
    p: &mut Params,
    t: Float32,
    temperature: Float32,
    step: Float32,
    start: Float32,
    q: &mut Params,
)
    requires
        call_ensures(clamp_temperature, (t,), temperature),
        call_ensures(clamp_temperature_inc, (t,), step),
        call_ensures(clamp_max_initial_ts, (t,), start),
    ensures
        call_ensures(Params::set_no_speech_thold, (p, t), q) ==> old(q)@ == (ParamsView {
            raw: NativeParams { no_speech_thold: t, ..old(p)@.raw },
            ..old(p)@
        }) && *final(p) == *final(q),
        call_ensures(Params::set_logprob_thold, (p, t), q) ==> old(q)@ == (ParamsView {
            raw: NativeParams { logprob_thold: t, ..old(p)@.raw },
            ..old(p)@
        }) && *final(p) == *final(q),
        call_ensures(Params::set_entropy_thold, (p, t), q) ==> old(q)@ == (ParamsView {
            raw: NativeParams { entropy_thold: t, ..old(p)@.raw },
            ..old(p)@
        }) && *final(p) == *final(q),
        call_ensures(Params::set_thold_pt, (p, t), q) ==> old(q)@ == (ParamsView {
            raw: NativeParams { thold_pt: t, ..old(p)@.raw },
            ..old(p)@
        }) && *final(p) == *final(q),
        call_ensures(Params::set_thold_ptsum, (p, t), q) ==> old(q)@ == (ParamsView {
            raw: NativeParams { thold_ptsum: t, ..old(p)@.raw },
            ..old(p)@
        }) && *final(p) == *final(q),
        call_ensures(Params::set_length_penalty, (p, t), q) ==> old(q)@ == (ParamsView {
            raw: NativeParams { length_penalty: t, ..old(p)@.raw },
            ..old(p)@
        }) && *final(p) == *final(q),
        call_ensures(Params::set_temperature, (p, t), q) ==> old(q)@ == (ParamsView {
            raw: NativeParams { temperature, ..old(p)@.raw },
            ..old(p)@
        }) && *final(p) == *final(q),
        call_ensures(Params::set_temperature_inc, (p, t), q) ==> old(q)@ == (ParamsView {
            raw: NativeParams { temperature_inc: step, ..old(p)@.raw },
            ..old(p)@
        }) && *final(p) == *final(q),
        call_ensures(Params::set_max_initial_ts, (p, t), q) ==> old(q)@ == (ParamsView {
            raw: NativeParams { max_initial_ts: start, ..old(p)@.raw },
            ..old(p)@
        }) && *final(p) == *final(q),
{
}

/// A temperature from 0.0 to 1.0 is kept, bit for bit, and so is a start of the first
/// segment from 0.0 to 30.0 seconds. A larger finite number becomes the bound; a
/// negative one, an infinite one and what is no number become zero.
pub proof fn law_numbers_in_range_are_kept(t: Float32, temperature: Float32, start: Float32)
    requires
        call_ensures(clamp_temperature, (t,), temperature),
        call_ensures(clamp_max_initial_ts, (t,), start),
    ensures
        t.bits <= 0x3F80_0000 || t.bits == 0x8000_0000 ==> temperature == t,
        0x3F80_0000 < t.bits < 0x7F80_0000 ==> temperature.bits == 0x3F80_0000,
        t.bits <= 0x41F0_0000 || t.bits == 0x8000_0000 ==> start == t,
        0x41F0_0000 < t.bits < 0x7F80_0000 ==> start.bits == 0x41F0_0000,
        0x7F80_0000 <= t.bits && t.bits != 0x8000_0000 ==> temperature.bits == 0 && start.bits == 0,
{
    law_what_is_not_finite(t);
    if t.bits < 0x7F80_0000 {
        law_numbers_are_ordered_as_their_bits(t, from_bits(0x3F80_0000));
        law_numbers_are_ordered_as_their_bits(from_bits(0x3F80_0000), t);
        law_numbers_are_ordered_as_their_bits(from_bits(0x41F0_0000), t);
    } else if 0x8000_0000 <= t.bits < 0xFF80_0000 {
        let opposite = from_bits((t.bits - 0x8000_0000) as u32);
        law_numbers_are_ordered_as_their_bits(opposite, from_bits(0x3F80_0000));
        law_numbers_are_ordered_as_their_bits(from_bits(0x3F80_0000), opposite);
        law_numbers_are_ordered_as_their_bits(from_bits(0x41F0_0000), opposite);
    }
}

/// A temperature step from a thousandth to 1.0 is kept, bit for bit. A larger one
/// becomes 1.0, plus infinity too; a smaller one, one with a minus sign and what is no
/// number become zero.
pub proof fn law_steps_in_range_are_kept(t: Float32, step: Float32)
    requires
        call_ensures(clamp_temperature_inc, (t,), step),
    ensures
        0x3A83_126F <= t.bits <= 0x3F80_0000 ==> step == t,
        0x3F80_0000 < t.bits <= 0x7F80_0000 ==> step.bits == 0x3F80_0000,
        t.bits < 0x3A83_126F || 0x7F80_0000 < t.bits ==> step.bits == 0,
{
    law_what_is_not_finite(t);
    if t.bits < 0x7F80_0000 {
        law_numbers_are_ordered_as_their_bits(t, from_bits(0x3A83_126F));
        law_numbers_are_ordered_as_their_bits(from_bits(0x3F80_0000), t);
    }
}

/// A number of attempts or beams from 1 to 64 is kept; a smaller one becomes 1, and a
/// larger one 64. There is one thread.
pub proof fn law_counts_in_range_are_kept(k: i32, r: i32, threads: i32)
    requires
        call_ensures(clamp_topk, (k,), r),
        call_ensures(clamp_n_threads, (k,), threads),
    ensures
        1 <= k <= 64 ==> r == k,
        k < 1 ==> r == 1,
        k > 64 ==> r == 64,
        threads == 1,
{
}

/// New settings are the native defaults, but for the attempts or the beams and their
/// patience, which come from the strategy, and for the one thread; nothing else is
/// set.
pub proof fn law_new_settings(
    best_of: i32,
    beam_size: i32,
    patience: Float32,
    defaults: ParamsDefaults,
    attempts: i32,
    beams: i32,
    greedy: Params,
    beam: Params,
    greedy_number: u32,
    beam_number: u32,
)
    requires
        call_ensures(clamp_topk, (best_of,), attempts),
        call_ensures(clamp_topk, (beam_size,), beams),
        call_ensures(Params::new, (SamplingStrategy::Greedy { best_of }, defaults), greedy),
        call_ensures(
            Params::new,
            (SamplingStrategy::BeamSearch { beam_size, patience }, defaults),
            beam,
        ),
        call_ensures(
            SamplingStrategy::to_raw,
            (&SamplingStrategy::Greedy { best_of },),
            greedy_number,
        ),
        call_ensures(
            SamplingStrategy::to_raw,
            (&SamplingStrategy::BeamSearch { beam_size, patience },),
            beam_number,
        ),
    ensures
        greedy@.raw == (NativeParams { best_of: attempts, n_threads: 1, ..defaults.raw }),
        beam@.raw == (NativeParams { beam_size: beams, patience, n_threads: 1, ..defaults.raw }),
        greedy@ == (ParamsView { raw: greedy@.raw, ..beam@ }),
        defaults.language is None <==> greedy@.default_language is None,
        defaults.language matches Some(bytes) ==> greedy@.default_language == Some(bytes@),
        greedy@.language is None && greedy@.initial_prompt is None,
        greedy@.prompt_tokens is None && !greedy@.abort_callback,
        greedy_number == 0 && beam_number == 1,
{
}

/// What is read of the settings is what was set. The language in force is the one that
/// was set, and otherwise what the bytes of the native default encode, if there are any
/// and they are UTF-8.
pub proof fn law_settings_are_read(
    p: &Params,
    raw: NativeParams,
    language: Option<&str>,
    detect: bool,
    offset_ms: i32,
    duration_ms: i32,
    callback: bool,
    native_language: Option<&NativeString>,
    native_prompt: Option<&NativeString>,
    tokens: Option<&[i32]>,
)
    requires
        call_ensures(Params::raw, (p,), raw),
        call_ensures(Params::language, (p,), language),
        call_ensures(Params::detect_language, (p,), detect),
        call_ensures(Params::offset_ms, (p,), offset_ms),
        call_ensures(Params::duration_ms, (p,), duration_ms),
        call_ensures(Params::has_abort_callback, (p,), callback),
        call_ensures(Params::native_language, (p,), native_language),
        call_ensures(Params::native_initial_prompt, (p,), native_prompt),
        call_ensures(Params::prompt_tokens, (p,), tokens),
    ensures
        raw == p@.raw,
        detect == raw.detect_language,
        offset_ms == raw.offset_ms,
        duration_ms == raw.duration_ms,
        callback == p@.abort_callback,
        p@.language matches Some(l) ==> (language matches Some(x) && x@ == l) && (
        native_language matches Some(x) && x@ == l),
        p@.language is None ==> native_language is None,
        p@.language is None ==> (language is Some <==> p@.default_language is Some && valid_utf8(
            p@.default_language->0,
        )),
        p@.language is None && language is Some ==> encode_utf8(language->0@)
            == p@.default_language->0,
        p@.initial_prompt is Some <==> native_prompt is Some,
        native_prompt matches Some(x) ==> p@.initial_prompt == Some(x@),
        p@.prompt_tokens is Some <==> tokens is Some,
        tokens matches Some(x) ==> p@.prompt_tokens == Some(x@),
{
    broadcast use vstd::utf8::decode_utf8_encode_utf8;

}

/// The native library is handed the bytes of a text that was set, with a NUL behind
/// them, and the text can be read again.
pub proof fn law_texts_are_handed_over_whole(s: &NativeString, bytes: &[u8], text: &str)
    requires
        call_ensures(NativeString::as_bytes_with_nul, (s,), bytes),
        call_ensures(NativeString::as_str, (s,), text),
    ensures
        text@ == s@,
        bytes@ == encode_utf8(text@) + seq![0u8],
        !text@.contains('\0'),
{
    law_nul_is_a_character(text@);
    assert(encode_utf8(text@).push(0u8) =~= encode_utf8(text@) + seq![0u8]);
}

/// Any text, any tokens and any number may be set, at any time.
pub proof fn law_setters_are_open(
    p: &mut Params,
    text: &str,
    native_id: i32,
    tokens: &[i32],
    n: i32,
    t: Float32,
)
    ensures
        call_requires(Params::set_language, (p, text, native_id)),
        call_requires(Params::set_initial_prompt, (p, text)),
        call_requires(Params::set_tokens, (p, tokens)),
        call_requires(clamp_topk, (n,)),
        call_requires(clamp_n_threads, (n,)),
        call_requires(clamp_temperature, (t,)),
        call_requires(clamp_temperature_inc, (t,)),
        call_requires(clamp_max_initial_ts, (t,)),
{
}

/// A run is aborted where the callback says so, and where it panicked.
pub proof fn law_a_panic_aborts(outcome: Option<bool>, r: bool)
    requires
        call_ensures(abort_verdict, (outcome,), r),
    ensures
        r <==> outcome != Some(false),
{
}

} // verus!

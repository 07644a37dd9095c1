//! Runs, and what is read of a state, from one call to the next.

use crate::context::{Context, Model, NativeAction};
use crate::error::{WhisperError, WhisperResult};
use crate::laws::law_first_foreign;
use crate::params::Params;
use crate::state::{
    run_refusal, survives_run, FullReturn, InitReturn, Output, RunStep, Segment, Segments, State, Token,
    TokenData, Tokens,
};
use crate::float32::Float32;
use crate::text::{law_nul_is_a_character, smol_chars, utf8_error};
use std::sync::Arc;
use vstd::prelude::*;
use vstd::utf8::{encode_utf8, valid_utf8};

verus! {

/// A run is made wherever the native library can make it, and its outcome is that of
/// the native library. It takes a state whose native state is there, of a context
/// that is not poisoned; from 201 samples to as many as a native `int` counts; seed
/// tokens of the vocabulary; a range that ends within the audio, of 16 samples to the
/// millisecond; and a language that the model knows, or a model that can find it out.
/// Then the return code alone decides. Unless it says that the native state is gone,
/// the state holds afterwards what the native answer holds, all of it, whatever it
/// held before; and it is the code 0, and no other, that is a success.
pub proof fn law_a_sound_run_is_made(
    state: &mut State,
    context: &mut Context,
    params: &Params,
    n_samples: usize,
    hint: Option<&str>,
    native_id: i32,
    ret: FullReturn,
    r: (WhisperResult<()>, NativeAction),
)
    requires
        old(state).belongs_to(*old(context)),
        call_ensures(State::full, (state, context, params, n_samples, native_id, ret), r),
        call_ensures(Params::language, (params,), hint),
        old(state).output() is Some,
        !old(context).lost(),
        201 <= n_samples <= 2147483647,
        params@.prompt_tokens matches Some(tokens) ==> forall|i: int|
            0 <= i < tokens.len() ==> 0 <= #[trigger] tokens[i] < old(state).model().n_vocab,
        0 <= params@.raw.offset_ms,
        0 <= params@.raw.duration_ms,
        16 * (params@.raw.offset_ms + params@.raw.duration_ms) <= n_samples,
        if params@.raw.detect_language || hint is None || hint->0@.len() == 0 || hint->0@
            == "auto"@ {
            old(state).model().multilingual != 0
        } else {
            &&& encode_utf8(hint->0@).len() <= 32
            &&& !hint->0@.contains('\0')
            &&& 0 <= native_id
            &&& if old(state).model().multilingual != 0 {
                old(state).model().tokens.sot + 1 + native_id
                    < old(state).model().tokens.translate
            } else {
                native_id == 0
            }
        },
    ensures
        ret.code == 0 <==> r.0 is Ok,
        ret.code != 0 && ret.code != -7 && ret.code > -100 ==> (r.0 matches Err(
            WhisperError::Full { code },
        ) && code == ret.code),
        ret.code == -7 || ret.code <= -100 ==> (r.0 matches Err(WhisperError::StateLost { code })
            && code == ret.code),
        ret.code != -7 && ret.code > -100 ==> final(state).output() == Some(ret.output) && r.1
            == NativeAction::Keep && !final(context).lost(),
        ret.code == -7 ==> r.1 == NativeAction::Gone,
        ret.code <= -100 ==> r.1 == NativeAction::Free,
        ret.code == -7 || ret.code <= -100 ==> final(state).output() is None
            && final(context).lost(),
        final(state).model() == old(state).model(),
        final(state).context_serial() == old(state).context_serial(),
        final(context).model() == old(context).model(),
        final(context).serial() == old(context).serial(),
{
    if let Some(tokens) = params@.prompt_tokens {
        law_first_foreign(tokens, old(state).model().n_vocab);
    }
    if let Some(hint) = hint {
        law_nul_is_a_character(hint@);
    }
}

/// A run is refused for the first of these that holds, and for nothing else: too few
/// samples, too many, a seed token outside the vocabulary (the first such is named), a
/// language that the model does not know, a range that is not within the audio, a
/// native state that is gone, and a poisoned context.
pub proof fn law_a_refusal_names_its_cause(
    state: &State,
    context: &Context,
    params: &Params,
    n_samples: usize,
    hint: Option<&str>,
    native_id: i32,
    foreign: int,
    r: WhisperResult<i32>,
)
    requires
        state.belongs_to(*context),
        call_ensures(State::full_request, (state, context, params, n_samples, native_id), r),
        call_ensures(Params::language, (params,), hint),
        match params@.prompt_tokens {
            Some(tokens) => {
                &&& 0 <= foreign <= tokens.len()
                &&& forall|i: int|
                    0 <= i < foreign ==> 0 <= #[trigger] tokens[i] < state.model().n_vocab
                &&& foreign < tokens.len() ==> !(0 <= tokens[foreign] < state.model().n_vocab)
            },
            None => foreign == 0,
        },
    ensures
        ({
            let model = state.model();
            let raw = params@.raw;
            let seeded = params@.prompt_tokens is Some && foreign < params@.prompt_tokens->0.len();
            let finds_out = raw.detect_language || hint is None || hint->0@.len() == 0 || hint->0@
                == "auto"@;
            let known = encode_utf8(hint->0@).len() <= 32 && !hint->0@.contains('\0') && 0
                <= native_id && if model.multilingual != 0 {
                model.tokens.sot + 1 + native_id < model.tokens.translate
            } else {
                native_id == 0
            };
            if n_samples < 201 {
                r matches Err(WhisperError::SamplesTooShort { samples, min_required }) && samples
                    == n_samples && min_required == 201
            } else if n_samples > 2147483647 {
                r matches Err(WhisperError::SamplesOverflow { samples }) && samples == n_samples
            } else if seeded {
                r matches Err(WhisperError::TokenOutOfRange { token, vocab_size }) && token
                    == params@.prompt_tokens->0[foreign] && vocab_size == model.n_vocab
            } else if finds_out && model.multilingual == 0 {
                r matches Err(WhisperError::LanguageNotSupportedByModel(x)) && smol_chars(x)
                    == "auto"@
            } else if !finds_out && !known {
                r matches Err(WhisperError::LanguageNotSupportedByModel(x)) && smol_chars(x)
                    == hint->0@
            } else if raw.offset_ms < 0 || raw.duration_ms < 0 || 16 * (raw.offset_ms
                + raw.duration_ms) > n_samples {
                &&& r matches Err(
                    WhisperError::InvalidDuration { offset_ms, duration_ms, audio_duration_ms },
                )
                &&& offset_ms == raw.offset_ms
                &&& duration_ms == raw.duration_ms
                &&& 16 * audio_duration_ms <= n_samples < 16 * audio_duration_ms + 16
            } else if state.output() is None {
                r matches Err(WhisperError::StateLost { code }) && code == -7
            } else if context.lost() {
                r matches Err(WhisperError::ContextPoisoned)
            } else {
                r matches Ok(n) && n == n_samples
            }
        }),
{
    if let Some(tokens) = params@.prompt_tokens {
        law_first_foreign(tokens, state.model().n_vocab);
    }
    if let Some(hint) = hint {
        law_nul_is_a_character(hint@);
    }
}

/// What a request for a run answers, the run answers too: a refusal is the same
/// error, whatever the native library would say, and leaves the state, the context and
/// the native state alone; and where the request allows the run, for all the samples,
/// the return code alone decides and the output of the native answer is taken over.
pub proof fn law_the_request_decides(
    state: &mut State,
    context: &mut Context,
    params: &Params,
    n_samples: usize,
    native_id: i32,
    ret: FullReturn,
    before: &State,
    before_context: &Context,
    request: WhisperResult<i32>,
    r: (WhisperResult<()>, NativeAction),
)
    requires
        *before == *old(state),
        *before_context == *old(context),
        before.belongs_to(*before_context),
        call_ensures(
            State::full_request,
            (before, before_context, params, n_samples, native_id),
            request,
        ),
        call_ensures(State::full, (state, context, params, n_samples, native_id, ret), r),
    ensures
        request matches Err(e) ==> {
            &&& r.0 matches Err(x) && x@ == e@
            &&& *final(state) == *old(state)
            &&& final(context).lost() == old(context).lost()
            &&& r.1 == if old(state).output() is Some {
                NativeAction::Keep
            } else {
                NativeAction::Gone
            }
        },
        request matches Ok(n) ==> {
            &&& n == n_samples
            &&& old(state).output() is Some
            &&& !old(context).lost()
            &&& r.0 is Ok <==> ret.code == 0
            &&& ret.code != -7 && ret.code > -100 ==> final(state).output() == Some(ret.output)
                && r.1 == NativeAction::Keep && !final(context).lost()
            &&& ret.code == -7 || ret.code <= -100 ==> final(state).output() is None && r.1
                != NativeAction::Keep && final(context).lost()
        },
        final(context).model() == old(context).model(),
        final(context).serial() == old(context).serial(),
        final(state).model() == old(state).model(),
{
}

/// What a run gives can be read of the state right after it: as many segments as the
/// native answer holds, each of them as it is there, and its frames; whatever the
/// number of samples, the settings, and what the state held before. It holds of a
/// success, and of a failure that leaves the native state alive.
pub proof fn law_a_run_is_read_back(
    state: &mut State,
    context: &mut Context,
    params: &Params,
    n_samples: usize,
    native_id: i32,
    ret: FullReturn,
    r: (WhisperResult<()>, NativeAction),
    after: &State,
    n: i32,
    idx: i32,
    segment: Option<Segment<'_>>,
    frames: i32,
)
    requires
        old(state).belongs_to(*old(context)),
        call_ensures(State::full, (state, context, params, n_samples, native_id, ret), r),
        r.0 is Ok || r.0->Err_0 is Full,
        ret.output.segments@.len() <= 2147483647,
        *after == *final(state),
        call_ensures(State::n_segments, (after,), n),
        call_ensures(State::segment, (after, idx), segment),
        call_ensures(State::n_mel_frames, (after,), frames),
    ensures
        n == ret.output.segments@.len(),
        segment is Some <==> 0 <= idx < ret.output.segments@.len(),
        segment matches Some(s) ==> s.data() == ret.output.segments@[idx as int],
        frames == ret.output.n_mel_frames,
        r.1 == NativeAction::Keep,
{
}

/// A run that is not refused, and whose return code leaves the native state alive,
/// leaves exactly the output of the native answer; and any other leaves either what
/// there was, where it is refused, or nothing.
pub proof fn law_the_output_is_the_native_one(step: RunStep)
    requires
        step.is_run(),
    ensures
        ({
            let refused = run_refusal(
                step.before,
                step.lost_before,
                step.params,
                step.n_samples,
                step.native_id,
            ) is Some;
            let alive = step.ret.code != -7 && step.ret.code > -100;
            &&& !refused && alive ==> step.after.output() == Some(step.ret.output)
                && !step.lost_after && step.action == NativeAction::Keep
            &&& !refused && !alive ==> step.after.output() is None && step.lost_after && step.action
                != NativeAction::Keep
            &&& refused ==> step.after == step.before && step.lost_after == step.lost_before
                && step.result is Err
            &&& !refused ==> (step.result is Ok <==> step.ret.code == 0)
        }),
{
}

/// Nothing of a transcript is out of reach. Of a state that holds an output, each
/// segment is found under its index, and all come one after the other, in their order;
/// their number is the number of segments, or the most that a native `int` counts. The
/// frames are those of the output.
pub proof fn law_the_whole_transcript_is_in_reach(
    state: &State,
    output: Output,
    idx: i32,
    n: i32,
    segment: Option<Segment<'_>>,
    all: Segments<'_>,
    frames: i32,
)
    requires
        state.output() == Some(output),
        call_ensures(State::n_segments, (state,), n),
        call_ensures(State::segment, (state, idx), segment),
        call_ensures(State::segments_iter, (state,), all),
        call_ensures(State::n_mel_frames, (state,), frames),
    ensures
        output.segments@.len() <= 2147483647 ==> n == output.segments@.len() && all@
            == output.segments@,
        output.segments@.len() > 2147483647 ==> n == 2147483647 && all@ == output.segments@.take(
            2147483647,
        ),
        0 <= idx < output.segments@.len() ==> (idx < 2147483647 ==> segment is Some),
        segment matches Some(s) ==> 0 <= idx < output.segments@.len() && s.data()
            == output.segments@[idx as int],
        frames == output.n_mel_frames,
{
    if output.segments@.len() <= 2147483647 {
        assert(output.segments@.take(output.segments@.len() as int) =~= output.segments@);
    }
}

/// Nothing of a segment is out of reach: each token is found under its index, and all
/// come one after the other, in their order; their number is the number of tokens, or
/// the most that a native `int` counts.
pub proof fn law_the_whole_segment_is_in_reach(
    segment: &Segment<'_>,
    idx: i32,
    n: i32,
    token: Option<Token>,
    all: Tokens<'_>,
)
    requires
        call_ensures(Segment::n_tokens, (segment,), n),
        call_ensures(Segment::token, (segment, idx), token),
        call_ensures(Segment::tokens_iter, (segment,), all),
    ensures
        segment.data().tokens@.len() <= 2147483647 ==> n == segment.data().tokens@.len() && all@
            == segment.data().tokens@,
        segment.data().tokens@.len() > 2147483647 ==> n == 2147483647 && all@
            == segment.data().tokens@.take(2147483647),
        0 <= idx < segment.data().tokens@.len() ==> (idx < 2147483647 ==> token is Some),
        token matches Some(t) ==> 0 <= idx < segment.data().tokens@.len() && t.data()
            == segment.data().tokens@[idx as int],
{
    let tokens = segment.data().tokens@;
    if tokens.len() <= 2147483647 {
        assert(tokens.take(tokens.len() as int) =~= tokens);
    }
}

/// What is read of a segment is what the native library said of it: the times, the
/// probability, the change of speaker, and the text, which is empty where there is
/// none and an error where its bytes are not UTF-8.
pub proof fn law_a_segment_reads_as_given(
    segment: &Segment<'_>,
    t0: i64,
    t1: i64,
    text: WhisperResult<&str>,
    no_speech_prob: Float32,
    speaker_turn_next: bool,
)
    requires
        call_ensures(Segment::t0, (segment,), t0),
        call_ensures(Segment::t1, (segment,), t1),
        call_ensures(Segment::text, (segment,), text),
        call_ensures(Segment::no_speech_prob, (segment,), no_speech_prob),
        call_ensures(Segment::speaker_turn_next, (segment,), speaker_turn_next),
    ensures
        t0 == segment.data().t0,
        t1 == segment.data().t1,
        no_speech_prob == segment.data().no_speech_prob,
        speaker_turn_next == segment.data().speaker_turn_next,
        segment.data().text is None ==> (text matches Ok(t) && t@.len() == 0),
        segment.data().text matches Some(bytes) ==> {
            &&& valid_utf8(bytes@) ==> (text matches Ok(t) && encode_utf8(t@) == bytes@)
            &&& !valid_utf8(bytes@) ==> (text matches Err(WhisperError::Utf8(e)) && e == utf8_error(
                bytes@,
            ))
        },
{
    broadcast use vstd::utf8::decode_utf8_encode_utf8;

}

/// What is read of a token is what the native library said of it, and no time by
/// alignment where that is negative.
pub proof fn law_a_token_reads_as_given(
    raw: TokenData,
    token: &Token,
    id: i32,
    p: Float32,
    plog: Float32,
    pt: Float32,
    ptsum: Float32,
    t0: i64,
    t1: i64,
    t_dtw: Option<i64>,
    vlen: Float32,
)
    requires
        call_ensures(Token::from_raw, (raw,), *token),
        call_ensures(Token::id, (token,), id),
        call_ensures(Token::p, (token,), p),
        call_ensures(Token::plog, (token,), plog),
        call_ensures(Token::pt, (token,), pt),
        call_ensures(Token::ptsum, (token,), ptsum),
        call_ensures(Token::t0, (token,), t0),
        call_ensures(Token::t1, (token,), t1),
        call_ensures(Token::t_dtw, (token,), t_dtw),
        call_ensures(Token::vlen, (token,), vlen),
    ensures
        raw.id == id && raw.p == p && raw.plog == plog && raw.pt == pt && raw.ptsum == ptsum,
        raw.t0 == t0 && raw.t1 == t1 && raw.vlen == vlen,
        t_dtw is Some <==> raw.t_dtw >= 0,
        t_dtw matches Some(t) ==> t == raw.t_dtw,
        token.data() == raw,
{
}

/// Taking segments from either end takes each once: what is taken and what is left
/// are together what was there, and nothing is taken exactly where nothing is left.
/// Their number, and all of them in their order, can be had at any time.
pub proof fn law_segments_are_taken_once(
    front: &mut Segments<'_>,
    back: &mut Segments<'_>,
    first: Option<Segment<'_>>,
    last: Option<Segment<'_>>,
    rest: &Segments<'_>,
    len: usize,
    hint: (usize, Option<usize>),
    count: usize,
    all: Vec<Segment<'_>>,
)
    requires
        call_ensures(Segments::next, (front,), first),
        call_ensures(Segments::next_back, (back,), last),
        call_ensures(Segments::len, (rest,), len),
        call_ensures(Segments::size_hint, (rest,), hint),
        call_ensures(Segments::count, (*rest,), count),
        call_ensures(Segments::collect, (*rest,), all),
    ensures
        first matches Some(s) ==> old(front)@ == seq![s.data()] + final(front)@,
        first is None ==> old(front)@.len() == 0 && final(front)@.len() == 0,
        last matches Some(s) ==> old(back)@ == final(back)@ + seq![s.data()],
        last is None ==> old(back)@.len() == 0 && final(back)@.len() == 0,
        len == rest@.len() && count == rest@.len(),
        hint == (len, Some(len)),
        rest@ == Seq::new(all@.len(), |i: int| all@[i].data()),
{
    if let Some(s) = first {
        assert(old(front)@ =~= seq![s.data()] + final(front)@);
    }
    if let Some(s) = last {
        assert(old(back)@ =~= final(back)@ + seq![s.data()]);
    }
    assert(rest@ =~= Seq::new(all@.len(), |i: int| all@[i].data()));
}

/// Taking tokens from either end takes each once, as it does of segments.
pub proof fn law_tokens_are_taken_once(
    front: &mut Tokens<'_>,
    back: &mut Tokens<'_>,
    first: Option<Token>,
    last: Option<Token>,
    rest: &Tokens<'_>,
    len: usize,
    hint: (usize, Option<usize>),
    count: usize,
    all: Vec<Token>,
)
    requires
        call_ensures(Tokens::next, (front,), first),
        call_ensures(Tokens::next_back, (back,), last),
        call_ensures(Tokens::len, (rest,), len),
        call_ensures(Tokens::size_hint, (rest,), hint),
        call_ensures(Tokens::count, (*rest,), count),
        call_ensures(Tokens::collect, (*rest,), all),
    ensures
        first matches Some(t) ==> old(front)@ == seq![t.data()] + final(front)@,
        first is None ==> old(front)@.len() == 0 && final(front)@.len() == 0,
        last matches Some(t) ==> old(back)@ == final(back)@ + seq![t.data()],
        last is None ==> old(back)@.len() == 0 && final(back)@.len() == 0,
        len == rest@.len() && count == rest@.len(),
        hint == (len, Some(len)),
        rest@ == Seq::new(all@.len(), |i: int| all@[i].data()),
{
    if let Some(t) = first {
        assert(old(front)@ =~= seq![t.data()] + final(front)@);
    }
    if let Some(t) = last {
        assert(old(back)@ =~= final(back)@ + seq![t.data()]);
    }
    assert(rest@ =~= Seq::new(all@.len(), |i: int| all@[i].data()));
}

/// A state whose native state is gone reads as empty, and no native call is made about
/// it; one whose native state is there is asked.
pub proof fn law_what_is_gone_reads_as_empty(
    state: &State,
    timed: &mut State,
    poisoned: bool,
    n: i32,
    idx: i32,
    segment: Option<Segment<'_>>,
    all: Segments<'_>,
    frames: i32,
    lang: Option<crate::lang::Lang>,
    prints: bool,
    resets: bool,
    model: &Arc<Model>,
)
    requires
        *old(timed) == *state,
        call_ensures(State::is_poisoned, (state,), poisoned),
        call_ensures(State::n_segments, (state,), n),
        call_ensures(State::segment, (state, idx), segment),
        call_ensures(State::segments_iter, (state,), all),
        call_ensures(State::n_mel_frames, (state,), frames),
        call_ensures(State::detected_lang, (state,), lang),
        call_ensures(State::print_timings, (state,), prints),
        call_ensures(State::reset_timings, (timed,), resets),
        call_ensures(State::context, (state,), model),
    ensures
        poisoned <==> state.output() is None,
        prints <==> !poisoned,
        resets <==> !poisoned,
        *final(timed) == *state,
        **model == state.model(),
        poisoned ==> n == 0 && segment is None && all@.len() == 0 && frames == 0 && lang is None,
{
}

/// The native state is given up once: the first time it is to be freed if it is there,
/// and after that there is none.
pub proof fn law_a_state_is_released_once(
    state: &mut State,
    again: &mut State,
    first: NativeAction,
    second: NativeAction,
)
    requires
        *old(again) == *final(state),
        call_ensures(State::release, (state,), first),
        call_ensures(State::release, (again,), second),
    ensures
        old(state).output() is Some ==> first == NativeAction::Free,
        old(state).output() is None ==> first == NativeAction::Gone,
        final(state).output() is None,
        second == NativeAction::Gone,
        final(state).model() == old(state).model(),
        final(state).context_serial() == old(state).context_serial(),
{
}

/// A context hands out the state that the native library made, with what it holds,
/// unless it is poisoned: then the native state is freed. Without a native state, the
/// error says which exception was caught, if one was.
pub proof fn law_a_state_is_handed_out(
    context: &Context,
    ret: InitReturn,
    request: WhisperResult<()>,
    r: (WhisperResult<State>, NativeAction),
    own: bool,
)
    requires
        call_ensures(Context::create_state_request, (context,), request),
        call_ensures(Context::create_state, (context, ret), r),
    ensures
        context.lost() ==> (request matches Err(WhisperError::ContextPoisoned)) && (
        r.0 matches Err(WhisperError::ContextPoisoned)),
        !context.lost() ==> request is Ok,
        ret matches InitReturn::Ready(output) ==> {
            &&& r.0 is Ok <==> !context.lost()
            &&& r.0 matches Ok(state) ==> state.output() == Some(output) && state.model()
                == context.model() && (call_ensures(State::is_of, (&state, context), own) ==> own)
            &&& r.1 == if context.lost() {
                NativeAction::Free
            } else {
                NativeAction::Keep
            }
        },
        ret matches InitReturn::Null { exception } ==> {
            &&& r.1 == NativeAction::Gone
            &&& !context.lost() ==> (r.0 matches Err(WhisperError::StateInit { code }) && (
            exception == 0 ==> code is None) && (exception != 0 ==> code == Some(exception)))
        },
{
}

/// A state is of the context that it was made of, and of no other: of the one with its
/// number.
pub proof fn law_states_know_their_context(state: &State, context: &Context, serial: u64, r: bool)
    requires
        call_ensures(Context::serial_number, (context,), serial),
        call_ensures(State::is_of, (state, context), r),
    ensures
        r <==> state.context_serial() == serial,
        r <==> state.belongs_to(*context),
{
}

/// Runs may be asked for and made with any settings, any number of samples and any
/// native answer, on any state of the context; and a state may be read, released or
/// asked for at any time.
pub proof fn law_calls_are_open(
    state: &mut State,
    context: &mut Context,
    before: &State,
    before_context: &Context,
    params: &Params,
    n_samples: usize,
    native_id: i32,
    ret: FullReturn,
    init: InitReturn,
    idx: i32,
)
    requires
        old(state).belongs_to(*old(context)),
        *before == *old(state),
        *before_context == *old(context),
    ensures
        call_requires(State::full_request, (before, before_context, params, n_samples, native_id)),
        call_requires(State::full, (state, context, params, n_samples, native_id, ret)),
        call_requires(State::release, (state,)),
        call_requires(State::n_segments, (before,)),
        call_requires(State::segment, (before, idx)),
        call_requires(State::segments_iter, (before,)),
        call_requires(State::n_mel_frames, (before,)),
        call_requires(State::detected_lang, (before,)),
        call_requires(Context::create_state_request, (before_context,)),
        call_requires(Context::create_state, (before_context, init)),
{
}

/// A native state may be read after a run unless the run's return code is -7, with
/// which the native library has freed it, or one of those from -100 down, which stand
/// for exceptions.
pub proof fn law_which_codes_leave_the_native_state(code: i32, r: bool)
    requires
        call_ensures(survives_run, (code,), r),
    ensures
        r <==> code != -7 && code > -100,
{
}

} // verus!

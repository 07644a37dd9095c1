//! What holds across several functions of the library.
//!
//! - [`runs`]: runs, and what is read of a state;
//! - [`languages`]: languages;
//! - [`loading`]: loading a model, and what it says of itself;
//! - [`settings`]: the settings of a run.

pub mod languages;
pub mod loading;
pub mod runs;
pub mod settings;

use crate::context::{
    dtw_bytes_needed, lang_token, load_refusal, native_context_params, AlignmentHeadsPreset,
    ContextParamsView, Model, NativeAction, MAX_DTW_MEM_SIZE, MIN_DTW_MEM_SIZE,
};
use crate::error::ErrorView;
use crate::lang::{id_of_name, MAX_NAME_BYTES};
use crate::params::{is_auto, language_refusal, prompt_refusal, ParamsView};
use crate::state::{
    audio_ms, first_foreign, input_refusal, is_foreign, run_action, run_error, run_refusal,
    RunStep, State, CODE_STATE_FREED, MIN_SAMPLES,
};
use crate::text::{byte_len, has_nul, head_chars, HEAD_CHARS};
use vstd::prelude::*;
use vstd::utf8::{encode_scalar, encode_utf8};

verus! {

/// A run that is not refused hands the native library only what it can take: a
/// number of samples that it reads and can count, seed tokens of the model's
/// vocabulary, a range within the audio, and either a model that can find the
/// language out or a language that the model knows.
pub proof fn law_runs_stay_in_bounds(model: Model, params: ParamsView, n: nat, native_id: i32)
    requires
        input_refusal(model, params, n, native_id) is None,
    ensures
        MIN_SAMPLES <= n <= i32::MAX,
        params.prompt_tokens matches Some(tokens) ==> forall|i: int|
            0 <= i < tokens.len() ==> 0 <= #[trigger] tokens[i] < model.n_vocab,
        0 <= params.raw.offset_ms,
        0 <= params.raw.duration_ms,
        params.raw.offset_ms + params.raw.duration_ms <= audio_ms(n),
        params.auto_detects() ==> model.multilingual != 0,
        !params.auto_detects() ==> {
            &&& params.language_in_force() matches Some(hint)
            &&& id_of_name(hint, native_id) == Some(native_id)
            &&& model.multilingual != 0 ==> model.tokens.sot < lang_token(
                model.tokens,
                native_id as int,
            ) < model.tokens.translate
            &&& model.multilingual == 0 ==> native_id == 0
        },
{
    if let Some(tokens) = params.prompt_tokens {
        law_first_foreign(tokens, model.n_vocab);
    }
}

/// The token that a run is refused for is the first of the seed that lies outside
/// the vocabulary; where there is none, all lie inside.
pub proof fn law_first_foreign(tokens: Seq<i32>, n_vocab: i32)
    ensures
        match first_foreign(tokens, n_vocab) {
            Some(token) => exists|i: int|
                0 <= i < tokens.len() && #[trigger] tokens[i] == token && is_foreign(token, n_vocab)
                    && forall|j: int| 0 <= j < i ==> 0 <= #[trigger] tokens[j] < n_vocab,
            None => forall|i: int| 0 <= i < tokens.len() ==> 0 <= #[trigger] tokens[i] < n_vocab,
        },
    decreases tokens.len(),
{
    if tokens.len() > 0 {
        if is_foreign(tokens.first(), n_vocab) {
            assert(tokens[0] == tokens.first());
        } else {
            let rest = tokens.drop_first();
            law_first_foreign(rest, n_vocab);
            assert(forall|j: int| 0 < j < tokens.len() ==> #[trigger] tokens[j] == rest[j - 1]);
            if let Some(token) = first_foreign(tokens, n_vocab) {
                let i = choose|i: int|
                    0 <= i < rest.len() && #[trigger] rest[i] == token && is_foreign(token, n_vocab)
                        && forall|j: int| 0 <= j < i ==> 0 <= #[trigger] rest[j] < n_vocab;
                assert(tokens[i + 1] == token);
            }
        }
    }
}

/// A load that is not refused hands the native library only what it can take: a
/// path without NUL, alignment only with heads to read and without flash
/// attention, and working memory in range and enough for them.
pub proof fn law_loads_stay_in_bounds(path: Seq<char>, params: ContextParamsView)
    requires
        load_refusal(path, params) is None,
    ensures
        !has_nul(path),
        ({
            let native = native_context_params(params);
            &&& native.dtw_token_timestamps ==> !native.flash_attn
            &&& native.dtw_token_timestamps <==> native.dtw_aheads_preset
                != AlignmentHeadsPreset::Off.number()
            &&& native.dtw_token_timestamps ==> native.dtw_mem_size >= dtw_bytes_needed(
                params.dtw_aheads_preset,
            )
            &&& MIN_DTW_MEM_SIZE <= native.dtw_mem_size <= MAX_DTW_MEM_SIZE
        }),
{
    crate::context::law_dtw_arena_suffices(params);
}

/// Once a context is poisoned, no run is made with any of its states, whatever
/// the input; and none is made with a state that was lost.
pub proof fn law_poison_ends_all_runs(state: State, params: ParamsView, n: nat, native_id: i32)
    ensures
        run_refusal(state, true, params, n, native_id) is Some,
        state.output() is None ==> forall|lost: bool|
            #[trigger] run_refusal(state, lost, params, n, native_id) is Some,
{
}

/// An input that would be accepted is answered with `StateLost` by a state that
/// was lost, and with `ContextPoisoned` by any other state of a poisoned context;
/// otherwise the run is made.
pub proof fn law_accepted_input_is_answered(
    state: State,
    params: ParamsView,
    n: nat,
    native_id: i32,
)
    requires
        input_refusal(state.model(), params, n, native_id) is None,
    ensures
        forall|lost: bool| #[trigger]
            run_refusal(state, lost, params, n, native_id) == (if state.output() is None {
                Some(ErrorView::StateLost { code: CODE_STATE_FREED })
            } else if lost {
                Some(ErrorView::ContextPoisoned)
            } else {
                None
            }),
{
}

/// A state that was lost does nothing any more: it has no segments, frames or
/// language, no native call is made about it, there is nothing to free when it is
/// dropped, and no call of [`State::full`] brings it back.
pub proof fn law_a_lost_state_does_nothing(state: State)
    requires
        state.output() is None,
    ensures
        state.listed().len() == 0,
        state.mel_frames() == 0,
        state.lang_text() is None,
        !state.may_call(),
        state.release_action() == NativeAction::Gone,
        forall|step: RunStep| #[trigger]
            step.is_run() && step.before == state ==> step.result is Err && step.after == state
                && step.action == NativeAction::Gone,
{
}

/// A return code is a success, a failure that leaves the native state as it is,
/// or a loss of it: never two of these, and a loss is reported exactly where the
/// native state does not live on.
pub proof fn law_return_codes(code: i32)
    ensures
        code == 0 <==> run_error(code) is None,
        run_action(code) == NativeAction::Keep <==> (run_error(code) is None || run_error(code)
            == Some(ErrorView::Full { code })),
        run_action(code) != NativeAction::Keep <==> run_error(code) == Some(
            ErrorView::StateLost { code },
        ),
        run_action(code) != NativeAction::Keep <==> (code == -7 || code <= -100),
{
}

/// Whether calls of [`State::full`] follow each other on one state.
pub open spec fn is_life(steps: Seq<RunStep>) -> bool {
    &&& forall|i: int| 0 <= i < steps.len() ==> (#[trigger] steps[i]).is_run()
    &&& forall|i: int, j: int|
        0 <= i && j == i + 1 && j < steps.len() ==> (#[trigger] steps[j]).before == (
        #[trigger] steps[i]).after
}

/// How often the native state of a state is given back over such calls, on this
/// side or on the native side: how many of them find it there and do not leave it
/// there.
pub open spec fn times_given_back(steps: Seq<RunStep>) -> nat
    decreases steps.len(),
{
    if steps.len() == 0 {
        0
    } else {
        let last = steps.last();
        times_given_back(steps.drop_last()) + if last.before.output() is Some && last.action
            != NativeAction::Keep {
            1nat
        } else {
            0nat
        }
    }
}

/// A native state is given back exactly once, whatever the calls of
/// [`State::full`] on its owner: by one of them, or else by [`State::release`],
/// which finds it where none did. It is neither leaked nor freed twice.
pub proof fn law_native_state_is_given_back_once(steps: Seq<RunStep>)
    requires
        is_life(steps),
        steps.len() > 0,
        steps.first().before.output() is Some,
    ensures
        times_given_back(steps) == (if steps.last().after.output() is Some {
            0nat
        } else {
            1nat
        }),
    decreases steps.len(),
{
    let n = steps.len() as int;
    assert(steps[n - 1].is_run());
    if n > 1 {
        let head = steps.drop_last();
        assert(is_life(head)) by {
            assert(forall|i: int| 0 <= i < head.len() ==> head[i] == steps[i]);
        }
        law_native_state_is_given_back_once(head);
        assert(steps[n - 1].before == steps[n - 2].after);
    } else {
        assert(times_given_back(steps.drop_last()) == 0);
    }
}

/// Whether calls of [`State::full`] follow each other on states of one context,
/// one at a time.
pub open spec fn is_shift(steps: Seq<RunStep>) -> bool {
    &&& forall|i: int| 0 <= i < steps.len() ==> (#[trigger] steps[i]).is_run()
    &&& forall|i: int, j: int|
        0 <= i && j == i + 1 && j < steps.len() ==> {
            &&& (#[trigger] steps[j]).context_serial == (#[trigger] steps[i]).context_serial
            &&& steps[j].lost_before == steps[i].lost_after
        }
}

/// A context loses one native state at most over all the calls of
/// [`State::full`] on its states, and is poisoned from then on: a call that gives
/// a native state back finds the context sound, and no later call does.
pub proof fn law_a_context_loses_one_state_at_most(steps: Seq<RunStep>)
    requires
        is_shift(steps),
        steps.len() > 0,
        !steps.first().lost_before,
    ensures
        times_given_back(steps) == (if steps.last().lost_after {
            1nat
        } else {
            0nat
        }),
    decreases steps.len(),
{
    let n = steps.len() as int;
    assert(steps[n - 1].is_run());
    if n > 1 {
        let head = steps.drop_last();
        assert(is_shift(head)) by {
            assert(forall|i: int| 0 <= i < head.len() ==> head[i] == steps[i]);
        }
        law_a_context_loses_one_state_at_most(head);
        assert(steps[n - 1].lost_before == steps[n - 2].lost_after);
    } else {
        assert(times_given_back(steps.drop_last()) == 0);
    }
}

/// The runs of a state end once its own context is poisoned, whichever state of the
/// context was lost: every later call on a state of that context is refused, and
/// changes nothing.
pub proof fn law_runs_end_with_their_context(steps: Seq<RunStep>, i: int, j: int)
    requires
        is_shift(steps),
        0 <= i < j < steps.len(),
        steps[i].lost_after,
    ensures
        steps[j].before.context_serial() == steps[i].before.context_serial(),
        steps[j].lost_before,
        steps[j].result is Err,
        steps[j].after == steps[j].before,
    decreases j - i,
{
    assert(steps[i].is_run() && steps[j].is_run());
    assert(steps[j].lost_before == steps[j - 1].lost_after);
    if i < j - 1 {
        law_runs_end_with_their_context(steps, i, j - 1);
        assert(steps[j - 1].is_run());
    }
}

/// A call of [`State::full`] never heals a context, and poisons it exactly where
/// it reports that a state was lost in it. A call that is refused changes
/// nothing.
pub proof fn law_poison_stays(step: RunStep)
    requires
        step.is_run(),
    ensures
        step.lost_before ==> step.lost_after && step.after == step.before,
        !step.lost_before && step.before.output() is Some ==> (step.lost_after <==> step.result
            is Err && step.result->Err_0@ is StateLost),
        step.lost_after && !step.lost_before ==> step.after.output() is None,
{
}

/// The text that an error quotes, where it is one that a setter of a run's
/// settings reports.
pub open spec fn quoted(e: ErrorView) -> Seq<char> {
    match e {
        ErrorView::InputTooLong { head, .. } => head,
        ErrorView::InvalidCString { text } => text,
        ErrorView::UnknownLanguage { hint } => hint,
        _ => Seq::empty(),
    }
}

/// What a setter of a run's settings quotes of a refused text is short, however
/// long the text: 64 characters, and so 256 bytes, at most.
pub proof fn law_quotes_are_short(text: Seq<char>, native_id: i32)
    ensures
        language_refusal(text, native_id) matches Some(e) ==> quoted(e).len() <= HEAD_CHARS
            && byte_len(quoted(e)) <= 4 * HEAD_CHARS,
        prompt_refusal(text) matches Some(e) ==> quoted(e).len() <= HEAD_CHARS && byte_len(
            quoted(e),
        ) <= 4 * HEAD_CHARS,
{
    lemma_byte_len_bounds(text);
    lemma_byte_len_bounds(head_chars(text));
}

/// A character takes from one to four bytes.
proof fn lemma_byte_len_bounds(s: Seq<char>)
    ensures
        s.len() <= byte_len(s) <= 4 * s.len(),
    decreases s.len(),
{
    if s.len() > 0 {
        lemma_byte_len_bounds(s.drop_first());
        assert(encode_utf8(s) == encode_scalar(s[0] as u32) + encode_utf8(s.drop_first()));
    }
}

/// A language hint that is accepted is short, holds no NUL, and either asks for
/// the language to be found out or is known to the native library.
pub proof fn law_accepted_hints(hint: Seq<char>, native_id: i32)
    requires
        language_refusal(hint, native_id) is None,
    ensures
        byte_len(hint) <= MAX_NAME_BYTES,
        !has_nul(hint),
        is_auto(hint) || native_id >= 0,
{
}

/// The items that are taken from the front of a sequence, one for each `true`
/// among `from_front` as long as there are items; a `false` takes one from the
/// back.
pub open spec fn taken_from_front<T>(s: Seq<T>, from_front: Seq<bool>) -> Seq<T>
    decreases from_front.len(),
{
    if from_front.len() == 0 || s.len() == 0 {
        Seq::empty()
    } else if from_front.first() {
        seq![s.first()] + taken_from_front(s.drop_first(), from_front.drop_first())
    } else {
        taken_from_front(s.drop_last(), from_front.drop_first())
    }
}

/// The items that are taken from the back, the last one first.
pub open spec fn taken_from_back<T>(s: Seq<T>, from_front: Seq<bool>) -> Seq<T>
    decreases from_front.len(),
{
    if from_front.len() == 0 || s.len() == 0 {
        Seq::empty()
    } else if from_front.first() {
        taken_from_back(s.drop_first(), from_front.drop_first())
    } else {
        seq![s.last()] + taken_from_back(s.drop_last(), from_front.drop_first())
    }
}

/// The items that are left.
pub open spec fn left_over<T>(s: Seq<T>, from_front: Seq<bool>) -> Seq<T>
    decreases from_front.len(),
{
    if from_front.len() == 0 || s.len() == 0 {
        s
    } else if from_front.first() {
        left_over(s.drop_first(), from_front.drop_first())
    } else {
        left_over(s.drop_last(), from_front.drop_first())
    }
}

/// However segments or tokens are taken from the two ends, each comes exactly
/// once and in its place: what came from the front, what is left, and what came
/// from the back, turned round, are the whole.
pub proof fn law_ends_meet<T>(s: Seq<T>, from_front: Seq<bool>)
    ensures
        taken_from_front(s, from_front) + left_over(s, from_front) + taken_from_back(
            s,
            from_front,
        ).reverse() == s,
        from_front.len() >= s.len() ==> left_over(s, from_front).len() == 0,
    decreases from_front.len(),
{
    let f = taken_from_front(s, from_front);
    let l = left_over(s, from_front);
    let b = taken_from_back(s, from_front);
    if from_front.len() == 0 || s.len() == 0 {
        assert(f + l + b.reverse() =~= s);
    } else if from_front.first() {
        let rest = s.drop_first();
        law_ends_meet(rest, from_front.drop_first());
        let f2 = taken_from_front(rest, from_front.drop_first());
        assert(f + l + b.reverse() =~= seq![s.first()] + (f2 + l + b.reverse()));
        assert(seq![s.first()] + rest =~= s);
    } else {
        let rest = s.drop_last();
        law_ends_meet(rest, from_front.drop_first());
        let b2 = taken_from_back(rest, from_front.drop_first());
        assert(b.reverse() =~= b2.reverse() + seq![s.last()]);
        assert(f + l + b.reverse() =~= (f + l + b2.reverse()) + seq![s.last()]);
        assert(rest + seq![s.last()] =~= s);
    }
}

} // verus!

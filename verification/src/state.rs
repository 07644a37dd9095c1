//! Inference states, and the segments and tokens that they give.

use crate::context::{borrow_bytes, owned_bytes, Context, Model, NativeAction};
use crate::error::{fails_with, ErrorView, WhisperError, WhisperResult};
use crate::float32::Float32;
use crate::lang::{id_of_name, lang_id_for, reads_as, Lang};
use crate::params::{asks_for_detection, Params, ParamsView};
use crate::text::{native_text, smol_new, smol_static, utf8_error, utf8_or_none};
use std::sync::Arc;
use vstd::prelude::*;
use vstd::utf8::{decode_utf8, valid_utf8};

verus! {

/// The fewest samples that the native preprocessor reads.
pub const MIN_SAMPLES: usize = 201;

/// How many samples make a second.
pub const SAMPLE_RATE: i64 = 16_000;

/// The native return code with which the native library has freed the state
/// itself.
pub const CODE_STATE_FREED: i32 = -7;

/// The largest of the native return codes that stand for a caught exception.
pub const ERR_BAD_ALLOC: i32 = -100;

/// One token as the native library gives it.
#[derive(Debug, Clone, Copy, PartialEq, Eq, Structural)]
pub struct TokenData {
    /// The number in the vocabulary.
    pub id: i32,
    /// The number of the forced timestamp token.
    pub tid: i32,
    /// The probability.
    pub p: Float32,
    /// Its logarithm.
    pub plog: Float32,
    /// The probability of the timestamp token.
    pub pt: Float32,
    /// The sum of the probabilities of all timestamp tokens.
    pub ptsum: Float32,
    /// The start time, in hundredths of a second.
    pub t0: i64,
    /// The end time, in hundredths of a second.
    pub t1: i64,
    /// The time by alignment, in hundredths of a second; negative where there is
    /// none.
    pub t_dtw: i64,
    /// The voice length.
    pub vlen: Float32,
}

/// One segment as the native library gives it.
#[derive(Debug)]
pub struct SegmentData {
    /// The start time, in hundredths of a second.
    pub t0: i64,
    /// The end time, in hundredths of a second.
    pub t1: i64,
    /// The text, in bytes.
    pub text: Option<Vec<u8>>,
    /// The probability of no speech.
    pub no_speech_prob: Float32,
    /// Whether the speaker changes after it.
    pub speaker_turn_next: bool,
    /// The tokens.
    pub tokens: Vec<TokenData>,
}

/// What a native state holds after a run, or before the first.
#[derive(Debug)]
pub struct Output {
    /// The segments.
    pub segments: Vec<SegmentData>,
    /// How many frames of the mel spectrogram there are.
    pub n_mel_frames: i32,
    /// The number of the language; negative where there is none.
    pub lang_id: i32,
    /// The code of that language, in bytes, where the native table holds it.
    pub lang_code: Option<Vec<u8>>,
}

/// The answer of the native library to a request for a state.
#[derive(Debug)]
pub enum InitReturn {
    /// A state, and what it holds.
    Ready(Output),
    /// No state, and nothing native is left of the attempt.
    Null {
        /// The sentinel of the exception that was caught; 0 where none was.
        exception: i32,
    },
}

/// The answer of the native library to a run.
#[derive(Debug)]
pub struct FullReturn {
    /// The return code.
    pub code: i32,
    /// What the state holds now. Of a state that was lost, nothing is read.
    pub output: Output,
}

/// A number of things, as a native `int` counts them.
pub open spec fn native_count(n: nat) -> nat {
    if n > i32::MAX {
        i32::MAX as nat
    } else {
        n
    }
}

/// Counts things as a native `int` does.
fn count_of(n: usize) -> (r: i32)
    ensures
        r == native_count(n as nat),
{
    if n > i32::MAX as usize {
        i32::MAX
    } else {
        n as i32
    }
}

/// One token.
#[derive(Clone, Copy)]
pub struct Token {
    data: TokenData,
}

impl Token {
    /// What the native library says of the token.
    pub closed spec fn data(self) -> TokenData {
        self.data
    }

    /// The token, as the native library gives it.
    pub fn from_raw(raw: TokenData) -> (r: Self)
        ensures
            r.data() == raw,
    {
        Token { data: raw }
    }

    /// The number in the vocabulary.
    pub fn id(&self) -> (r: i32)
        ensures
            r == self.data().id,
    {
        self.data.id
    }

    /// The probability.
    pub fn p(&self) -> (r: Float32)
        ensures
            r == self.data().p,
    {
        self.data.p
    }

    /// The logarithm of the probability.
    pub fn plog(&self) -> (r: Float32)
        ensures
            r == self.data().plog,
    {
        self.data.plog
    }

    /// The probability of the timestamp token.
    pub fn pt(&self) -> (r: Float32)
        ensures
            r == self.data().pt,
    {
        self.data.pt
    }

    /// The sum of the probabilities of all timestamp tokens.
    pub fn ptsum(&self) -> (r: Float32)
        ensures
            r == self.data().ptsum,
    {
        self.data.ptsum
    }

    /// The start time, in hundredths of a second, from the timestamp tokens.
    pub fn t0(&self) -> (r: i64)
        ensures
            r == self.data().t0,
    {
        self.data.t0
    }

    /// The end time, in hundredths of a second, from the timestamp tokens.
    pub fn t1(&self) -> (r: i64)
        ensures
            r == self.data().t1,
    {
        self.data.t1
    }

    /// The time by alignment, in hundredths of a second; `None` where the
    /// alignment pass gave none. Zero is a time like any other.
    pub fn t_dtw(&self) -> (r: Option<i64>)
        ensures
            r == (if self.data().t_dtw < 0 {
                None
            } else {
                Some(self.data().t_dtw)
            }),
    {
        if self.data.t_dtw < 0 {
            None
        } else {
            Some(self.data.t_dtw)
        }
    }

    /// The voice length.
    pub fn vlen(&self) -> (r: Float32)
        ensures
            r == self.data().vlen,
    {
        self.data.vlen
    }
}

impl SegmentData {
    /// The tokens that can be counted.
    pub open spec fn listed(self) -> Seq<TokenData> {
        self.tokens@.take(native_count(self.tokens@.len()) as int)
    }
}

/// One segment of a state's output.
#[derive(Clone, Copy)]
pub struct Segment<'a> {
    data: &'a SegmentData,
}

impl<'a> Segment<'a> {
    /// What the native library says of the segment.
    pub closed spec fn data(self) -> SegmentData {
        *self.data
    }

    /// The start time, in hundredths of a second.
    pub fn t0(&self) -> (r: i64)
        ensures
            r == self.data().t0,
    {
        self.data.t0
    }

    /// The end time, in hundredths of a second.
    pub fn t1(&self) -> (r: i64)
        ensures
            r == self.data().t1,
    {
        self.data.t1
    }

    /// The text; empty where the native library gives none, and an error where
    /// what it gives is not UTF-8.
    pub fn text(&self) -> (r: WhisperResult<&'a str>)
        ensures
            match owned_bytes(self.data().text) {
                Some(bytes) => if valid_utf8(bytes) {
                    r matches Ok(text) && text@ == decode_utf8(bytes)
                } else {
                    fails_with(r, ErrorView::Utf8 { error: utf8_error(bytes) })
                },
                None => r matches Ok(text) && text@ == Seq::<char>::empty(),
            },
    {
        match &self.data.text {
            Some(bytes) => match core::str::from_utf8(bytes.as_slice()) {
                Ok(text) => Ok(text),
                Err(e) => Err(WhisperError::Utf8(e)),
            },
            None => {
                proof {
                    reveal_strlit("");
                }
                assert(""@ =~= Seq::<char>::empty());
                Ok("")
            },
        }
    }

    /// The probability of no speech.
    pub fn no_speech_prob(&self) -> (r: Float32)
        ensures
            r == self.data().no_speech_prob,
    {
        self.data.no_speech_prob
    }

    /// How many tokens there are.
    pub fn n_tokens(&self) -> (r: i32)
        ensures
            r == self.data().listed().len(),
    {
        count_of(self.data.tokens.len())
    }

    /// A token, by its index; `None` for an index out of range.
    pub fn token(&self, tok_idx: i32) -> (r: Option<Token>)
        ensures
            r is Some <==> 0 <= tok_idx < self.data().listed().len(),
            r matches Some(token) ==> token.data() == self.data().listed()[tok_idx as int],
    {
        if tok_idx < 0 || tok_idx >= self.n_tokens() {
            return None;
        }
        Some(Token::from_raw(self.data.tokens[tok_idx as usize]))
    }

    /// The tokens, one after the other.
    pub fn tokens_iter(&self) -> (r: Tokens<'a>)
        ensures
            r@ == self.data().listed(),
    {
        let end = self.n_tokens();
        let r = Tokens { segment: *self, next: 0, end };
        assert(r@ =~= self.data().listed());
        r
    }

    /// Whether the speaker changes after the segment.
    pub fn speaker_turn_next(&self) -> (r: bool)
        ensures
            r == self.data().speaker_turn_next,
    {
        self.data.speaker_turn_next
    }
}

/// The tokens of a segment that are still to come, from either end.
pub struct Tokens<'a> {
    segment: Segment<'a>,
    next: i32,
    end: i32,
}

impl<'a> View for Tokens<'a> {
    type V = Seq<TokenData>;

    closed spec fn view(&self) -> Seq<TokenData> {
        self.segment.data().listed().subrange(self.next as int, self.end as int)
    }
}

impl<'a> Tokens<'a> {
    #[verifier::type_invariant]
    spec fn in_range(self) -> bool {
        0 <= self.next <= self.end <= self.segment.data().listed().len()
    }

    /// Takes the first token that is still to come.
    pub fn next(&mut self) -> (r: Option<Token>)
        ensures
            r is Some <==> old(self)@.len() > 0,
            r matches Some(token) ==> token.data() == old(self)@.first() && final(self)@ == old(
                self,
            )@.drop_first(),
            r is None ==> final(self)@ == old(self)@,
    {
        proof {
            use_type_invariant(&*self);
        }
        if self.next >= self.end {
            return None;
        }
        let idx = self.next;
        self.next = self.next + 1;
        assert(self@ =~= old(self)@.drop_first());
        Some(Token::from_raw(self.segment.data.tokens[idx as usize]))
    }

    /// Takes the last token that is still to come.
    pub fn next_back(&mut self) -> (r: Option<Token>)
        ensures
            r is Some <==> old(self)@.len() > 0,
            r matches Some(token) ==> token.data() == old(self)@.last() && final(self)@ == old(
                self,
            )@.drop_last(),
            r is None ==> final(self)@ == old(self)@,
    {
        proof {
            use_type_invariant(&*self);
        }
        if self.next >= self.end {
            return None;
        }
        self.end = self.end - 1;
        assert(self@ =~= old(self)@.drop_last());
        Some(Token::from_raw(self.segment.data.tokens[self.end as usize]))
    }

    /// How many tokens are still to come.
    pub fn len(&self) -> (r: usize)
        ensures
            r == self@.len(),
    {
        proof {
            use_type_invariant(self);
        }
        (self.end - self.next) as usize
    }

    /// How many tokens are still to come, as a lower and an upper bound.
    pub fn size_hint(&self) -> (r: (usize, Option<usize>))
        ensures
            r.0 == self@.len(),
            r.1 == Some(r.0),
    {
        let n = self.len();
        (n, Some(n))
    }

    /// Counts the tokens that are still to come.
    pub fn count(self) -> (r: usize)
        ensures
            r == self@.len(),
    {
        self.len()
    }

    /// The tokens that are still to come.
    pub fn collect(self) -> (r: Vec<Token>)
        ensures
            r@.len() == self@.len(),
            forall|i: int| 0 <= i < r@.len() ==> (#[trigger] r@[i]).data() == self@[i],
    {
        let mut rest = self;
        let mut out: Vec<Token> = Vec::new();
        assert(rest@ =~= self@.skip(0));
        loop
            invariant
                out@.len() <= self@.len(),
                rest@ == self@.skip(out@.len() as int),
                forall|i: int| 0 <= i < out@.len() ==> (#[trigger] out@[i]).data() == self@[i],
            ensures
                out@.len() == self@.len(),
                forall|i: int| 0 <= i < out@.len() ==> (#[trigger] out@[i]).data() == self@[i],
            decreases self@.len() - out@.len(),
        {
            match rest.next() {
                Some(token) => {
                    let ghost n = out@.len() as int;
                    assert(self@.skip(n).drop_first() =~= self@.skip(n + 1));
                    out.push(token);
                },
                None => {
                    break;
                },
            }
        }
        out
    }
}

/// The segments of a state that are still to come, from either end.
pub struct Segments<'a> {
    state: &'a State,
    next: i32,
    end: i32,
}

impl<'a> View for Segments<'a> {
    type V = Seq<SegmentData>;

    closed spec fn view(&self) -> Seq<SegmentData> {
        self.state.listed().subrange(self.next as int, self.end as int)
    }
}

impl<'a> Segments<'a> {
    #[verifier::type_invariant]
    spec fn in_range(self) -> bool {
        0 <= self.next <= self.end <= self.state.listed().len()
    }

    /// Takes the first segment that is still to come.
    pub fn next(&mut self) -> (r: Option<Segment<'a>>)
        ensures
            r is Some <==> old(self)@.len() > 0,
            r matches Some(segment) ==> segment.data() == old(self)@.first() && final(self)@ == old(
                self,
            )@.drop_first(),
            r is None ==> final(self)@ == old(self)@,
    {
        proof {
            use_type_invariant(&*self);
        }
        if self.next >= self.end {
            return None;
        }
        let idx = self.next;
        self.next = self.next + 1;
        assert(self@ =~= old(self)@.drop_first());
        self.state.segment(idx)
    }

    /// Takes the last segment that is still to come.
    pub fn next_back(&mut self) -> (r: Option<Segment<'a>>)
        ensures
            r is Some <==> old(self)@.len() > 0,
            r matches Some(segment) ==> segment.data() == old(self)@.last() && final(self)@ == old(
                self,
            )@.drop_last(),
            r is None ==> final(self)@ == old(self)@,
    {
        proof {
            use_type_invariant(&*self);
        }
        if self.next >= self.end {
            return None;
        }
        self.end = self.end - 1;
        assert(self@ =~= old(self)@.drop_last());
        self.state.segment(self.end)
    }

    /// How many segments are still to come.
    pub fn len(&self) -> (r: usize)
        ensures
            r == self@.len(),
    {
        proof {
            use_type_invariant(self);
        }
        (self.end - self.next) as usize
    }

    /// How many segments are still to come, as a lower and an upper bound.
    pub fn size_hint(&self) -> (r: (usize, Option<usize>))
        ensures
            r.0 == self@.len(),
            r.1 == Some(r.0),
    {
        let n = self.len();
        (n, Some(n))
    }

    /// Counts the segments that are still to come.
    pub fn count(self) -> (r: usize)
        ensures
            r == self@.len(),
    {
        self.len()
    }

    /// The segments that are still to come.
    pub fn collect(self) -> (r: Vec<Segment<'a>>)
        ensures
            r@.len() == self@.len(),
            forall|i: int| 0 <= i < r@.len() ==> (#[trigger] r@[i]).data() == self@[i],
    {
        let mut rest = self;
        let mut out: Vec<Segment<'a>> = Vec::new();
        assert(rest@ =~= self@.skip(0));
        loop
            invariant
                out@.len() <= self@.len(),
                rest@ == self@.skip(out@.len() as int),
                forall|i: int| 0 <= i < out@.len() ==> (#[trigger] out@[i]).data() == self@[i],
            ensures
                out@.len() == self@.len(),
                forall|i: int| 0 <= i < out@.len() ==> (#[trigger] out@[i]).data() == self@[i],
            decreases self@.len() - out@.len(),
        {
            match rest.next() {
                Some(segment) => {
                    let ghost n = out@.len() as int;
                    assert(self@.skip(n).drop_first() =~= self@.skip(n + 1));
                    out.push(segment);
                },
                None => {
                    break;
                },
            }
        }
        out
    }
}

/// An inference state of a context.
///
/// Where the native state is gone, the state is poisoned: it reads as empty, and
/// there is nothing left to free.
#[derive(Debug)]
pub struct State {
    model: Arc<Model>,
    context_serial: u64,
    output: Option<Output>,
}

impl State {
    /// The model that the state works with.
    pub closed spec fn model(self) -> Model {
        *self.model
    }

    /// The number of the context that the state was made of.
    pub closed spec fn context_serial(self) -> u64 {
        self.context_serial
    }

    /// Whether the state was made of a context.
    pub open spec fn belongs_to(self, context: Context) -> bool {
        self.context_serial() == context.serial()
    }

    /// What the native state holds; `None` where it is gone.
    pub closed spec fn output(self) -> Option<Output> {
        self.output
    }

    /// The segments that can be counted.
    pub open spec fn listed(self) -> Seq<SegmentData> {
        match self.output() {
            Some(output) => output.segments@.take(
                native_count(output.segments@.len()) as int,
            ),
            None => Seq::empty(),
        }
    }

    /// A state around a native one that holds `output`.
    pub(crate) fn from_raw(output: Output, context: &Context) -> (r: Self)
        ensures
            r.model() == context.model(),
            r.belongs_to(*context),
            r.output() == Some(output),
    {
        State {
            model: context.share_model(),
            context_serial: context.serial_number(),
            output: Some(output),
        }
    }

    /// Whether the state was made of a context.
    pub fn is_of(&self, context: &Context) -> (r: bool)
        ensures
            r == self.belongs_to(*context),
    {
        self.context_serial == context.serial_number()
    }

    /// How many frames of the mel spectrogram there are; none where the native state
    /// is gone.
    pub open spec fn mel_frames(self) -> i32 {
        match self.output() {
            Some(output) => output.n_mel_frames,
            None => 0,
        }
    }

    /// The code of the language that was found or set, if there is one.
    pub open spec fn lang_text(self) -> Option<Seq<char>> {
        match self.output() {
            Some(output) => if output.lang_id >= 0 {
                native_text(owned_bytes(output.lang_code))
            } else {
                None
            },
            None => None,
        }
    }

    /// Whether the native library may be asked about the native state.
    pub open spec fn may_call(self) -> bool {
        self.output() is Some
    }

    /// What becomes of the native state when its owner gives it up.
    pub open spec fn release_action(self) -> NativeAction {
        if self.output() is Some {
            NativeAction::Free
        } else {
            NativeAction::Gone
        }
    }

    /// The model that the state works with, which it keeps alive.
    pub fn context(&self) -> (r: &Arc<Model>)
        ensures
            **r == self.model(),
    {
        &self.model
    }

    /// Whether the native state is gone.
    pub fn is_poisoned(&self) -> (r: bool)
        ensures
            r == self.output() is None,
    {
        self.output.is_none()
    }

    /// How many segments there are.
    pub fn n_segments(&self) -> (r: i32)
        ensures
            r == self.listed().len(),
    {
        match &self.output {
            Some(output) => count_of(output.segments.len()),
            None => 0,
        }
    }

    /// How many frames of the mel spectrogram there are.
    pub fn n_mel_frames(&self) -> (r: i32)
        ensures
            r == self.mel_frames(),
    {
        match &self.output {
            Some(output) => output.n_mel_frames,
            None => 0,
        }
    }

    /// Whether the native timings of the state are to be printed: not where the
    /// native state is gone.
    pub fn print_timings(&self) -> (r: bool)
        ensures
            r == self.may_call(),
    {
        self.output.is_some()
    }

    /// Whether the native timings of the state are to be set back: not where the
    /// native state is gone. Nothing else of the state changes.
    pub fn reset_timings(&mut self) -> (r: bool)
        ensures
            r == old(self).may_call(),
            *final(self) == *old(self),
    {
        self.output.is_some()
    }

    /// A segment, by its index; `None` for an index out of range.
    pub fn segment(&self, idx: i32) -> (r: Option<Segment<'_>>)
        ensures
            r is Some <==> 0 <= idx < self.listed().len(),
            r matches Some(segment) ==> segment.data() == self.listed()[idx as int],
    {
        match &self.output {
            Some(output) => if idx < 0 || idx >= count_of(output.segments.len()) {
                None
            } else {
                Some(Segment { data: &output.segments[idx as usize] })
            },
            None => None,
        }
    }

    /// The segments, one after the other.
    pub fn segments_iter(&self) -> (r: Segments<'_>)
        ensures
            r@ == self.listed(),
    {
        let end = self.n_segments();
        let r = Segments { state: self, next: 0, end };
        assert(r@ =~= self.listed());
        r
    }

    /// The language that was found or set; `None` where the state is poisoned,
    /// where there is none, and where the native table gives no UTF-8 code for it.
    pub fn detected_lang(&self) -> (r: Option<Lang>)
        ensures
            match self.lang_text() {
                Some(code) => r matches Some(lang) && reads_as(code, lang),
                None => r is None,
            },
    {
        match &self.output {
            Some(output) => {
                if output.lang_id < 0 {
                    return None;
                }
                match utf8_or_none(borrow_bytes(&output.lang_code)) {
                    Some(code) => Some(Lang::from_iso639_1(code)),
                    None => None,
                }
            },
            None => None,
        }
    }
}

/// Whether a token lies outside a vocabulary.
pub open spec fn is_foreign(token: i32, n_vocab: i32) -> bool {
    token < 0 || token >= n_vocab
}

/// The first token that lies outside a vocabulary, if there is one.
pub open spec fn first_foreign(tokens: Seq<i32>, n_vocab: i32) -> Option<i32>
    decreases tokens.len(),
{
    if tokens.len() == 0 {
        None
    } else if is_foreign(tokens.first(), n_vocab) {
        Some(tokens.first())
    } else {
        first_foreign(tokens.drop_first(), n_vocab)
    }
}

/// The length of so many samples, in milliseconds, rounded down.
pub open spec fn audio_ms(n_samples: nat) -> nat {
    n_samples * 1000 / (SAMPLE_RATE as nat)
}

/// Whether a range reaches past the end of the audio. A duration of 0 stands for
/// all that follows the offset.
pub open spec fn range_refused(offset_ms: int, duration_ms: int, n_samples: nat) -> bool {
    ||| offset_ms < 0
    ||| duration_ms < 0
    ||| offset_ms + duration_ms > audio_ms(n_samples)
}

/// The error with which a language is refused, if it is, where the native library
/// knows the one in force as number `native_id`. Finding a language out takes a
/// model with several.
pub open spec fn model_language_refusal(
    model: Model,
    params: ParamsView,
    native_id: i32,
) -> Option<ErrorView> {
    if params.auto_detects() {
        if model.multilingual == 0 {
            Some(ErrorView::LanguageNotSupportedByModel { hint: "auto"@ })
        } else {
            None
        }
    } else {
        match params.language_in_force() {
            Some(hint) => match id_of_name(hint, native_id) {
                Some(id) if model.supports(id as int) => None,
                _ => Some(ErrorView::LanguageNotSupportedByModel { hint }),
            },
            None => None,
        }
    }
}

/// The error with which the input of a run is refused, if it is.
pub open spec fn input_refusal(
    model: Model,
    params: ParamsView,
    n_samples: nat,
    native_id: i32,
) -> Option<ErrorView> {
    let foreign = match params.prompt_tokens {
        Some(tokens) => first_foreign(tokens, model.n_vocab),
        None => None,
    };
    if n_samples < MIN_SAMPLES {
        Some(ErrorView::SamplesTooShort { samples: n_samples, min_required: MIN_SAMPLES as nat })
    } else if n_samples > i32::MAX {
        Some(ErrorView::SamplesOverflow { samples: n_samples })
    } else if let Some(token) = foreign {
        Some(ErrorView::TokenOutOfRange { token, vocab_size: model.n_vocab })
    } else if let Some(e) = model_language_refusal(model, params, native_id) {
        Some(e)
    } else if range_refused(
        params.raw.offset_ms as int,
        params.raw.duration_ms as int,
        n_samples,
    ) {
        Some(
            ErrorView::InvalidDuration {
                offset_ms: params.raw.offset_ms as int,
                duration_ms: params.raw.duration_ms as int,
                audio_duration_ms: audio_ms(n_samples) as int,
            },
        )
    } else {
        None
    }
}

/// The error with which a run is refused, if it is: for its input, because the
/// native state is gone, or because the context is poisoned.
pub open spec fn run_refusal(
    state: State,
    lost: bool,
    params: ParamsView,
    n_samples: nat,
    native_id: i32,
) -> Option<ErrorView> {
    if let Some(e) = input_refusal(state.model(), params, n_samples, native_id) {
        Some(e)
    } else if state.output() is None {
        Some(ErrorView::StateLost { code: CODE_STATE_FREED })
    } else if lost {
        Some(ErrorView::ContextPoisoned)
    } else {
        None
    }
}

/// What becomes of the native state when a run returns a code.
pub open spec fn run_action(code: i32) -> NativeAction {
    if code == CODE_STATE_FREED {
        NativeAction::Gone
    } else if code <= ERR_BAD_ALLOC {
        NativeAction::Free
    } else {
        NativeAction::Keep
    }
}

/// Whether the native state is still there, and may be read, after a run that
/// returned a code.
pub fn survives_run(code: i32) -> (r: bool)
    ensures
        r == (run_action(code) == NativeAction::Keep),
{
    code != CODE_STATE_FREED && code > ERR_BAD_ALLOC
}

/// The error that a return code of a run stands for, if it does.
pub open spec fn run_error(code: i32) -> Option<ErrorView> {
    if code == 0 {
        None
    } else if run_action(code) == NativeAction::Keep {
        Some(ErrorView::Full { code })
    } else {
        Some(ErrorView::StateLost { code })
    }
}

/// What becomes of the native state of a state that is left as it is.
pub open spec fn idle_action(state: State) -> NativeAction {
    if state.output() is Some {
        NativeAction::Keep
    } else {
        NativeAction::Gone
    }
}

/// A call of [`State::full`]: what it was given, what it found and what it left.
pub struct RunStep {
    /// The settings.
    pub params: ParamsView,
    /// The number of samples.
    pub n_samples: nat,
    /// The native number of the language in force.
    pub native_id: i32,
    /// The native answer.
    pub ret: FullReturn,
    /// The state before.
    pub before: State,
    /// The number of the context.
    pub context_serial: u64,
    /// Whether the context was poisoned before.
    pub lost_before: bool,
    /// The state after.
    pub after: State,
    /// Whether the context is poisoned after.
    pub lost_after: bool,
    /// The result.
    pub result: WhisperResult<()>,
    /// What becomes of the native state.
    pub action: NativeAction,
}

impl RunStep {
    /// What a call of [`State::full`] does. It is made with the context that the
    /// state was made of. One that is refused changes nothing
    /// and reads nothing of the native answer. Otherwise the return code decides:
    /// the state takes over what the native state holds, or is lost, and with it
    /// the context is poisoned.
    pub open spec fn is_run(self) -> bool {
        &&& self.before.context_serial() == self.context_serial
        &&& self.after.context_serial() == self.context_serial
        &&& match run_refusal(
            self.before,
            self.lost_before,
            self.params,
            self.n_samples,
            self.native_id,
        ) {
            Some(e) => {
                &&& fails_with(self.result, e)
                &&& self.action == idle_action(self.before)
                &&& self.after == self.before
                &&& self.lost_after == self.lost_before
            },
            None => {
                &&& match run_error(self.ret.code) {
                    Some(e) => fails_with(self.result, e),
                    None => self.result is Ok,
                }
                &&& self.action == run_action(self.ret.code)
                &&& self.after.output() == (if self.action == NativeAction::Keep {
                    Some(self.ret.output)
                } else {
                    None
                })
                &&& self.lost_after == (self.action != NativeAction::Keep)
            },
        }
    }
}

/// Finds the first token that lies outside a vocabulary.
fn find_foreign(tokens: &[i32], n_vocab: i32) -> (r: Option<i32>)
    ensures
        r == first_foreign(tokens@, n_vocab),
{
    let mut i: usize = 0;
    assert(tokens@.skip(0) =~= tokens@);
    while i < tokens.len()
        invariant
            i <= tokens@.len(),
            first_foreign(tokens@, n_vocab) == first_foreign(tokens@.skip(i as int), n_vocab),
        decreases tokens@.len() - i,
    {
        let token = tokens[i];
        assert(tokens@.skip(i as int).first() == token);
        if token < 0 || token >= n_vocab {
            return Some(token);
        }
        assert(tokens@.skip(i as int).drop_first() =~= tokens@.skip(i + 1));
        i += 1;
    }
    None
}

/// Checks the language in force against the model.
fn check_language(model: &Model, params: &Params, native_id: i32) -> (r: WhisperResult<()>)
    ensures
        match model_language_refusal(*model, params@, native_id) {
            Some(e) => fails_with(r, e),
            None => r is Ok,
        },
{
    let hint = params.language();
    let auto_detect = params.detect_language() || match hint {
        Some(hint) => asks_for_detection(hint),
        None => true,
    };
    if auto_detect {
        if model.multilingual == 0 {
            return Err(WhisperError::LanguageNotSupportedByModel(smol_static("auto")));
        }
    } else if let Some(hint) = hint {
        let supported = match lang_id_for(hint, native_id) {
            Some(id) => model.supports_lang(id),
            None => false,
        };
        if !supported {
            return Err(WhisperError::LanguageNotSupportedByModel(smol_new(hint)));
        }
    }
    Ok(())
}

impl State {
    /// Decides whether a run over `n_samples` samples may be made, where the
    /// native library knows the language in force as number `native_id` (its
    /// answer to [`lang_query`](crate::lang::lang_query)); gives the number of
    /// samples, as a native `int`.
    pub fn full_request(
        &self,
        context: &Context,
        params: &Params,
        n_samples: usize,
        native_id: i32,
    ) -> (r: WhisperResult<i32>)
        requires
            self.belongs_to(*context),
        ensures
            match run_refusal(*self, context.lost(), params@, n_samples as nat, native_id) {
                Some(e) => fails_with(r, e),
                None => r matches Ok(n) && n == n_samples,
            },
    {
        if n_samples < MIN_SAMPLES {
            return Err(
                WhisperError::SamplesTooShort { samples: n_samples, min_required: MIN_SAMPLES },
            );
        }
        if n_samples > i32::MAX as usize {
            return Err(WhisperError::SamplesOverflow { samples: n_samples });
        }
        if let Some(tokens) = params.prompt_tokens() {
            if let Some(token) = find_foreign(tokens, self.model.n_vocab) {
                return Err(
                    WhisperError::TokenOutOfRange { token, vocab_size: self.model.n_vocab },
                );
            }
        }
        match check_language(&self.model, params, native_id) {
            Ok(()) => {},
            Err(e) => {
                return Err(e);
            },
        }
        let offset_ms: i64 = params.offset_ms() as i64;
        let duration_ms: i64 = params.duration_ms() as i64;
        let audio_duration_ms: i64 = n_samples as i64 * 1000 / SAMPLE_RATE;
        if offset_ms < 0 || duration_ms < 0 || offset_ms + duration_ms > audio_duration_ms {
            return Err(
                WhisperError::InvalidDuration {
                    offset_ms: params.offset_ms(),
                    duration_ms: params.duration_ms(),
                    audio_duration_ms,
                },
            );
        }
        if self.output.is_none() {
            return Err(WhisperError::StateLost { code: CODE_STATE_FREED });
        }
        if context.is_poisoned() {
            return Err(WhisperError::ContextPoisoned);
        }
        Ok(n_samples as i32)
    }

    /// The outcome of a run over `n_samples` samples, where the native library
    /// answered `ret` to what [`State::full_request`] allows; and what becomes of
    /// the native state. A run that loses the native state poisons the context.
    pub fn full(
        &mut self,
        context: &mut Context,
        params: &Params,
        n_samples: usize,
        native_id: i32,
        ret: FullReturn,
    ) -> (r: (WhisperResult<()>, NativeAction))
        requires
            old(self).belongs_to(*old(context)),
        ensures
            final(self).model() == old(self).model(),
            final(context).model() == old(context).model(),
            final(context).serial() == old(context).serial(),
            (RunStep {
                params: params@,
                n_samples: n_samples as nat,
                native_id,
                ret,
                before: *old(self),
                context_serial: old(context).serial(),
                lost_before: old(context).lost(),
                after: *final(self),
                lost_after: final(context).lost(),
                result: r.0,
                action: r.1,
            }).is_run(),
    {
        match self.full_request(context, params, n_samples, native_id) {
            Ok(_) => {},
            Err(e) => {
                let action = if self.output.is_some() {
                    NativeAction::Keep
                } else {
                    NativeAction::Gone
                };
                return (Err(e), action);
            },
        }
        let code = ret.code;
        if code == CODE_STATE_FREED {
            self.output = None;
            context.mark_lost();
            return (Err(WhisperError::StateLost { code }), NativeAction::Gone);
        }
        if code <= ERR_BAD_ALLOC {
            context.mark_lost();
            self.output = None;
            return (Err(WhisperError::StateLost { code }), NativeAction::Free);
        }
        self.output = Some(ret.output);
        if code == 0 {
            (Ok(()), NativeAction::Keep)
        } else {
            (Err(WhisperError::Full { code }), NativeAction::Keep)
        }
    }

    /// Gives the native state up; says whether there is one to free.
    pub fn release(&mut self) -> (r: NativeAction)
        ensures
            final(self).output() is None,
            final(self).model() == old(self).model(),
            final(self).context_serial() == old(self).context_serial(),
            r == old(self).release_action(),
    {
        match self.output.take() {
            Some(_) => NativeAction::Free,
            None => NativeAction::Gone,
        }
    }
}

impl Context {
    /// Decides whether a state may be asked for.
    pub fn create_state_request(&self) -> (r: WhisperResult<()>)
        ensures
            if self.lost() {
                fails_with(r, ErrorView::ContextPoisoned)
            } else {
                r is Ok
            },
    {
        if self.is_poisoned() {
            Err(WhisperError::ContextPoisoned)
        } else {
            Ok(())
        }
    }

    /// The outcome of asking for a state, where the native library answered `ret`
    /// to what [`Context::create_state_request`] allows; and what becomes of the
    /// native state. The context may have been poisoned in between: then the new
    /// state is not handed out.
    pub fn create_state(&self, ret: InitReturn) -> (r: (WhisperResult<State>, NativeAction))
        ensures
            if self.lost() {
                fails_with(r.0, ErrorView::ContextPoisoned)
            } else {
                match ret {
                    InitReturn::Ready(output) => r.0 matches Ok(state) && state.model()
                        == self.model() && state.belongs_to(*self) && state.output() == Some(
                        output,
                    ),
                    InitReturn::Null { exception } => fails_with(
                        r.0,
                        ErrorView::StateInit {
                            code: if exception == 0 {
                                None
                            } else {
                                Some(exception)
                            },
                        },
                    ),
                }
            },
            r.1 == (if r.0 is Ok {
                NativeAction::Keep
            } else if ret is Ready {
                NativeAction::Free
            } else {
                NativeAction::Gone
            }),
    {
        match ret {
            InitReturn::Ready(output) => if self.is_poisoned() {
                (Err(WhisperError::ContextPoisoned), NativeAction::Free)
            } else {
                (Ok(State::from_raw(output, self)), NativeAction::Keep)
            },
            InitReturn::Null { exception } => if self.is_poisoned() {
                (Err(WhisperError::ContextPoisoned), NativeAction::Gone)
            } else {
                let code = if exception == 0 {
                    None
                } else {
                    Some(exception)
                };
                (Err(WhisperError::StateInit { code }), NativeAction::Gone)
            },
        }
    }
}

} // verus!

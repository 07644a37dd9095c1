//! The crate's error type.

use crate::text::smol_chars;
use core::str::Utf8Error;
use smol_str::SmolStr;
use vstd::prelude::*;

verus! {

/// Result alias used throughout the crate.
pub type WhisperResult<T> = Result<T, WhisperError>;

/// What can go wrong on the way to and from the native library.
///
/// Diagnostic texts ride in `SmolStr`: they are mostly short and then need no
/// allocation.
#[derive(Debug)]
pub enum WhisperError {
    /// The model could not be loaded, or was refused after loading.
    /// Retryable: nothing native is left behind.
    ContextLoad {
        /// The path that was asked for.
        path: SmolStr,
        /// One of a small set of fixed explanations.
        reason: SmolStr,
        /// The sentinel of a native exception, where one was caught.
        code: Option<i32>,
    },
    /// The native library produced no inference state. Retryable: nothing native
    /// is left behind, and the context stays usable.
    StateInit {
        /// The sentinel of a native exception, where one was caught.
        code: Option<i32>,
    },
    /// The context was poisoned by an earlier [`WhisperError::StateLost`]; drop
    /// it and load the model again.
    ContextPoisoned,
    /// A native constructor threw and left a partial allocation behind. Nothing
    /// here produces it; it is kept for builds whose native side lacks the
    /// cleanup that makes it unreachable.
    ConstructorLost {
        /// Which constructor: `"context"` or `"state"`.
        origin: &'static str,
        /// The sentinel of the native exception.
        code: i32,
    },
    /// Memory for a copy of caller-supplied data was refused. Retryable.
    AllocationFailed {
        /// Which input was being copied.
        context: &'static str,
    },
    /// The native run failed and left the state intact.
    Full {
        /// The native return code.
        code: i32,
    },
    /// The native state is gone, and the context is poisoned.
    StateLost {
        /// The native return code or exception sentinel.
        code: i32,
    },
    /// A text that must cross as a NUL-terminated string holds a NUL byte.
    InvalidCString(SmolStr),
    /// A text is longer than its setter accepts.
    InputTooLong {
        /// The leading characters of the text.
        head: SmolStr,
        /// Its length in bytes.
        len: usize,
        /// The longest length accepted, in bytes.
        cap: usize,
    },
    /// The native library does not know a language hint.
    UnknownLanguage(SmolStr),
    /// The native library knows a language, but the loaded model does not.
    LanguageNotSupportedByModel(SmolStr),
    /// The configured range reaches past the end of the audio.
    InvalidDuration {
        /// The configured start offset, in milliseconds.
        offset_ms: i32,
        /// The configured duration, in milliseconds; 0 means to the end.
        duration_ms: i32,
        /// The length of the audio, in milliseconds, rounded down.
        audio_duration_ms: i64,
    },
    /// Text from the native library is not UTF-8.
    Utf8(Utf8Error),
    /// There are more samples than a native `int` can count.
    SamplesOverflow {
        /// How many samples were passed.
        samples: usize,
    },
    /// There are fewer samples than the native preprocessor reads.
    SamplesTooShort {
        /// How many samples were passed.
        samples: usize,
        /// How many it reads at least.
        min_required: usize,
    },
    /// A prompt token lies outside the model's vocabulary.
    TokenOutOfRange {
        /// The token id.
        token: i32,
        /// The size of the vocabulary.
        vocab_size: i32,
    },
}

/// What a [`WhisperError`] says, with its texts as sequences of characters.
pub enum ErrorView {
    /// See [`WhisperError::ContextLoad`].
    ContextLoad { path: Seq<char>, reason: Seq<char>, code: Option<i32> },
    /// See [`WhisperError::StateInit`].
    StateInit { code: Option<i32> },
    /// See [`WhisperError::ContextPoisoned`].
    ContextPoisoned,
    /// See [`WhisperError::ConstructorLost`].
    ConstructorLost { origin: Seq<char>, code: i32 },
    /// See [`WhisperError::AllocationFailed`].
    AllocationFailed { context: Seq<char> },
    /// See [`WhisperError::Full`].
    Full { code: i32 },
    /// See [`WhisperError::StateLost`].
    StateLost { code: i32 },
    /// See [`WhisperError::InvalidCString`].
    InvalidCString { text: Seq<char> },
    /// See [`WhisperError::InputTooLong`].
    InputTooLong { head: Seq<char>, len: nat, cap: nat },
    /// See [`WhisperError::UnknownLanguage`].
    UnknownLanguage { hint: Seq<char> },
    /// See [`WhisperError::LanguageNotSupportedByModel`].
    LanguageNotSupportedByModel { hint: Seq<char> },
    /// See [`WhisperError::InvalidDuration`].
    InvalidDuration { offset_ms: int, duration_ms: int, audio_duration_ms: int },
    /// See [`WhisperError::Utf8`].
    Utf8 { error: Utf8Error },
    /// See [`WhisperError::SamplesOverflow`].
    SamplesOverflow { samples: nat },
    /// See [`WhisperError::SamplesTooShort`].
    SamplesTooShort { samples: nat, min_required: nat },
    /// See [`WhisperError::TokenOutOfRange`].
    TokenOutOfRange { token: i32, vocab_size: i32 },
}

impl View for WhisperError {
    type V = ErrorView;

    open spec fn view(&self) -> ErrorView {
        match *self {
            WhisperError::ContextLoad { path, reason, code } => ErrorView::ContextLoad {
                path: smol_chars(path),
                reason: smol_chars(reason),
                code,
            },
            WhisperError::StateInit { code } => ErrorView::StateInit { code },
            WhisperError::ContextPoisoned => ErrorView::ContextPoisoned,
            WhisperError::ConstructorLost { origin, code } => ErrorView::ConstructorLost {
                origin: origin@,
                code,
            },
            WhisperError::AllocationFailed { context } => ErrorView::AllocationFailed {
                context: context@,
            },
            WhisperError::Full { code } => ErrorView::Full { code },
            WhisperError::StateLost { code } => ErrorView::StateLost { code },
            WhisperError::InvalidCString(text) => ErrorView::InvalidCString {
                text: smol_chars(text),
            },
            WhisperError::InputTooLong { head, len, cap } => ErrorView::InputTooLong {
                head: smol_chars(head),
                len: len as nat,
                cap: cap as nat,
            },
            WhisperError::UnknownLanguage(hint) => ErrorView::UnknownLanguage {
                hint: smol_chars(hint),
            },
            WhisperError::LanguageNotSupportedByModel(
                hint,
            ) => ErrorView::LanguageNotSupportedByModel { hint: smol_chars(hint) },
            WhisperError::InvalidDuration {
                offset_ms,
                duration_ms,
                audio_duration_ms,
            } => ErrorView::InvalidDuration {
                offset_ms: offset_ms as int,
                duration_ms: duration_ms as int,
                audio_duration_ms: audio_duration_ms as int,
            },
            WhisperError::Utf8(error) => ErrorView::Utf8 { error },
            WhisperError::SamplesOverflow { samples } => ErrorView::SamplesOverflow {
                samples: samples as nat,
            },
            WhisperError::SamplesTooShort { samples, min_required } => ErrorView::SamplesTooShort {
                samples: samples as nat,
                min_required: min_required as nat,
            },
            WhisperError::TokenOutOfRange { token, vocab_size } => ErrorView::TokenOutOfRange {
                token,
                vocab_size,
            },
        }
    }
}

/// Whether a result is the error that `e` describes.
pub open spec fn fails_with<T>(r: WhisperResult<T>, e: ErrorView) -> bool {
    r matches Err(x) && x@ == e
}

/// Errors that say the same are of the same kind, with the same numbers and texts.
pub proof fn law_errors_are_told_apart(a: WhisperError, b: WhisperError)
    requires
        a@ == b@,
    ensures
        match a {
            WhisperError::ContextLoad { path, reason, code } => b matches WhisperError::ContextLoad {
                path: p,
                reason: x,
                code: c,
            } && smol_chars(p) == smol_chars(path) && smol_chars(x) == smol_chars(reason) && c
                == code,
            WhisperError::InvalidCString(text) => b matches WhisperError::InvalidCString(t)
                && smol_chars(t) == smol_chars(text),
            WhisperError::InputTooLong { head, len, cap } => b matches WhisperError::InputTooLong {
                head: h,
                len: l,
                cap: c,
            } && smol_chars(h) == smol_chars(head) && l == len && c == cap,
            WhisperError::UnknownLanguage(hint) => b matches WhisperError::UnknownLanguage(h)
                && smol_chars(h) == smol_chars(hint),
            WhisperError::LanguageNotSupportedByModel(
                hint,
            ) => b matches WhisperError::LanguageNotSupportedByModel(h) && smol_chars(h)
                == smol_chars(hint),
            WhisperError::ConstructorLost { origin, code } => b matches WhisperError::ConstructorLost {
                origin: o,
                code: c,
            } && o@ == origin@ && c == code,
            WhisperError::AllocationFailed {
                context,
            } => b matches WhisperError::AllocationFailed { context: c } && c@ == context@,
            _ => b == a,
        },
{
}

} // verus!

//! Safe speech-to-text on top of a native inference library.
//!
//! The library decides everything that has to be decided around the native calls:
//! which settings and inputs reach them, what their answers mean, when a model or
//! an inference state may no longer be used, and what is to be freed. It makes no
//! native call itself. An operation that needs one comes in two steps: a request
//! says whether the call may be made and with what, and a second function takes
//! the native answer and gives the outcome.
//!
//! - [`context`]: loading a model, and what it says of itself;
//! - [`tokenize`]: turning text into tokens;
//! - [`params`]: the settings of a run;
//! - [`state`]: runs, and the segments and tokens that they give;
//! - [`lang`]: languages;
//! - [`error`], [`text`], [`float32`]: errors, texts and single-precision numbers;
//! - [`room`]: memory that is asked for beforehand;
//! - [`laws`]: what holds across these.

pub mod context;
pub mod error;
pub mod float32;
pub mod lang;
pub mod laws;
pub mod params;
pub mod room;
pub mod state;
pub mod text;
pub mod tokenize;

pub use crate::context::{
    required_dtw_mem_size_for, system_info, AlignmentHeadsPreset, Context, ContextParams, ModelDims,
    DEFAULT_DTW_MEM_SIZE, MAX_DTW_MEM_SIZE, MIN_DTW_MEM_SIZE, SUPPORTED_DTW_N_TEXT_CTX,
};
pub use crate::error::{WhisperError, WhisperResult};
pub use crate::float32::Float32;
pub use crate::lang::{lang_id_for, Lang};
pub use crate::params::{Params, SamplingStrategy, MAX_BEAM_SIZE, MAX_N_THREADS};
pub use crate::state::{Segment, State, Token};
use crate::text::{bytes_view, native_text, str_view, utf8_or_none};
use vstd::prelude::*;

verus! {

/// The version of the linked native library, from the bytes that it gives; `None`
/// where it gives none, or bytes that are not UTF-8.
pub fn version(raw: Option<&[u8]>) -> (r: Option<&str>)
    ensures
        str_view(r) == native_text(bytes_view(raw)),
{
    utf8_or_none(raw)
}

} // verus!

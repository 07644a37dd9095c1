//! Turning text into tokens.
//!
//! The native tokeniser writes into a buffer and answers how many tokens it
//! wrote. Where the buffer is too small it answers minus the number of tokens
//! that it needs, and is asked once more, with a buffer of that size. It answers
//! the least `i32` where it caught an exception.

use crate::context::Context;
use crate::room::{refused, with_room, Room};
use crate::text::{byte_len, bytes_have_nul, has_nul, law_nul_is_a_character, native_copy, room_for, NativeString};
use vstd::prelude::*;
use vstd::utf8::encode_utf8;

verus! {

/// How many tokens there is room for in the first attempt.
pub const INITIAL_CAPACITY: usize = 256;

/// Zeros to be written over.
pub open spec fn blank(n: nat) -> Seq<i32> {
    Seq::new(n, |i: int| 0i32)
}

/// A buffer of `n` zeros, in memory that was asked for beforehand; `None` where it
/// was refused, or asked for in too small an amount.
fn blank_buffer(memory: Option<Room<i32>>, n: usize) -> (r: Option<Room<i32>>)
    ensures
        r is Some <==> (memory matches Some(m) && n <= m.asked()),
        r matches Some(out) ==> out@ == blank(n as nat) && out.asked() == memory->0.asked(),
{
    match memory {
        Some(memory) => {
            if memory.asked_for() < n {
                return None;
            }
            let ghost asked = memory.asked();
            let mut out = memory;
            out.clear();
            let mut i: usize = 0;
            while i < n
                invariant
                    i <= n <= asked,
                    out@ == blank(i as nat),
                    out.asked() == asked,
                decreases n - i,
            {
                out.push(0);
                i += 1;
            }
            Some(out)
        },
        None => None,
    }
}

/// A call of the native tokeniser.
#[derive(Debug)]
pub struct TokenizeCall {
    /// The text.
    pub input: NativeString,
    /// Where the tokens go.
    pub out: Room<i32>,
    /// Whether this is the second attempt.
    pub retried: bool,
}

/// What follows a call of the native tokeniser.
#[derive(Debug)]
pub enum TokenizeStep {
    /// The tokens, or that there are none to be had.
    Done(Option<Vec<i32>>),
    /// Another call.
    Retry(TokenizeCall),
}

/// What an answer of the native tokeniser means.
pub enum Answer {
    /// These are the tokens.
    Tokens(Seq<i32>),
    /// So many places are needed, and may still be given.
    NeedsRoom(nat),
    /// There are no tokens to be had.
    Nothing,
}

/// What it means that the native tokeniser answered `written` and left the buffer
/// as `out`, in the first or the second attempt.
pub open spec fn meaning(out: Seq<i32>, retried: bool, written: i32) -> Answer {
    if i32::MIN < written < 0 && !retried {
        Answer::NeedsRoom((-written) as nat)
    } else if 0 <= written <= out.len() {
        Answer::Tokens(out.take(written as int))
    } else {
        Answer::Nothing
    }
}

impl TokenizeCall {
    /// What the answer to this call means.
    pub open spec fn meaning(self, written: i32) -> Answer {
        meaning(self.out@, self.retried, written)
    }

    /// What follows where the native tokeniser answered `written`. Where it needs a
    /// larger buffer, there is a second attempt with exactly that many places, in
    /// `memory` where it was given in that amount.
    pub fn follow(self, written: i32, memory: Option<Room<i32>>) -> (r: TokenizeStep)
        ensures
            match self.meaning(written) {
                Answer::Tokens(tokens) => r matches TokenizeStep::Done(Some(t)) && t@ == tokens,
                Answer::NeedsRoom(n) => match memory {
                    Some(m) if n <= m.asked() => {
                        &&& r matches TokenizeStep::Retry(call)
                        &&& call.input == self.input
                        &&& call.out@ == blank(n)
                        &&& call.out.asked() == m.asked()
                        &&& call.retried
                    },
                    _ => r == TokenizeStep::Done(None),
                },
                Answer::Nothing => r == TokenizeStep::Done(None),
            },
    {
        if written == i32::MIN {
            return TokenizeStep::Done(None);
        }
        if written >= 0 {
            let mut tokens = self.out.into_items();
            if written as usize > tokens.len() {
                return TokenizeStep::Done(None);
            }
            tokens.truncate(written as usize);
            return TokenizeStep::Done(Some(tokens));
        }
        if self.retried {
            return TokenizeStep::Done(None);
        }
        match blank_buffer(memory, (-written) as usize) {
            Some(out) => TokenizeStep::Retry(
                TokenizeCall { input: self.input, out, retried: true },
            ),
            None => TokenizeStep::Done(None),
        }
    }

    /// The number of places that a second attempt takes, where the native tokeniser
    /// answered `written` and there is to be one.
    pub fn room_needed(&self, written: i32) -> (r: Option<usize>)
        ensures
            r == (match self.meaning(written) {
                Answer::NeedsRoom(n) => Some(n as usize),
                _ => None,
            }),
    {
        if written > i32::MIN && written < 0 && !self.retried {
            Some((-written) as usize)
        } else {
            None
        }
    }

    /// What follows where the native tokeniser answered `written`. Where it needs a
    /// larger buffer, memory for exactly that many places is asked for, and there is
    /// a second attempt unless it is refused.
    pub fn complete(self, written: i32) -> (r: TokenizeStep)
        ensures
            match self.meaning(written) {
                Answer::Tokens(tokens) => r matches TokenizeStep::Done(Some(t)) && t@ == tokens,
                Answer::NeedsRoom(n) => {
                    ||| r == TokenizeStep::Done(None) && refused::<i32>(n)
                    ||| {
                        &&& r matches TokenizeStep::Retry(call)
                        &&& call.input == self.input
                        &&& call.out@ == blank(n)
                        &&& call.out.asked() == n
                        &&& call.retried
                    }
                },
                Answer::Nothing => r == TokenizeStep::Done(None),
            },
    {
        let memory = match self.room_needed(written) {
            Some(n) => with_room(n),
            None => None,
        };
        self.follow(written, memory)
    }
}

/// A call of the native tokeniser with room for a single token.
#[derive(Debug)]
pub struct TokenizeOneCall {
    /// The text.
    pub input: NativeString,
    /// Where the token goes.
    pub out: [i32; 1],
}

/// The single token, where the native tokeniser answered `written` and left the
/// buffer as `out`.
pub open spec fn single(out: Seq<i32>, written: i32) -> Option<i32> {
    if written == 1 {
        Some(out[0])
    } else {
        None
    }
}

impl TokenizeOneCall {
    /// The token, where the native tokeniser answered `written`: `None` unless it
    /// wrote exactly one.
    pub fn complete(self, written: i32) -> (r: Option<i32>)
        ensures
            r == single(self.out@, written),
    {
        if written == 1 {
            Some(self.out[0])
        } else {
            None
        }
    }
}

/// The first call for a text, with memory for its native form and for the tokens,
/// either of which may have been refused; `None` where one was, or was asked for in
/// too small an amount, and where the text holds a NUL.
pub fn first_call(text: &str, memory: Option<Room<u8>>, out: Option<Room<i32>>) -> (r: Option<
    TokenizeCall,
>)
    ensures
        r is Some <==> {
            &&& !has_nul(text@)
            &&& memory matches Some(m) && byte_len(text@) < m.asked()
            &&& out matches Some(o) && INITIAL_CAPACITY <= o.asked()
        },
        r matches Some(call) ==> {
            &&& call.input@ == text@
            &&& call.input.asked() == memory->0.asked()
            &&& call.out@ == blank(INITIAL_CAPACITY as nat)
            &&& call.out.asked() == out->0.asked()
            &&& !call.retried
        },
{
    match (native_copy(text, memory), blank_buffer(out, INITIAL_CAPACITY)) {
        (Some(input), Some(out)) => Some(TokenizeCall { input, out, retried: false }),
        _ => None,
    }
}

/// The call for a text that is to be a single token, with memory for its native
/// form, which may have been refused; `None` where it was, or was asked for in too
/// small an amount, and where the text holds a NUL.
pub fn single_call(text: &str, memory: Option<Room<u8>>) -> (r: Option<TokenizeOneCall>)
    ensures
        r is Some <==> !has_nul(text@) && (memory matches Some(m) && byte_len(text@) < m.asked()),
        r matches Some(call) ==> {
            &&& call.input@ == text@
            &&& call.input.asked() == memory->0.asked()
            &&& call.out@ == blank(1)
        },
{
    match native_copy(text, memory) {
        Some(input) => {
            let call = TokenizeOneCall { input, out: [0i32; 1] };
            assert(call.out@ =~= blank(1));
            Some(call)
        },
        None => None,
    }
}

impl Context {
    /// Starts to turn `text` into tokens: the call to make, which
    /// [`TokenizeCall::complete`] takes further. `None` where the text holds a NUL,
    /// and where memory is refused: it is asked for beforehand, in the amount that
    /// the native form of the text and the tokens of the first attempt take.
    pub fn tokenize(&self, text: &str) -> (r: Option<TokenizeCall>)
        ensures
            has_nul(text@) ==> r is None,
            r is None ==> {
                ||| has_nul(text@)
                ||| refused::<u8>(byte_len(text@) + 1)
                ||| refused::<i32>(INITIAL_CAPACITY as nat)
            },
            r matches Some(call) ==> {
                &&& call.input@ == text@
                &&& call.input.asked() == byte_len(text@) + 1
                &&& call.out@ == blank(INITIAL_CAPACITY as nat)
                &&& call.out.asked() == INITIAL_CAPACITY
                &&& !call.retried
            },
    {
        if bytes_have_nul(text.as_bytes()) {
            return None;
        }
        first_call(text, room_for(text), with_room(INITIAL_CAPACITY))
    }

    /// Starts to turn `text` into a single token: the call to make, which
    /// [`TokenizeOneCall::complete`] takes further. `None` where the text holds a
    /// NUL, and where memory is refused: it is asked for beforehand, in the amount
    /// that the native form of the text takes.
    pub fn tokenize_one(&self, text: &str) -> (r: Option<TokenizeOneCall>)
        ensures
            has_nul(text@) ==> r is None,
            r is None ==> has_nul(text@) || refused::<u8>(byte_len(text@) + 1),
            r matches Some(call) ==> {
                &&& call.input@ == text@
                &&& call.input.asked() == byte_len(text@) + 1
                &&& call.out@ == blank(1)
            },
    {
        if bytes_have_nul(text.as_bytes()) {
            return None;
        }
        single_call(text, room_for(text))
    }
}

/// A text is handed to the native tokeniser unless it holds a NUL or its memory is
/// refused: memory for its bytes and one more, or for the 256 tokens of the first
/// attempt. How long the text is does not matter. The call takes the whole text, and
/// there are 256 places for the tokens.
pub proof fn law_every_text_gets_a_call(context: &Context, text: &str, r: Option<TokenizeCall>)
    requires
        call_ensures(Context::tokenize, (context, text), r),
        !text@.contains('\0'),
        !refused::<u8>(encode_utf8(text@).len() + 1),
        !refused::<i32>(256),
    ensures
        r matches Some(call) && call.input@ == text@ && call.out@ == Seq::new(256, |i: int| 0i32)
            && !call.retried,
{
    law_nul_is_a_character(text@);
}

/// A text that is to be a single token is handed to the native tokeniser unless it
/// holds a NUL or the memory for its bytes and one more is refused.
pub proof fn law_every_text_gets_a_single_call(
    context: &Context,
    text: &str,
    r: Option<TokenizeOneCall>,
)
    requires
        call_ensures(Context::tokenize_one, (context, text), r),
        !text@.contains('\0'),
        !refused::<u8>(encode_utf8(text@).len() + 1),
    ensures
        r matches Some(call) && call.input@ == text@ && call.out@ == seq![0i32],
{
    law_nul_is_a_character(text@);
    assert(blank(1) =~= seq![0i32]);
}

/// A call is made of memory that was given in the right amounts, for the text and for
/// 256 tokens, and is refused for nothing but a NUL and too little memory. The whole
/// text is handed over.
pub proof fn law_memory_makes_a_call(
    text: &str,
    memory: Option<Room<u8>>,
    out: Option<Room<i32>>,
    r: Option<TokenizeCall>,
    one: Option<TokenizeOneCall>,
)
    requires
        call_ensures(first_call, (text, memory, out), r),
        call_ensures(single_call, (text, memory), one),
    ensures
        one is Some <==> !text@.contains('\0') && memory is Some && encode_utf8(text@).len()
            < memory->0.asked(),
        r is Some <==> one is Some && out is Some && 256 <= out->0.asked(),
        one matches Some(call) ==> call.input@ == text@ && call.out@ == seq![0i32]
            && call.input.asked() == memory->0.asked(),
        r matches Some(call) ==> {
            &&& call.input@ == text@
            &&& call.input.asked() == memory->0.asked()
            &&& call.out@ == Seq::new(256, |i: int| 0i32)
            &&& call.out.asked() == out->0.asked()
            &&& !call.retried
        },
{
    law_nul_is_a_character(text@);
    assert(blank(1) =~= seq![0i32]);
}

/// Tokens that the native tokeniser wrote are given back, all of them and in their
/// order, in the first attempt and in the second.
pub proof fn law_written_tokens_are_given(
    call: TokenizeCall,
    tokens: Seq<i32>,
    written: i32,
    memory: Option<Room<i32>>,
    r: TokenizeStep,
)
    requires
        written == tokens.len(),
        tokens.len() <= call.out@.len(),
        forall|i: int| 0 <= i < tokens.len() ==> #[trigger] call.out@[i] == tokens[i],
        call_ensures(TokenizeCall::complete, (call, written), r) || call_ensures(
            TokenizeCall::follow,
            (call, written, memory),
            r,
        ),
    ensures
        r matches TokenizeStep::Done(Some(t)) && t@ == tokens,
{
    assert(call.out@.take(written as int) =~= tokens);
}

/// Where the native tokeniser needs more room, there is a second attempt on the same
/// text, with exactly the places that it asked for, unless the memory for them is
/// refused. A second attempt that fails is not followed by a third; nor is an
/// exception, or an answer beyond the buffer, by another attempt.
pub proof fn law_room_that_is_needed_is_asked_for(
    call: &TokenizeCall,
    written: i32,
    memory: Option<Room<i32>>,
    needed: Option<usize>,
    r: TokenizeStep,
    given: TokenizeStep,
)
    requires
        call_ensures(TokenizeCall::room_needed, (call, written), needed),
        call_ensures(TokenizeCall::complete, (*call, written), r),
        call_ensures(TokenizeCall::follow, (*call, written, memory), given),
    ensures
        needed is Some <==> written < 0 && written != -2147483648 && !call.retried,
        needed matches Some(n) ==> {
            &&& n == -written
            &&& r matches TokenizeStep::Done(tokens) ==> tokens is None && refused::<i32>(n as nat)
            &&& r matches TokenizeStep::Retry(next) ==> {
                &&& next.input == call.input
                &&& next.out@ == Seq::new(n as nat, |i: int| 0i32)
                &&& next.out.asked() == n
                &&& next.retried
            }
            &&& given is Retry <==> memory is Some && n <= memory->0.asked()
            &&& given matches TokenizeStep::Done(tokens) ==> tokens is None
            &&& given matches TokenizeStep::Retry(next) ==> {
                &&& next.input == call.input
                &&& next.out@ == Seq::new(n as nat, |i: int| 0i32)
                &&& next.out.asked() == memory->0.asked()
                &&& next.retried
            }
        },
        needed is None && !(0 <= written <= call.out@.len()) ==> r == TokenizeStep::Done(None)
            && given == TokenizeStep::Done(None),
{
}

/// A single token is given where exactly one was written.
pub proof fn law_a_single_token_is_given(call: TokenizeOneCall, written: i32, r: Option<i32>)
    requires
        call_ensures(TokenizeOneCall::complete, (call, written), r),
    ensures
        r is Some <==> written == 1,
        r matches Some(token) ==> token == call.out@[0],
{
}

/// What the native tokeniser answers for a text with the given tokens, where there
/// is room for `n` and it catches no exception.
pub open spec fn native_answer(tokens: Seq<i32>, n: nat) -> i32 {
    if tokens.len() <= n {
        tokens.len() as i32
    } else {
        (-tokens.len()) as i32
    }
}

/// What it leaves in a buffer that was `out`: the tokens, where they fit.
pub open spec fn native_written(tokens: Seq<i32>, out: Seq<i32>) -> Seq<i32> {
    if tokens.len() <= out.len() {
        tokens + out.skip(tokens.len() as int)
    } else {
        out
    }
}

/// What the calls that [`Context::tokenize`] starts give for a text with the given
/// tokens, where no memory is refused and no exception is caught.
pub open spec fn tokenized(text: Seq<char>, tokens: Seq<i32>) -> Option<Seq<i32>> {
    let first = blank(INITIAL_CAPACITY as nat);
    if has_nul(text) {
        None
    } else {
        match meaning(
            native_written(tokens, first),
            false,
            native_answer(tokens, first.len()),
        ) {
            Answer::Tokens(t) => Some(t),
            Answer::NeedsRoom(n) => match meaning(
                native_written(tokens, blank(n)),
                true,
                native_answer(tokens, n),
            ) {
                Answer::Tokens(t) => Some(t),
                _ => None,
            },
            Answer::Nothing => None,
        }
    }
}

/// What the call that [`Context::tokenize_one`] starts gives for a text with the
/// given tokens, where no memory is refused and no exception is caught.
pub open spec fn tokenized_one(text: Seq<char>, tokens: Seq<i32>) -> Option<i32> {
    if has_nul(text) {
        None
    } else {
        single(native_written(tokens, blank(1)), native_answer(tokens, 1))
    }
}

/// A text without NUL is turned into exactly its tokens, however many there are.
pub proof fn law_all_tokens_are_found(text: Seq<char>, tokens: Seq<i32>)
    requires
        !has_nul(text),
        tokens.len() <= i32::MAX,
    ensures
        tokenized(text, tokens) == Some(tokens),
{
    let n = tokens.len();
    let first = blank(INITIAL_CAPACITY as nat);
    if n <= INITIAL_CAPACITY {
        assert(native_written(tokens, first).take(n as int) =~= tokens);
    } else {
        assert(native_written(tokens, blank(n)).take(n as int) =~= tokens);
    }
}

/// A single token is found exactly where turning the whole text into tokens gives
/// that one token: not for none, not for more, and not for a text with a NUL.
pub proof fn law_single_token_is_the_only_one(text: Seq<char>, tokens: Seq<i32>, x: i32)
    requires
        tokens.len() <= i32::MAX,
    ensures
        tokenized_one(text, tokens) == Some(x) <==> tokenized(text, tokens) == Some(seq![x]),
        tokenized_one(text, tokens) is Some ==> tokens.len() == 1,
{
    if !has_nul(text) {
        law_all_tokens_are_found(text, tokens);
        if tokens.len() == 1 {
            assert(native_written(tokens, blank(1))[0] == tokens[0]);
            assert(tokens =~= seq![tokens[0]]);
            assert(seq![x][0] == x);
        } else {
            assert(seq![x].len() == 1);
        }
    }
}

/// Turning a text into tokens takes two calls at most: a second call is never
/// followed by a third.
pub proof fn law_two_calls_suffice(out: Seq<i32>, written: i32)
    ensures
        !(meaning(out, true, written) is NeedsRoom),
{
}

/// A native answer that stands for a caught exception is never taken for a request
/// for more room, and the request is for as many places as are needed.
pub proof fn law_answers_are_disjoint(out: Seq<i32>, retried: bool, written: i32)
    requires
        meaning(out, retried, written) is NeedsRoom,
    ensures
        written != i32::MIN,
        0 < -written <= i32::MAX,
        meaning(out, retried, written) == Answer::NeedsRoom((-written) as nat),
{
}

} // verus!

# whispercpp

Safe speech-to-text on top of a native inference library, with the decisions
verified by [Verus](https://github.com/verus-lang/verus).

- `src/` is the verified library. It decides which settings and inputs reach the
  native calls, what the native answers mean, when a model or an inference state
  may no longer be used, and what is to be freed. It makes no native call itself:
  an operation that needs one comes as a request, which says whether the call may
  be made and with what, and a second function that takes the native answer.
- `app/` is ordinary Rust around it: the native calls (behind the trait `Native`,
  which whoever links the native library implements), the locks, `Drop`, and the
  traits of std, serde and thiserror.
- `tests/` exercises the library on concrete values.

Single-precision numbers are carried by their bit patterns (`Float32`), and
compared exactly, as integers.

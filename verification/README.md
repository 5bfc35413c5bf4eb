# vcl_rs

An asynchronous wrapper around VPP's communications library (VCL, `libvppcom`),
with a core that is verified with [Verus](https://github.com/verus-lang/verus).

- `src/` is the core. It decides, computes, marshals and frames, and performs no
  I/O. A call into `libvppcom` is a value; an operation of several steps is a value
  that says what to do next and is moved on by what came of it. Every function has
  a contract, and the properties that span several of them are public proof
  functions.
- `app/` is ordinary Rust around the core: the bindings of `libvppcom`, the tokio
  reactor, and the types that programs use.
- `tests/` exercises the core on concrete values.

What the core takes on trust: that `rand` draws from the range it is given, and
that the C library's error numbers for "try again", "not connected" and "gone" are
different.

Running a program needs VPP's VCL library on the system and `use-mq-eventfd` in
`vcl.conf`.

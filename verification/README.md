# type_kernel

Native kernels that mypy calls through small seams, written in Verus so
that their behaviour is stated in contracts and proved.

- `src/wire.rs` — the binary wire format's tags, booleans, short integers
  (one, two or four bytes) and length-prefixed UTF-8 strings, with
  round-trip lemmas.
- `src/dataclasses.rs` — the `@dataclass` `__init__` / `__post_init__`
  signature seams: decoding the field list, computing argument names and
  kinds, encoding the signature; proofs that decoding inverts Python's
  encoding of the fields and that the signature reads back as its
  arguments.
- `src/diagnostics_engine.rs`, `src/diagnostic_rules.rs` — the diagnostics
  engine (`[Severity] file:line: message`) and its numbered formatting
  rules.
- `src/depswalk.rs` — the bookkeeping of the fine-grained dependency walk:
  the scope stack, the dependency map, which triggers are recorded, and the
  dependency rules of the walk's node handlers over plain facts.
- `app/lib.rs` — the Python bindings (`#[pyfunction]`s) around the library:
  the two dataclass signature seams and the diagnostics seam.
- `tests/` — scenarios and edge cases, run against the compiled library.

## What is not here

- The kernels that operate on mypy's type representation — copying a type
  with changed fields, deciding whether one type covers another at
  runtime, flagging dangerous comparisons, detaching a callable from its
  class — need the codec of that representation and the subtype, meet and
  type-info machinery around it, which this crate does not hold.
- The dependency walk itself (the walk seams) reads mypy's AST and type
  objects and computes type triggers with mypy's trigger collectors. Its
  caller resolves those Python objects to plain facts (full names, trigger
  strings, the shape of assignment targets) and hands them to the rules in
  `src/depswalk.rs`, which decide what is recorded under which target. The
  triggers themselves (`<name>`) are formed by that caller; the library
  receives them as strings and never forms one. No binding for the walk is
  provided here.

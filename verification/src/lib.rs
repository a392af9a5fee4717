//! Native kernels that mypy calls through small seams: the dataclass
//! `__init__`/`__post_init__` signature computation over the binary wire
//! format, the diagnostics engine, and the bookkeeping and dependency rules
//! of the fine-grained dependency walk.
//!
//! The kernels that work on mypy's own type representation (copying a
//! type with changes, runtime coverage of one type by another, dangerous
//! comparisons, detaching a callable from its class) and the walk over
//! mypy's AST itself are not part of this crate: the walk reads live Python
//! objects and hands `depswalk` plain facts.

pub mod wire;
pub mod dataclasses;
pub mod diagnostics_engine;
pub mod diagnostic_rules;
pub mod depswalk;

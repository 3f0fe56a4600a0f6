//! A sandboxed code-execution pipeline.
//!
//! A request carries a source snippet, a language tag, an optional deadline
//! and a caller credential. The pipeline authenticates the caller, writes the
//! snippet to a uniquely named artifact file, has the language's interpreter
//! run it under the deadline, classifies the outcome, and always removes the
//! artifact before the response goes out. The decisions are made here, as a
//! verified state machine; the surrounding process does the actual file and
//! process work and feeds the observed events back in.

pub mod artifact;
pub mod auth;
pub mod lang;
pub mod laws;
pub mod outcome;
pub mod pipeline;

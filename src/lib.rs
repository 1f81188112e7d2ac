//! Generation of C source text from a small in-memory model: functions built
//! step by step, and a translation unit that concatenates header directives
//! and function texts in the order they are added.
pub mod cvartypes;
pub mod text;
pub mod cfunction;
pub mod context;

pub use cvartypes::c_type;
pub use cfunction::CFunction;
pub use context::Context;

//! The kinds of work a template asks for.
pub mod change;
pub mod relocation;
pub mod variable;

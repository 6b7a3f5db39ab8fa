//! The tasks a template is carried out by.
pub mod task;

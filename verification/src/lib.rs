//! A gallery of small, fully specified sample declarations: free functions,
//! a struct with accessors, a trait with one implementation, and a fallible
//! function — each carrying a contract that pins its behaviour down.

pub mod decimal;
pub mod samples;

//! The checks that the tool knows by name, and its work with the pre-commit
//! framework.

pub mod builtin;
pub mod precommit;

//! Kotlin bindings generator: turns the description of a native component's
//! public surface into the Kotlin expressions and declarations that move values
//! across the foreign-function boundary.
//!
//! Every rendering function states the text it produces as a sequence of
//! characters, so a caller can tell from the contract alone what ends up in the
//! generated source.

pub mod callback_interface;
pub mod code_type;
pub mod config;
pub mod enum_;
pub mod fallback;
pub mod filters;
pub mod imports;
pub mod interface;
pub mod labels;
pub mod literal;
pub mod naming;
pub mod object;
pub mod oracle;
pub mod text;
pub mod wrapper;

//! Module-linking stage of a compiler front end: eliminates `require` /
//! `provide` directives by recursively inlining every required module's
//! definitions into the requesting module, renaming non-exported names so
//! that private definitions of different modules can never collide.

pub mod ast;
mod cache;
pub mod laws;
pub mod mangling;
pub mod resolver;

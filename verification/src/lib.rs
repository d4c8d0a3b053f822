//! Evaluator core for the Fang scripting language.
//!
//! The crate models Fang parse trees and runtime values as one tagged `Node`
//! type, lowers statement lists to a flat opcode stream, and executes that
//! stream against a stack of lexically nested scopes, enforcing a nominal
//! type discipline over primitives, structs and traits with default methods.

pub mod ast;
pub mod bytecode;
pub mod errs;
pub mod host;
pub mod laws;
pub mod scope;
pub mod strmap;
pub mod strutil;

//! Typed-parameter resolution for a statically-typed language's semantic
//! analyzer: a deduplicating global type table hands out stable type
//! identities; a resolver turns a written type into a resolved identity
//! under a per-variant self binding and generic-argument policy; the
//! parameter checker composes the two, validates parameter-level rules,
//! and registers the result as a variable in scope; and a substitution
//! pass later rewrites resolved identities during monomorphization.
//! Resolution failures degrade to an `ErrorRecovery` sentinel with an
//! accumulated diagnostic instead of aborting the check.

pub mod diagnostic;
pub mod namespace;
pub mod parameter;
pub mod resolve;
pub mod source;
pub mod type_system;

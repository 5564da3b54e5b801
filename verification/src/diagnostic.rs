//! Non-fatal diagnostic accumulation. Every fallible step of a checking
//! pass either yields a value or pushes a diagnostic and degrades to a
//! caller-supplied fallback; checking never unwinds. A pass succeeded
//! exactly when its error sequence is empty at the end.

use vstd::prelude::*;
use crate::source::Ident;

verus! {

/// An error found while checking; each carries the source location the
/// report should point at.
#[derive(Debug)]
pub enum CompileError {
    /// A written type names nothing declared in scope.
    UnknownTypeName { name: String, span: sway_types::span::Span },
    /// `Self` was written where no self type is bound (a free function).
    SelfOutsideImplementation { span: sway_types::span::Span },
    /// A generic type was written without its required type arguments,
    /// under a policy that does not infer them.
    MissingTypeArguments { name: String, span: sway_types::span::Span },
    /// A free-function parameter was declared mutable by value.
    MutableParameterNotSupported { param_name: Ident },
}

/// A warning found while checking. Parameter checking itself raises none;
/// the sequence is part of the pass protocol all the same.
#[derive(Debug)]
pub struct CompileWarning {
    pub span: sway_types::span::Span,
    pub warning_content: String,
}

/// The outcome of one checking step: a best-effort value (absent only on
/// a hard, non-degradable failure) together with everything diagnosed on
/// the way. `errors` empty means the step fully succeeded.
#[derive(Debug)]
pub struct CompileResult<T> {
    pub value: Option<T>,
    pub warnings: Vec<CompileWarning>,
    pub errors: Vec<CompileError>,
}

/// A step that produced a value, with whatever it diagnosed on the way.
pub fn ok<T>(value: T, warnings: Vec<CompileWarning>, errors: Vec<CompileError>) -> (res:
    CompileResult<T>)
    ensures
        res.value == Some(value),
        res.warnings == warnings,
        res.errors == errors,
{
    CompileResult { value: Some(value), warnings, errors }
}

/// A step that could not produce a value at all.
pub fn err<T>(warnings: Vec<CompileWarning>, errors: Vec<CompileError>) -> (res: CompileResult<
    T,
>)
    ensures
        res.value is None,
        res.warnings == warnings,
        res.errors == errors,
{
    CompileResult { value: None, warnings, errors }
}

} // verus!

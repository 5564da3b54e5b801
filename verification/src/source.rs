//! Source locations. A `Span` is an opaque handle to a region of source
//! text, carried on every diagnostic and on every parameter record; this
//! core never looks inside one. An `Ident` is a name from the source
//! together with the span it was written at; two idents are the same name
//! exactly when their texts agree, wherever they were written.

use vstd::prelude::*;

verus! {

/// `sway_types::span::Span` is carried through, never inspected.
#[verifier::external_type_specification]
#[verifier::external_body]
pub struct ExSpan(sway_types::span::Span);

/// Relies on the derived `Clone` of `sway_types::span::Span`: it clones
/// every field (the shared source text keeps its allocation), so the
/// clone is indistinguishable from the original.
#[verifier::external_body]
pub fn clone_span(span: &sway_types::span::Span) -> (r: sway_types::span::Span)
    ensures
        r == *span,
{
    span.clone()
}

/// A name as written in source, with the span it was written at.
/// The span is diagnostic metadata: it takes no part in whether two
/// idents name the same thing.
#[derive(Debug)]
pub struct Ident {
    pub text: String,
    pub span: sway_types::span::Span,
}

impl Clone for Ident {
    fn clone(&self) -> (r: Self)
        ensures
            r == *self,
    {
        Ident { text: self.text.clone(), span: clone_span(&self.span) }
    }
}

impl Ident {
    /// The name itself.
    pub fn as_str(&self) -> (r: &str)
        ensures
            r@ == self.text@,
    {
        self.text.as_str()
    }

    /// The span the name was written at.
    pub fn span(&self) -> (r: sway_types::span::Span)
        ensures
            r == self.span,
    {
        clone_span(&self.span)
    }

    /// Whether this ident is the same name as `other`, spans aside.
    pub fn same_name(&self, other: &Ident) -> (r: bool)
        ensures
            r == (self.text@ == other.text@),
    {
        self.text == other.text
    }
}

} // verus!

//! The type resolver: takes a type identity as written, a self-type
//! binding, and a generic-argument policy, and yields the resolved
//! identity or a resolution error. Resolution never interns: everything
//! it can return was already in the table.

use vstd::prelude::*;
use crate::diagnostic::CompileError;
use crate::namespace::{decl_find, Namespace, TypeDecl};
use crate::source::clone_span;
use crate::type_system::{TypeId, TypeInfo, TypeInfoModel, TypeTable};

verus! {

/// Whether a generic type written without its type arguments is an error
/// (`Yes`) or left for a later inference stage (`No`).
#[derive(Clone, Copy, PartialEq, Eq, Structural, Debug)]
pub enum EnforceTypeArguments {
    Yes,
    No,
}

/// What resolving `written` (interned at `written_id`) comes to:
/// `Some(id)` the resolved identity, `None` a resolution error.
/// A self placeholder resolves to the bound self type and fails without
/// one; a written name resolves to what it is declared as, failing when
/// it is undeclared or when required type arguments are missing under an
/// enforcing policy; everything else is already concrete — or, for an
/// unbound generic, deliberately left as it stands — and resolves to
/// itself.
pub open spec fn resolution_outcome(
    written: TypeInfoModel,
    written_id: TypeId,
    decls: Seq<TypeDecl>,
    self_type: Option<TypeId>,
    enforce_type_arguments: EnforceTypeArguments,
) -> Option<TypeId> {
    match written {
        TypeInfoModel::SelfType => self_type,
        TypeInfoModel::Custom { name } => match decl_find(decls, name) {
            Option::Some(decl) => if decl.generic_parameter_count > 0 && enforce_type_arguments
                is Yes {
                Option::None
            } else {
                Option::Some(decl.type_id)
            },
            Option::None => Option::None,
        },
        _ => Option::Some(written_id),
    }
}

/// The one error that resolving `written` can produce, with the span the
/// caller handed in. Holds only of inputs whose outcome is `None`.
pub open spec fn is_resolution_error(
    e: CompileError,
    written: TypeInfoModel,
    decls: Seq<TypeDecl>,
    enforce_type_arguments: EnforceTypeArguments,
    span: sway_types::span::Span,
) -> bool {
    match written {
        TypeInfoModel::SelfType => e == (CompileError::SelfOutsideImplementation { span }),
        TypeInfoModel::Custom { name } => match decl_find(decls, name) {
            Option::Some(decl) => (e matches CompileError::MissingTypeArguments {
                name: n,
                span: sp,
            } && n@ == name && sp == span),
            Option::None => (e matches CompileError::UnknownTypeName { name: n, span: sp } && n@
                == name && sp == span),
        },
        _ => false,
    }
}

/// Resolve `as_written` against the current context: substitute the
/// bound self type for the self placeholder, look written names up among
/// the declarations in scope, and leave concrete types and unbound
/// generics as they stand.
pub fn resolve_type(
    table: &TypeTable,
    namespace: &Namespace,
    as_written: TypeId,
    span: &sway_types::span::Span,
    self_type: Option<TypeId>,
    enforce_type_arguments: EnforceTypeArguments,
) -> (res: Result<TypeId, CompileError>)
    requires
        table.wf(),
        table.contains_id(as_written),
        self_type matches Some(t) ==> table.contains_id(t),
        namespace.decls_valid(table@.len() as int),
    ensures
        match resolution_outcome(
            table@[as_written.0 as int],
            as_written,
            namespace.decls(),
            self_type,
            enforce_type_arguments,
        ) {
            Option::Some(t) => res == Result::<TypeId, CompileError>::Ok(t)
                && table.contains_id(t),
            Option::None => (res matches Result::Err(e) && is_resolution_error(
                e,
                table@[as_written.0 as int],
                namespace.decls(),
                enforce_type_arguments,
                *span,
            )),
        },
{
    match table.lookup(as_written) {
        TypeInfo::SelfType => match self_type {
            Option::Some(t) => Result::Ok(t),
            Option::None => Result::Err(
                CompileError::SelfOutsideImplementation { span: clone_span(span) },
            ),
        },
        TypeInfo::Custom { name } => match namespace.find_type_decl(name) {
            Option::Some(decl) => {
                proof {
                    crate::namespace::lemma_decl_find_found(namespace.decls(), name@);
                }
                if decl.generic_parameter_count > 0 && matches!(
                    enforce_type_arguments,
                    EnforceTypeArguments::Yes,
                ) {
                    Result::Err(
                        CompileError::MissingTypeArguments {
                            name: name.clone(),
                            span: clone_span(span),
                        },
                    )
                } else {
                    Result::Ok(decl.type_id)
                }
            },
            Option::None => Result::Err(
                CompileError::UnknownTypeName { name: name.clone(), span: clone_span(span) },
            ),
        },
        _ => Result::Ok(as_written),
    }
}

} // verus!

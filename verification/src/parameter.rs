//! Parameter checking: turn a syntactically-parsed function, method or
//! interface parameter into a `TypedFunctionParameter` bound to an entry
//! of the type table, register it as a variable in scope where a body
//! will follow, and later rewrite its resolved identity during
//! monomorphization. Resolution failure never aborts a check: the
//! resolved identity degrades to the `ErrorRecovery` sentinel and the
//! diagnostic is accumulated. The one hard error is a free-function
//! parameter that is mutable by value.

use vstd::prelude::*;
use crate::diagnostic::{err, ok, CompileError, CompileResult, CompileWarning};
use crate::namespace::{
    convert_to_variable_immutability, convert_to_variable_immutability_spec, decl_find, Binding,
    IsConstant, Namespace, TypeDecl,
    TypedDeclaration, TypedExpression, TypedExpressionVariant, TypedVariableDeclaration,
    VariableMutability,
};
use crate::resolve::{is_resolution_error, resolve_type, EnforceTypeArguments};
use crate::source::{clone_span, Ident};
use crate::type_system::{
    find_info_index, intern_result, TypeId, TypeInfo, TypeInfoModel, TypeTable,
};

verus! {

/// A parameter as the parser hands it over: untyped, with its written
/// type description not yet interned.
#[derive(Debug)]
pub struct FunctionParameter {
    pub name: Ident,
    pub is_reference: bool,
    pub is_mutable: bool,
    pub mutability_span: sway_types::span::Span,
    pub type_info: TypeInfo,
    pub type_span: sway_types::span::Span,
}

/// A fully checked parameter. `type_id` is the resolved identity;
/// `initial_type_id` the identity as written, kept apart so a later
/// substitution pass can rewrite the one without losing the other.
#[derive(Debug)]
pub struct TypedFunctionParameter {
    pub name: Ident,
    pub is_reference: bool,
    pub is_mutable: bool,
    pub mutability_span: sway_types::span::Span,
    pub type_id: TypeId,
    pub initial_type_id: TypeId,
    pub type_span: sway_types::span::Span,
}

/// A finite mapping from generic type-variable names to concrete
/// identities, supplied by the monomorphization pass.
#[derive(Debug)]
pub struct TypeMapping {
    pub entries: Vec<(String, TypeId)>,
}

/// The first entry of `entries` for `name`, if any.
pub open spec fn mapping_find(entries: Seq<(String, TypeId)>, name: Seq<char>) -> Option<TypeId>
    decreases entries.len(),
{
    if entries.len() == 0 {
        Option::None
    } else if entries[0].0@ == name {
        Option::Some(entries[0].1)
    } else {
        mapping_find(entries.drop_first(), name)
    }
}

/// An identity that `mapping_find` returns is an entry's identity.
pub proof fn lemma_mapping_find_found(entries: Seq<(String, TypeId)>, name: Seq<char>)
    ensures
        mapping_find(entries, name) matches Option::Some(t) ==> exists|k: int|
            0 <= k < entries.len() && entries[k].1 == t,
    decreases entries.len(),
{
    if entries.len() == 0 {
    } else if entries[0].0@ == name {
        assert(entries[0].1 == mapping_find(entries, name)->Some_0);
    } else {
        lemma_mapping_find_found(entries.drop_first(), name);
        if mapping_find(entries, name) is Some {
            let t = mapping_find(entries, name)->Some_0;
            let k = choose|k: int|
                0 <= k < entries.drop_first().len() && entries.drop_first()[k].1 == t;
            assert(entries[k + 1].1 == t);
        }
    }
}

impl TypeMapping {
    /// Every identity the mapping supplies is a handle of `table_len`
    /// many.
    pub open spec fn valid(&self, table_len: int) -> bool {
        forall|k: int|
            0 <= k < self.entries@.len() ==> (#[trigger] self.entries@[k]).1.0 < table_len
    }

    /// The identity this mapping binds `name` to, if any.
    pub fn find(&self, name: &String) -> (found: Option<TypeId>)
        ensures
            found == mapping_find(self.entries@, name@),
    {
        let n = self.entries.len();
        let mut i: usize = 0;
        proof {
            assert(self.entries@.skip(0) =~= self.entries@);
        }
        while i < n
            invariant
                n == self.entries@.len(),
                i <= n,
                mapping_find(self.entries@, name@) == mapping_find(
                    self.entries@.skip(i as int),
                    name@,
                ),
            decreases n - i,
        {
            proof {
                assert(self.entries@.skip(i as int)[0] == self.entries@[i as int]);
            }
            if self.entries[i].0 == *name {
                return Option::Some(self.entries[i].1);
            }
            proof {
                assert(self.entries@.skip(i as int).drop_first() =~= self.entries@.skip(
                    i as int + 1,
                ));
            }
            i += 1;
        }
        proof {
            assert(self.entries@.skip(n as int) =~= Seq::<(String, TypeId)>::empty());
        }
        Option::None
    }
}

/// What substitution rewrites `type_id` to: an unbound generic whose
/// name the mapping binds becomes the bound identity; every other
/// identity — concrete, or a generic the mapping does not touch — is
/// left as it stands.
pub open spec fn substituted_type_id(
    type_id: TypeId,
    infos: Seq<TypeInfoModel>,
    entries: Seq<(String, TypeId)>,
) -> TypeId {
    match infos[type_id.0 as int] {
        TypeInfoModel::UnknownGeneric { name } => match mapping_find(entries, name) {
            Option::Some(t) => t,
            Option::None => type_id,
        },
        _ => type_id,
    }
}

/// The index the resolved identity of `written` will have, or `None`
/// when resolution fails. `infos0` is the table before the written
/// description is interned; the three checking variants differ only in
/// the self index they bind. Generic-argument policy is always
/// enforcing here, as all three variants check under it.
pub open spec fn checker_resolved_index(
    infos0: Seq<TypeInfoModel>,
    decls: Seq<TypeDecl>,
    written: TypeInfoModel,
    self_index: Option<int>,
) -> Option<int> {
    match written {
        TypeInfoModel::SelfType => self_index,
        TypeInfoModel::Custom { name } => match decl_find(decls, name) {
            Option::Some(decl) => if decl.generic_parameter_count > 0 {
                Option::None
            } else {
                Option::Some(decl.type_id.0 as int)
            },
            Option::None => Option::None,
        },
        _ => Option::Some(find_info_index(infos0, written)),
    }
}

/// The binding that registering a checked parameter inserts: the name
/// bound to a variable declaration whose body stands for "came in as a
/// parameter", typed and ascribed with the resolved identity, with the
/// mutability the conversion rule gives.
pub open spec fn parameter_binding(p: TypedFunctionParameter) -> Binding {
    Binding {
        name: p.name,
        declaration: TypedDeclaration::VariableDeclaration(
            TypedVariableDeclaration {
                name: p.name,
                body: TypedExpression {
                    expression: TypedExpressionVariant::FunctionParameter,
                    return_type: p.type_id,
                    is_constant: IsConstant::No,
                    span: p.name.span,
                },
                mutability: convert_to_variable_immutability_spec(p.is_reference, p.is_mutable),
                type_ascription: p.type_id,
                type_ascription_span: Option::Some(p.type_span),
            },
        ),
    }
}

/// Register a checked parameter as a variable in the current scope, so
/// the body checker sees it exactly as a `let`-style binding.
pub fn insert_into_namespace(namespace: &mut Namespace, typed_parameter: &TypedFunctionParameter)
    ensures
        final(namespace).symbols() == old(namespace).symbols().push(
            parameter_binding(*typed_parameter),
        ),
        final(namespace).decls() == old(namespace).decls(),
{
    let name = typed_parameter.name.clone();
    let body_span = typed_parameter.name.span();
    namespace.insert_symbol(
        typed_parameter.name.clone(),
        TypedDeclaration::VariableDeclaration(
            TypedVariableDeclaration {
                name,
                body: TypedExpression {
                    expression: TypedExpressionVariant::FunctionParameter,
                    return_type: typed_parameter.type_id,
                    is_constant: IsConstant::No,
                    span: body_span,
                },
                mutability: convert_to_variable_immutability(
                    typed_parameter.is_reference,
                    typed_parameter.is_mutable,
                ),
                type_ascription: typed_parameter.type_id,
                type_ascription_span: Option::Some(clone_span(&typed_parameter.type_span)),
            },
        ),
    );
}

impl TypedFunctionParameter {
    /// Whether this parameter is the receiver: named exactly `self`.
    pub fn is_self(&self) -> (r: bool)
        ensures
            r == (self.name.text@ == "self"@),
    {
        self.name.text == "self".to_owned()
    }

    /// Check a free-function parameter: intern the written type, resolve
    /// it with no self type bound (degrading to `ErrorRecovery` on
    /// failure, with one diagnostic), reject a parameter that is mutable
    /// by value as a hard error producing no typed parameter, and
    /// otherwise bind the parameter in scope.
    pub fn type_check(
        table: &mut TypeTable,
        namespace: &mut Namespace,
        parameter: FunctionParameter,
    ) -> (res: CompileResult<TypedFunctionParameter>)
        requires
            old(table).wf(),
            old(namespace).decls_valid(old(table)@.len() as int),
        ensures
            final(table).wf(),
            final(namespace).decls() == old(namespace).decls(),
            res.warnings@.len() == 0,
            ({
                let infos0 = old(table)@;
                let written = parameter.type_info@;
                let infos1 = intern_result(infos0, written);
                let decls = old(namespace).decls();
                let resolved = checker_resolved_index(infos0, decls, written, Option::None);
                let failed = resolved is None;
                let infos2 = if failed {
                    intern_result(infos1, TypeInfoModel::ErrorRecovery)
                } else {
                    infos1
                };
                let rid = if failed {
                    find_info_index(infos1, TypeInfoModel::ErrorRecovery)
                } else {
                    resolved->Some_0
                };
                final(table)@ == infos2 && (failed ==> infos2[rid] == TypeInfoModel::ErrorRecovery)
                    && (failed ==> is_resolution_error(
                    res.errors@[0],
                    written,
                    decls,
                    EnforceTypeArguments::Yes,
                    parameter.type_span,
                )) && (if convert_to_variable_immutability_spec(
                    parameter.is_reference,
                    parameter.is_mutable,
                ) is Mutable {
                    res.value is None && final(namespace).symbols() == old(namespace).symbols()
                        && res.errors@.len() == (if failed {
                        2int
                    } else {
                        1int
                    }) && res.errors@[res.errors@.len() - 1] == (
                    CompileError::MutableParameterNotSupported { param_name: parameter.name })
                } else {
                    res.errors@.len() == (if failed {
                        1int
                    } else {
                        0int
                    }) && (res.value matches Some(tp) && tp.name == parameter.name
                        && tp.is_reference == parameter.is_reference && tp.is_mutable
                        == parameter.is_mutable && tp.mutability_span == parameter.mutability_span
                        && tp.type_span == parameter.type_span && tp.initial_type_id.0 as int
                        == find_info_index(infos0, written) && tp.type_id.0 as int == rid
                        && final(table).contains_id(tp.type_id) && final(table).contains_id(
                        tp.initial_type_id,
                    ) && final(namespace).symbols() == old(namespace).symbols().push(
                        parameter_binding(tp),
                    ))
                })
            }),
    {
        let warnings: Vec<CompileWarning> = Vec::new();
        let mut errors: Vec<CompileError> = Vec::new();
        let FunctionParameter {
            name,
            is_reference,
            is_mutable,
            mutability_span,
            type_info,
            type_span,
        } = parameter;
        let initial_type_id = table.intern(type_info);
        let type_id = match resolve_type(
            table,
            namespace,
            initial_type_id,
            &type_span,
            Option::None,
            EnforceTypeArguments::Yes,
        ) {
            Result::Ok(t) => t,
            Result::Err(e) => {
                errors.push(e);
                table.intern(TypeInfo::ErrorRecovery)
            },
        };
        let mutability = convert_to_variable_immutability(is_reference, is_mutable);
        if mutability == VariableMutability::Mutable {
            errors.push(CompileError::MutableParameterNotSupported { param_name: name });
            return err(warnings, errors);
        }
        let typed_parameter = TypedFunctionParameter {
            name,
            is_reference,
            is_mutable,
            mutability_span,
            type_id,
            initial_type_id,
            type_span,
        };
        insert_into_namespace(namespace, &typed_parameter);
        ok(typed_parameter, warnings, errors)
    }

    /// Check a parameter of an implemented method: as for a free
    /// function, but `Self` resolves to the enclosing concrete type and
    /// receiver conventions allow mutability, so there is no hard error:
    /// a typed parameter always comes out, and is bound in scope.
    pub fn type_check_method_parameter(
        table: &mut TypeTable,
        namespace: &mut Namespace,
        self_type: TypeId,
        parameter: FunctionParameter,
    ) -> (res: CompileResult<TypedFunctionParameter>)
        requires
            old(table).wf(),
            old(table).contains_id(self_type),
            old(namespace).decls_valid(old(table)@.len() as int),
        ensures
            final(table).wf(),
            final(namespace).decls() == old(namespace).decls(),
            res.warnings@.len() == 0,
            ({
                let infos0 = old(table)@;
                let written = parameter.type_info@;
                let infos1 = intern_result(infos0, written);
                let decls = old(namespace).decls();
                let resolved = checker_resolved_index(
                    infos0,
                    decls,
                    written,
                    Option::Some(self_type.0 as int),
                );
                let failed = resolved is None;
                let infos2 = if failed {
                    intern_result(infos1, TypeInfoModel::ErrorRecovery)
                } else {
                    infos1
                };
                let rid = if failed {
                    find_info_index(infos1, TypeInfoModel::ErrorRecovery)
                } else {
                    resolved->Some_0
                };
                final(table)@ == infos2 && (failed ==> infos2[rid] == TypeInfoModel::ErrorRecovery)
                    && res.errors@.len() == (if failed {
                    1int
                } else {
                    0int
                }) && (failed ==> is_resolution_error(
                    res.errors@[0],
                    written,
                    decls,
                    EnforceTypeArguments::Yes,
                    parameter.type_span,
                )) && (res.value matches Some(tp) && tp.name == parameter.name && tp.is_reference
                    == parameter.is_reference && tp.is_mutable == parameter.is_mutable
                    && tp.mutability_span == parameter.mutability_span && tp.type_span
                    == parameter.type_span && tp.initial_type_id.0 as int == find_info_index(
                    infos0,
                    written,
                ) && tp.type_id.0 as int == rid && final(table).contains_id(tp.type_id)
                    && final(table).contains_id(tp.initial_type_id)
                    && final(namespace).symbols() == old(namespace).symbols().push(
                    parameter_binding(tp),
                ))
            }),
    {
        let warnings: Vec<CompileWarning> = Vec::new();
        let mut errors: Vec<CompileError> = Vec::new();
        let FunctionParameter {
            name,
            is_reference,
            is_mutable,
            mutability_span,
            type_info,
            type_span,
        } = parameter;
        let initial_type_id = table.intern(type_info);
        let type_id = match resolve_type(
            table,
            namespace,
            initial_type_id,
            &type_span,
            Option::Some(self_type),
            EnforceTypeArguments::Yes,
        ) {
            Result::Ok(t) => t,
            Result::Err(e) => {
                errors.push(e);
                table.intern(TypeInfo::ErrorRecovery)
            },
        };
        let typed_parameter = TypedFunctionParameter {
            name,
            is_reference,
            is_mutable,
            mutability_span,
            type_id,
            initial_type_id,
            type_span,
        };
        insert_into_namespace(namespace, &typed_parameter);
        ok(typed_parameter, warnings, errors)
    }

    /// Check a parameter of an unimplemented interface declaration:
    /// `Self` resolves to the dedicated abstract placeholder — interned
    /// here, bound as the self type — and, since an interface
    /// declaration has no body, nothing is inserted into scope.
    pub fn type_check_interface_parameter(
        table: &mut TypeTable,
        namespace: &mut Namespace,
        parameter: FunctionParameter,
    ) -> (res: CompileResult<TypedFunctionParameter>)
        requires
            old(table).wf(),
            old(namespace).decls_valid(old(table)@.len() as int),
        ensures
            final(table).wf(),
            *final(namespace) == *old(namespace),
            res.warnings@.len() == 0,
            ({
                let infos0 = old(table)@;
                let written = parameter.type_info@;
                let infos1 = intern_result(infos0, written);
                let self_index = find_info_index(infos1, TypeInfoModel::SelfType);
                let infos_s = intern_result(infos1, TypeInfoModel::SelfType);
                let decls = old(namespace).decls();
                let resolved = checker_resolved_index(
                    infos0,
                    decls,
                    written,
                    Option::Some(self_index),
                );
                let failed = resolved is None;
                let infos2 = if failed {
                    intern_result(infos_s, TypeInfoModel::ErrorRecovery)
                } else {
                    infos_s
                };
                let rid = if failed {
                    find_info_index(infos_s, TypeInfoModel::ErrorRecovery)
                } else {
                    resolved->Some_0
                };
                final(table)@ == infos2 && infos2[self_index] == TypeInfoModel::SelfType && (failed
                    ==> infos2[rid] == TypeInfoModel::ErrorRecovery) && res.errors@.len() == (
                if failed {
                    1int
                } else {
                    0int
                }) && (failed ==> is_resolution_error(
                    res.errors@[0],
                    written,
                    decls,
                    EnforceTypeArguments::Yes,
                    parameter.type_span,
                )) && (res.value matches Some(tp) && tp.name == parameter.name && tp.is_reference
                    == parameter.is_reference && tp.is_mutable == parameter.is_mutable
                    && tp.mutability_span == parameter.mutability_span && tp.type_span
                    == parameter.type_span && tp.initial_type_id.0 as int == find_info_index(
                    infos0,
                    written,
                ) && tp.type_id.0 as int == rid && final(table).contains_id(tp.type_id)
                    && final(table).contains_id(tp.initial_type_id))
            }),
    {
        let warnings: Vec<CompileWarning> = Vec::new();
        let mut errors: Vec<CompileError> = Vec::new();
        let FunctionParameter {
            name,
            is_reference,
            is_mutable,
            mutability_span,
            type_info,
            type_span,
        } = parameter;
        let initial_type_id = table.intern(type_info);
        let self_type_id = table.intern(TypeInfo::SelfType);
        let type_id = match resolve_type(
            table,
            namespace,
            initial_type_id,
            &type_span,
            Option::Some(self_type_id),
            EnforceTypeArguments::Yes,
        ) {
            Result::Ok(t) => t,
            Result::Err(e) => {
                errors.push(e);
                table.intern(TypeInfo::ErrorRecovery)
            },
        };
        let typed_parameter = TypedFunctionParameter {
            name,
            is_reference,
            is_mutable,
            mutability_span,
            type_id,
            initial_type_id,
            type_span,
        };
        ok(typed_parameter, warnings, errors)
    }

    /// Structural equality, the equality contract of checked parameters:
    /// same name, structurally equal resolved type (by table lookup, not
    /// by raw handle), same written mutability. Spans take no part.
    pub open spec fn structurally_equal_spec(
        p1: TypedFunctionParameter,
        p2: TypedFunctionParameter,
        infos: Seq<TypeInfoModel>,
    ) -> bool {
        p1.name.text@ == p2.name.text@ && infos[p1.type_id.0 as int] == infos[p2.type_id.0 as int]
            && p1.is_mutable == p2.is_mutable
    }

    pub fn structural_eq(&self, other: &TypedFunctionParameter, table: &TypeTable) -> (r: bool)
        requires
            table.contains_id(self.type_id),
            table.contains_id(other.type_id),
        ensures
            r == Self::structurally_equal_spec(*self, *other, table@),
    {
        self.name.same_name(&other.name) && table.lookup(self.type_id).structurally_eq(
            table.lookup(other.type_id),
        ) && self.is_mutable == other.is_mutable
    }

    /// The hash of a checked parameter: computed from exactly the three
    /// things equality compares — name, resolved structure, written
    /// mutability — so that equal parameters hash equally and spans
    /// cannot affect the outcome.
    pub open spec fn structural_hash_spec(
        p: TypedFunctionParameter,
        infos: Seq<TypeInfoModel>,
    ) -> int {
        (p.name.text@.len() % 0x10000000) * 16 + info_hash_tag(infos[p.type_id.0 as int]) * 2 + (
        if p.is_mutable {
            1int
        } else {
            0int
        })
    }

    pub fn structural_hash(&self, table: &TypeTable) -> (h: u64)
        requires
            table.contains_id(self.type_id),
        ensures
            h as int == Self::structural_hash_spec(*self, table@),
    {
        let name_len: usize = self.name.text.as_str().unicode_len();
        let tag: u64 = info_hash_tag_of(table.lookup(self.type_id));
        ((name_len as u64) % 0x10000000) * 16 + tag * 2 + (
        if self.is_mutable {
            1
        } else {
            0
        })
    }

    /// Rewrite the resolved identity by the mapping; the identity as
    /// written, the name and the spans stay untouched, whatever the
    /// mapping holds.
    pub fn copy_types(&mut self, type_mapping: &TypeMapping, table: &TypeTable)
        requires
            table.contains_id(old(self).type_id),
            type_mapping.valid(table@.len() as int),
        ensures
            final(self).type_id == substituted_type_id(
                old(self).type_id,
                table@,
                type_mapping.entries@,
            ),
            table.contains_id(final(self).type_id),
            final(self).name == old(self).name,
            final(self).is_reference == old(self).is_reference,
            final(self).is_mutable == old(self).is_mutable,
            final(self).mutability_span == old(self).mutability_span,
            final(self).initial_type_id == old(self).initial_type_id,
            final(self).type_span == old(self).type_span,
    {
        let replacement: Option<TypeId> = match table.lookup(self.type_id) {
            TypeInfo::UnknownGeneric { name } => {
                proof {
                    lemma_mapping_find_found(type_mapping.entries@, name@);
                }
                type_mapping.find(name)
            },
            _ => Option::None,
        };
        match replacement {
            Option::Some(t) => {
                self.type_id = t;
            },
            Option::None => {},
        }
    }
}

/// A small stable tag for each structural shape, the type's share of the
/// hash. Equal structures get equal tags by construction.
pub open spec fn info_hash_tag(info: TypeInfoModel) -> int {
    match info {
        TypeInfoModel::UnsignedInteger(bits) => match bits {
            crate::type_system::IntegerBits::Eight => 0int,
            crate::type_system::IntegerBits::Sixteen => 1,
            crate::type_system::IntegerBits::ThirtyTwo => 2,
            crate::type_system::IntegerBits::SixtyFour => 3,
        },
        TypeInfoModel::Boolean => 4,
        TypeInfoModel::UnknownGeneric { name } => 5,
        TypeInfoModel::Custom { name } => 6,
        TypeInfoModel::SelfType => 7,
        TypeInfoModel::ErrorRecovery => 8,
    }
}

fn info_hash_tag_of(info: &TypeInfo) -> (tag: u64)
    ensures
        tag as int == info_hash_tag(info@),
{
    match info {
        TypeInfo::UnsignedInteger(bits) => match bits {
            crate::type_system::IntegerBits::Eight => 0,
            crate::type_system::IntegerBits::Sixteen => 1,
            crate::type_system::IntegerBits::ThirtyTwo => 2,
            crate::type_system::IntegerBits::SixtyFour => 3,
        },
        TypeInfo::Boolean => 4,
        TypeInfo::UnknownGeneric { name: _ } => 5,
        TypeInfo::Custom { name: _ } => 6,
        TypeInfo::SelfType => 7,
        TypeInfo::ErrorRecovery => 8,
    }
}

/// Self resolution goes by variant: a written `Self` fails resolution
/// where no self index is bound (a free function) and resolves to
/// exactly the bound index where one is — the enclosing concrete type's
/// for an implemented method, the interned abstract placeholder's for an
/// interface declaration. In a deduplicated table the placeholder's
/// identity is distinct from every identity whose description differs,
/// so in particular from every concrete type's.
pub proof fn lemma_self_resolution_by_variant(
    infos0: Seq<TypeInfoModel>,
    decls: Seq<TypeDecl>,
    bound_self: int,
    table: TypeTable,
    placeholder: TypeId,
    concrete: TypeId,
)
    requires
        table.wf(),
        table.contains_id(placeholder),
        table.contains_id(concrete),
        table@[placeholder.0 as int] == TypeInfoModel::SelfType,
        table@[concrete.0 as int] != TypeInfoModel::SelfType,
    ensures
        checker_resolved_index(infos0, decls, TypeInfoModel::SelfType, Option::None) is None,
        checker_resolved_index(infos0, decls, TypeInfoModel::SelfType, Option::Some(bound_self))
            == Option::Some(bound_self),
        placeholder != concrete,
{
    crate::type_system::lemma_distinct_infos_distinct_ids(table, placeholder, concrete);
}

/// Structurally equal parameters hash equally: equality compares name,
/// resolved structure and mutability, and the hash is computed from
/// those three alone.
pub proof fn lemma_equal_parameters_hash_equal(
    p1: TypedFunctionParameter,
    p2: TypedFunctionParameter,
    infos: Seq<TypeInfoModel>,
)
    requires
        TypedFunctionParameter::structurally_equal_spec(p1, p2, infos),
    ensures
        TypedFunctionParameter::structural_hash_spec(p1, infos)
            == TypedFunctionParameter::structural_hash_spec(p2, infos),
{
}

/// Spans (and everything else equality leaves out) affect neither
/// equality nor the hash: two parameters agreeing on name, resolved
/// identity and mutability are interchangeable in both.
pub proof fn lemma_spans_affect_neither_eq_nor_hash(
    p1: TypedFunctionParameter,
    p2: TypedFunctionParameter,
    infos: Seq<TypeInfoModel>,
)
    requires
        p1.name.text@ == p2.name.text@,
        p1.type_id == p2.type_id,
        p1.is_mutable == p2.is_mutable,
    ensures
        TypedFunctionParameter::structural_hash_spec(p1, infos)
            == TypedFunctionParameter::structural_hash_spec(p2, infos),
        forall|q: TypedFunctionParameter|
            TypedFunctionParameter::structurally_equal_spec(p1, q, infos)
                == TypedFunctionParameter::structurally_equal_spec(p2, q, infos),
{
}

} // verus!

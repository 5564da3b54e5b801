//! The lexical scope that parameter checking reads and writes: declared
//! type names (consulted by resolution) and variable bindings (the side
//! effect of checking a function or method parameter). Symbol insertion
//! is last-write-wins: a later binding of the same name shadows an
//! earlier one.

use vstd::prelude::*;
use crate::source::Ident;
use crate::type_system::TypeId;

verus! {

/// How a variable binding may be used, computed from how its parameter
/// was written. Only `Mutable` — mutable, taken by value — is forbidden
/// for free-function parameters.
#[derive(Clone, Copy, PartialEq, Eq, Structural, Debug)]
pub enum VariableMutability {
    Mutable,
    RefMutable,
    Immutable,
}

/// The language's immutability-conversion rule: a parameter is `Mutable`
/// only when declared mutable and taken by value; declared mutable by
/// reference it is `RefMutable`; otherwise it is `Immutable`.
pub open spec fn convert_to_variable_immutability_spec(
    is_reference: bool,
    is_mutable: bool,
) -> VariableMutability {
    if is_mutable {
        if is_reference {
            VariableMutability::RefMutable
        } else {
            VariableMutability::Mutable
        }
    } else {
        VariableMutability::Immutable
    }
}

#[verifier::when_used_as_spec(convert_to_variable_immutability_spec)]
pub fn convert_to_variable_immutability(is_reference: bool, is_mutable: bool) -> (m:
    VariableMutability)
    ensures
        m == convert_to_variable_immutability_spec(is_reference, is_mutable),
{
    if is_mutable {
        if is_reference {
            VariableMutability::RefMutable
        } else {
            VariableMutability::Mutable
        }
    } else {
        VariableMutability::Immutable
    }
}

/// Whether a binding's value may still change.
#[derive(Clone, Copy, PartialEq, Eq, Structural, Debug)]
pub enum IsConstant {
    Yes,
    No,
}

/// What a variable's body expression is. A parameter binding has no body
/// in source; it is marked as coming from a function parameter.
#[derive(Clone, Copy, PartialEq, Eq, Structural, Debug)]
pub enum TypedExpressionVariant {
    FunctionParameter,
}

/// A checked expression: what it is, what type it returns, where it is.
#[derive(Debug)]
pub struct TypedExpression {
    pub expression: TypedExpressionVariant,
    pub return_type: TypeId,
    pub is_constant: IsConstant,
    pub span: sway_types::span::Span,
}

/// A checked variable declaration, the shape every binding takes in
/// scope, so the body checker sees parameters exactly as `let` bindings.
#[derive(Debug)]
pub struct TypedVariableDeclaration {
    pub name: Ident,
    pub body: TypedExpression,
    pub mutability: VariableMutability,
    pub type_ascription: TypeId,
    pub type_ascription_span: Option<sway_types::span::Span>,
}

/// A declaration a symbol can be bound to.
#[derive(Debug)]
pub enum TypedDeclaration {
    VariableDeclaration(TypedVariableDeclaration),
}

/// One entry of the symbol table.
#[derive(Debug)]
pub struct Binding {
    pub name: Ident,
    pub declaration: TypedDeclaration,
}

/// A user-declared type name in scope, with the identity it denotes and
/// how many generic parameters it requires.
#[derive(Debug)]
pub struct TypeDecl {
    pub name: String,
    pub type_id: TypeId,
    pub generic_parameter_count: usize,
}

/// The first declaration of `name` in `decls`, if any.
pub open spec fn decl_find(decls: Seq<TypeDecl>, name: Seq<char>) -> Option<TypeDecl>
    decreases decls.len(),
{
    if decls.len() == 0 {
        Option::None
    } else if decls[0].name@ == name {
        Option::Some(decls[0])
    } else {
        decl_find(decls.drop_first(), name)
    }
}

/// A declaration that `decl_find` returns stands in the sequence it was
/// found in.
pub proof fn lemma_decl_find_found(decls: Seq<TypeDecl>, name: Seq<char>)
    ensures
        decl_find(decls, name) matches Option::Some(d) ==> exists|k: int|
            0 <= k < decls.len() && decls[k] == d,
    decreases decls.len(),
{
    if decls.len() == 0 {
    } else if decls[0].name@ == name {
        assert(decls[0] == decl_find(decls, name)->Some_0);
    } else {
        lemma_decl_find_found(decls.drop_first(), name);
        if decl_find(decls, name) is Some {
            let d = decl_find(decls, name)->Some_0;
            let k = choose|k: int|
                0 <= k < decls.drop_first().len() && decls.drop_first()[k] == d;
            assert(decls[k + 1] == d);
        }
    }
}

/// The binding `name` currently denotes: the latest inserted, shadowing
/// earlier ones.
pub open spec fn symbol_lookup(symbols: Seq<Binding>, name: Seq<char>) -> Option<Binding>
    decreases symbols.len(),
{
    if symbols.len() == 0 {
        Option::None
    } else if symbols.last().name.text@ == name {
        Option::Some(symbols.last())
    } else {
        symbol_lookup(symbols.drop_last(), name)
    }
}

/// The current scope: declared types, and variable bindings in insertion
/// order.
#[derive(Debug)]
pub struct Namespace {
    type_decls: Vec<TypeDecl>,
    symbols: Vec<Binding>,
}

impl Namespace {
    /// The declared types, in declaration order.
    pub closed spec fn decls(&self) -> Seq<TypeDecl> {
        self.type_decls@
    }

    /// The variable bindings, in insertion order.
    pub closed spec fn symbols(&self) -> Seq<Binding> {
        self.symbols@
    }

    /// Every type a declaration denotes is a handle of `table_len` many.
    pub open spec fn decls_valid(&self, table_len: int) -> bool {
        forall|k: int|
            0 <= k < self.decls().len() ==> (#[trigger] self.decls()[k]).type_id.0 < table_len
    }

    pub fn new() -> (ns: Namespace)
        ensures
            ns.decls() == Seq::<TypeDecl>::empty(),
            ns.symbols() == Seq::<Binding>::empty(),
    {
        Namespace { type_decls: Vec::new(), symbols: Vec::new() }
    }

    /// Bring a type declaration into scope.
    pub fn insert_type_decl(&mut self, decl: TypeDecl)
        ensures
            final(self).decls() == old(self).decls().push(decl),
            final(self).symbols() == old(self).symbols(),
    {
        self.type_decls.push(decl);
    }

    /// The declaration a written type name refers to, if any.
    pub fn find_type_decl(&self, name: &String) -> (found: Option<&TypeDecl>)
        ensures
            match found {
                Option::Some(decl) => decl_find(self.decls(), name@) == Option::Some(*decl),
                Option::None => decl_find(self.decls(), name@) is None,
            },
    {
        let n = self.type_decls.len();
        let mut i: usize = 0;
        proof {
            assert(self.decls().skip(0) =~= self.decls());
        }
        while i < n
            invariant
                n == self.decls().len(),
                i <= n,
                decl_find(self.decls(), name@) == decl_find(self.decls().skip(i as int), name@),
            decreases n - i,
        {
            let decl = &self.type_decls[i];
            proof {
                assert(self.decls().skip(i as int)[0] == self.decls()[i as int]);
            }
            if decl.name == *name {
                return Option::Some(decl);
            }
            proof {
                assert(self.decls().skip(i as int).drop_first() =~= self.decls().skip(
                    i as int + 1,
                ));
            }
            i += 1;
        }
        proof {
            assert(self.decls().skip(n as int) =~= Seq::<TypeDecl>::empty());
        }
        Option::None
    }

    /// Bind `name` to `declaration` in this scope, shadowing any earlier
    /// binding of the same name.
    pub fn insert_symbol(&mut self, name: Ident, declaration: TypedDeclaration)
        ensures
            final(self).symbols() == old(self).symbols().push(
                Binding { name: name, declaration: declaration },
            ),
            final(self).decls() == old(self).decls(),
    {
        self.symbols.push(Binding { name, declaration });
    }

    /// The binding `name` currently denotes, if any.
    pub fn find_symbol(&self, name: &String) -> (found: Option<&Binding>)
        ensures
            match found {
                Option::Some(binding) => symbol_lookup(self.symbols(), name@) == Option::Some(
                    *binding,
                ),
                Option::None => symbol_lookup(self.symbols(), name@) is None,
            },
    {
        let mut i: usize = self.symbols.len();
        proof {
            assert(self.symbols().take(i as int) =~= self.symbols());
        }
        while i > 0
            invariant
                i <= self.symbols().len(),
                symbol_lookup(self.symbols(), name@) == symbol_lookup(
                    self.symbols().take(i as int),
                    name@,
                ),
            decreases i,
        {
            i -= 1;
            let binding = &self.symbols[i];
            proof {
                assert(self.symbols().take(i as int + 1).last() == self.symbols()[i as int]);
            }
            if binding.name.text == *name {
                return Option::Some(binding);
            }
            proof {
                assert(self.symbols().take(i as int + 1).drop_last() =~= self.symbols().take(
                    i as int,
                ));
            }
        }
        proof {
            assert(self.symbols().take(0) =~= Seq::<Binding>::empty());
        }
        Option::None
    }
}

} // verus!

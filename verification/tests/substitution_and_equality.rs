use param_resolution::namespace::Namespace;
use param_resolution::parameter::{FunctionParameter, TypeMapping, TypedFunctionParameter};
use param_resolution::source::Ident;
use param_resolution::type_system::{IntegerBits, TypeInfo, TypeTable};
use sway_types::span::{Source, Span};

fn span_at(start: usize, end: usize) -> Span {
    let src = Source::new("let value: u64 = 0;");
    Span::new(src, start, end, None).expect("range lies inside the source text")
}

fn generic_param(name: &str) -> FunctionParameter {
    FunctionParameter {
        name: Ident { text: name.to_owned(), span: span_at(4, 9) },
        is_reference: false,
        is_mutable: false,
        mutability_span: span_at(0, 3),
        type_info: TypeInfo::UnknownGeneric { name: "T".to_owned() },
        type_span: span_at(11, 14),
    }
}

#[test]
fn monomorphization_rewrites_only_the_resolved_identity() {
    let mut table = TypeTable::new();
    let mut namespace = Namespace::new();
    let res = TypedFunctionParameter::type_check(&mut table, &mut namespace, generic_param("v"));
    assert!(res.errors.is_empty());
    let mut tp = res.value.expect("an unbound generic parameter checks fine");
    let t_id = table.intern(TypeInfo::UnknownGeneric { name: "T".to_owned() });
    assert_eq!(tp.type_id, t_id);
    assert_eq!(tp.initial_type_id, t_id);

    let u32_id = table.intern(TypeInfo::UnsignedInteger(IntegerBits::ThirtyTwo));
    let mapping = TypeMapping { entries: vec![("T".to_owned(), u32_id)] };
    tp.copy_types(&mapping, &table);
    assert_eq!(tp.type_id, u32_id);
    assert_eq!(tp.initial_type_id, t_id);
    assert_eq!(tp.name.text, "v");
    assert_eq!(tp.name.span, span_at(4, 9));
    assert_eq!(tp.mutability_span, span_at(0, 3));
    assert_eq!(tp.type_span, span_at(11, 14));
}

#[test]
fn mapping_without_the_name_changes_nothing() {
    let mut table = TypeTable::new();
    let mut namespace = Namespace::new();
    let res = TypedFunctionParameter::type_check(&mut table, &mut namespace, generic_param("v"));
    let mut tp = res.value.expect("an unbound generic parameter checks fine");
    let t_id = tp.type_id;
    let u32_id = table.intern(TypeInfo::UnsignedInteger(IntegerBits::ThirtyTwo));
    let mapping = TypeMapping { entries: vec![("U".to_owned(), u32_id)] };
    tp.copy_types(&mapping, &table);
    assert_eq!(tp.type_id, t_id);
}

#[test]
fn concrete_identity_is_left_alone_by_substitution() {
    let mut table = TypeTable::new();
    let mut namespace = Namespace::new();
    let mut p = generic_param("v");
    p.type_info = TypeInfo::Boolean;
    let res = TypedFunctionParameter::type_check(&mut table, &mut namespace, p);
    let mut tp = res.value.expect("a boolean parameter checks fine");
    let bool_id = tp.type_id;
    let u32_id = table.intern(TypeInfo::UnsignedInteger(IntegerBits::ThirtyTwo));
    let mapping = TypeMapping { entries: vec![("T".to_owned(), u32_id)] };
    tp.copy_types(&mapping, &table);
    assert_eq!(tp.type_id, bool_id);
}

#[test]
fn equal_parameters_hash_equal_whatever_their_spans() {
    let mut table = TypeTable::new();
    let u64_id = table.intern(TypeInfo::UnsignedInteger(IntegerBits::SixtyFour));
    let p1 = TypedFunctionParameter {
        name: Ident { text: "x".to_owned(), span: span_at(0, 3) },
        is_reference: false,
        is_mutable: false,
        mutability_span: span_at(0, 3),
        type_id: u64_id,
        initial_type_id: u64_id,
        type_span: span_at(0, 3),
    };
    let p2 = TypedFunctionParameter {
        name: Ident { text: "x".to_owned(), span: span_at(4, 9) },
        is_reference: true,
        is_mutable: false,
        mutability_span: span_at(4, 9),
        type_id: u64_id,
        initial_type_id: u64_id,
        type_span: span_at(11, 14),
    };
    assert!(p1.structural_eq(&p2, &table));
    assert!(p2.structural_eq(&p1, &table));
    assert_eq!(p1.structural_hash(&table), p2.structural_hash(&table));
}

#[test]
fn structural_equality_goes_through_the_table_not_raw_handles() {
    let mut table = TypeTable::new();
    let a = table.intern(TypeInfo::Custom { name: "Point".to_owned() });
    let b = table.intern(TypeInfo::Custom { name: "Rect".to_owned() });
    let make = |id| TypedFunctionParameter {
        name: Ident { text: "x".to_owned(), span: Span::dummy() },
        is_reference: false,
        is_mutable: false,
        mutability_span: Span::dummy(),
        type_id: id,
        initial_type_id: id,
        type_span: Span::dummy(),
    };
    let p1 = make(a);
    let p2 = make(b);
    assert!(!p1.structural_eq(&p2, &table));
    let p3 = make(a);
    assert!(p1.structural_eq(&p3, &table));
    let mut p4 = make(a);
    p4.is_mutable = true;
    assert!(!p1.structural_eq(&p4, &table));
}

#[test]
fn is_self_goes_by_the_name_alone() {
    let mut table = TypeTable::new();
    let mut namespace = Namespace::new();
    let mut p = generic_param("self");
    p.type_info = TypeInfo::Boolean;
    let res = TypedFunctionParameter::type_check(&mut table, &mut namespace, p);
    let tp = res.value.expect("a boolean parameter checks fine");
    assert!(tp.is_self());

    let mut q = generic_param("selfish");
    q.type_info = TypeInfo::Boolean;
    let res2 = TypedFunctionParameter::type_check(&mut table, &mut namespace, q);
    let tq = res2.value.expect("a boolean parameter checks fine");
    assert!(!tq.is_self());
}

#[test]
fn ident_span_clone_preserves_the_location() {
    let ident = Ident { text: "x".to_owned(), span: span_at(4, 9) };
    let copy = ident.clone();
    assert_eq!(copy.text, "x");
    assert_eq!(copy.span, span_at(4, 9));
    assert_eq!(ident.span(), span_at(4, 9));
    assert_ne!(ident.span(), span_at(0, 3));
}

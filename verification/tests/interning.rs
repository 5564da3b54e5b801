use param_resolution::type_system::{IntegerBits, TypeInfo, TypeTable};

#[test]
fn intern_deduplicates_equal_structures() {
    let mut table = TypeTable::new();
    let a = table.intern(TypeInfo::Custom { name: "Point".to_owned() });
    let b = table.intern(TypeInfo::Custom { name: "Point".to_owned() });
    assert_eq!(a, b);
    assert_eq!(table.len(), 1);
}

#[test]
fn intern_keeps_distinct_structures_apart() {
    let mut table = TypeTable::new();
    let a = table.intern(TypeInfo::UnsignedInteger(IntegerBits::SixtyFour));
    let b = table.intern(TypeInfo::UnsignedInteger(IntegerBits::ThirtyTwo));
    let c = table.intern(TypeInfo::Boolean);
    assert_ne!(a, b);
    assert_ne!(a, c);
    assert_ne!(b, c);
    assert_eq!(table.len(), 3);
}

#[test]
fn lookup_returns_what_was_interned() {
    let mut table = TypeTable::new();
    let id = table.intern(TypeInfo::UnknownGeneric { name: "T".to_owned() });
    let round_trip = table.lookup(id);
    assert!(round_trip.structurally_eq(&TypeInfo::UnknownGeneric { name: "T".to_owned() }));
    assert!(!round_trip.structurally_eq(&TypeInfo::UnknownGeneric { name: "U".to_owned() }));
}

#[test]
fn interning_is_insensitive_to_other_entries() {
    let mut t1 = TypeTable::new();
    let mut t2 = TypeTable::new();
    t1.intern(TypeInfo::Boolean);
    t1.intern(TypeInfo::Custom { name: "A".to_owned() });
    t2.intern(TypeInfo::Boolean);
    t2.intern(TypeInfo::Custom { name: "A".to_owned() });
    let a = t1.intern(TypeInfo::Custom { name: "B".to_owned() });
    let b = t2.intern(TypeInfo::Custom { name: "B".to_owned() });
    assert_eq!(a, b);
}

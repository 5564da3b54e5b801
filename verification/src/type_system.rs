//! The global type store: structural descriptions of types (`TypeInfo`),
//! stable handles into the store (`TypeId`), and the append-only,
//! deduplicating table that interns descriptions.

use vstd::prelude::*;

verus! {

/// Width of an unsigned integer primitive.
#[derive(Clone, Copy, PartialEq, Eq, Structural, Debug, Hash)]
pub enum IntegerBits {
    Eight,
    Sixteen,
    ThirtyTwo,
    SixtyFour,
}

/// Structural description of a type. Immutable once interned: a "new type"
/// is a new entry in the table, never a mutation of an old one.
#[derive(Debug)]
pub enum TypeInfo {
    /// An unsigned integer primitive of the given width.
    UnsignedInteger(IntegerBits),
    /// The boolean primitive.
    Boolean,
    /// A generic type variable, identified by its name, still unbound.
    UnknownGeneric { name: String },
    /// A reference, as written in source, to a named user-declared type.
    /// Resolution must look the name up in the current namespace.
    Custom { name: String },
    /// Placeholder for "the enclosing type" (`Self`), resolved by context.
    SelfType,
    /// Sentinel standing for "resolution failed, already reported".
    ErrorRecovery,
}

/// Mathematical model of a `TypeInfo`: names as character sequences.
pub ghost enum TypeInfoModel {
    UnsignedInteger(IntegerBits),
    Boolean,
    UnknownGeneric { name: Seq<char> },
    Custom { name: Seq<char> },
    SelfType,
    ErrorRecovery,
}

impl View for TypeInfo {
    type V = TypeInfoModel;

    open spec fn view(&self) -> TypeInfoModel {
        match self {
            TypeInfo::UnsignedInteger(bits) => TypeInfoModel::UnsignedInteger(*bits),
            TypeInfo::Boolean => TypeInfoModel::Boolean,
            TypeInfo::UnknownGeneric { name } => TypeInfoModel::UnknownGeneric { name: name@ },
            TypeInfo::Custom { name } => TypeInfoModel::Custom { name: name@ },
            TypeInfo::SelfType => TypeInfoModel::SelfType,
            TypeInfo::ErrorRecovery => TypeInfoModel::ErrorRecovery,
        }
    }
}

impl TypeInfo {
    /// Structural equality: same variant, same width or name.
    pub fn structurally_eq(&self, other: &TypeInfo) -> (r: bool)
        ensures
            r == (self@ == other@),
    {
        match (self, other) {
            (TypeInfo::UnsignedInteger(a), TypeInfo::UnsignedInteger(b)) => *a == *b,
            (TypeInfo::Boolean, TypeInfo::Boolean) => true,
            (TypeInfo::UnknownGeneric { name: a }, TypeInfo::UnknownGeneric { name: b }) => *a
                == *b,
            (TypeInfo::Custom { name: a }, TypeInfo::Custom { name: b }) => *a == *b,
            (TypeInfo::SelfType, TypeInfo::SelfType) => true,
            (TypeInfo::ErrorRecovery, TypeInfo::ErrorRecovery) => true,
            _ => false,
        }
    }
}

/// Stable handle into the type table; the sole currency of type identity.
/// Two handles denote the same type exactly when the descriptions they
/// look up to are structurally equal; in a deduplicated table that
/// coincides with equality of the handles themselves.
#[derive(Clone, Copy, PartialEq, Eq, Structural, Debug, Hash)]
pub struct TypeId(pub usize);

/// Index of the first entry of `infos` structurally equal to `target`,
/// or `infos.len()` when no entry is.
pub open spec fn find_info_index(infos: Seq<TypeInfoModel>, target: TypeInfoModel) -> int
    decreases infos.len(),
{
    if infos.len() == 0 {
        0
    } else if infos[0] == target {
        0
    } else {
        1 + find_info_index(infos.drop_first(), target)
    }
}

/// Whether `infos` holds an entry structurally equal to `target`.
pub open spec fn has_info(infos: Seq<TypeInfoModel>, target: TypeInfoModel) -> bool {
    find_info_index(infos, target) < infos.len()
}

/// The table contents after interning `target` into `infos`.
pub open spec fn intern_result(infos: Seq<TypeInfoModel>, target: TypeInfoModel) -> Seq<
    TypeInfoModel,
> {
    if has_info(infos, target) {
        infos
    } else {
        infos.push(target)
    }
}

/// `find_info_index` lands in `0 .. len` on the first equal entry, with no
/// equal entry before it, and at `len` exactly when no entry is equal.
pub proof fn lemma_find_info_index(infos: Seq<TypeInfoModel>, target: TypeInfoModel)
    ensures
        0 <= find_info_index(infos, target) <= infos.len(),
        find_info_index(infos, target) < infos.len() ==> infos[find_info_index(infos, target)]
            == target,
        forall|k: int|
            0 <= k < find_info_index(infos, target) ==> infos[k] != target,
        find_info_index(infos, target) == infos.len() ==> forall|k: int|
            0 <= k < infos.len() ==> infos[k] != target,
    decreases infos.len(),
{
    if infos.len() == 0 {
    } else if infos[0] == target {
    } else {
        lemma_find_info_index(infos.drop_first(), target);
        assert forall|k: int| 0 <= k < find_info_index(infos, target) implies infos[k]
            != target by {
            if k > 0 {
                assert(infos.drop_first()[k - 1] == infos[k]);
            }
        }
        if find_info_index(infos, target) == infos.len() {
            assert forall|k: int| 0 <= k < infos.len() implies infos[k] != target by {
                if k > 0 {
                    assert(infos.drop_first()[k - 1] == infos[k]);
                }
            }
        }
    }
}

/// Append-only store of type descriptions with structural deduplication.
/// Handles are indices; the table never removes or rewrites an entry.
pub struct TypeTable {
    entries: Vec<TypeInfo>,
}

impl View for TypeTable {
    type V = Seq<TypeInfoModel>;

    closed spec fn view(&self) -> Seq<TypeInfoModel> {
        self.entries@.map(|i: int, info: TypeInfo| info@)
    }
}

impl TypeTable {
    /// No two entries are structurally equal: one structure, one handle.
    pub open spec fn wf(&self) -> bool {
        forall|i: int, j: int|
            0 <= i < j < self@.len() ==> self@[i] != self@[j]
    }

    /// Whether `id` is a handle this table has given out.
    pub open spec fn contains_id(&self, id: TypeId) -> bool {
        id.0 < self@.len()
    }

    pub fn new() -> (table: TypeTable)
        ensures
            table@ == Seq::<TypeInfoModel>::empty(),
            table.wf(),
    {
        TypeTable { entries: Vec::new() }
    }

    pub fn len(&self) -> (n: usize)
        ensures
            n == self@.len(),
    {
        self.entries.len()
    }

    /// Intern a description: return the handle of the structurally equal
    /// entry if one exists, else append `info` and return its new handle.
    /// Entries already present are never moved or changed.
    pub fn intern(&mut self, info: TypeInfo) -> (id: TypeId)
        requires
            old(self).wf(),
        ensures
            final(self).wf(),
            final(self)@ == intern_result(old(self)@, info@),
            id.0 == find_info_index(old(self)@, info@),
            final(self).contains_id(id),
            final(self)@[id.0 as int] == info@,
            old(self)@.len() <= final(self)@.len(),
            forall|k: int| 0 <= k < old(self)@.len() ==> final(self)@[k] == old(self)@[k],
    {
        let n = self.entries.len();
        let mut i: usize = 0;
        while i < n
            invariant
                self@ == old(self)@,
                old(self).wf(),
                n == self@.len(),
                i <= n,
                forall|k: int| 0 <= k < i ==> self@[k] != info@,
            decreases n - i,
        {
            assert(self@[i as int] == self.entries@[i as int]@);
            if self.entries[i].structurally_eq(&info) {
                proof {
                    lemma_find_info_index(self@, info@);
                }
                return TypeId(i);
            }
            i += 1;
        }
        let ghost before = self@;
        let id = TypeId(self.entries.len());
        self.entries.push(info);
        proof {
            lemma_find_info_index(before, info@);
            assert(self@ =~= before.push(info@));
            assert forall|a: int, b: int| 0 <= a < b < self@.len() implies self@[a]
                != self@[b] by {
                if b == self@.len() - 1 {
                    assert(self@[a] == before[a]);
                }
            }
        }
        id
    }

    /// Look a handle up; total for every handle the table has given out.
    pub fn lookup(&self, id: TypeId) -> (info: &TypeInfo)
        requires
            self.contains_id(id),
        ensures
            info@ == self@[id.0 as int],
    {
        assert(self@[id.0 as int] == self.entries@[id.0 as int]@);
        &self.entries[id.0]
    }
}

/// Interning is deterministic: structurally equal descriptions interned
/// into the same table state come out with the same handle, whatever else
/// stands in the table.
pub proof fn lemma_intern_deterministic(
    infos: Seq<TypeInfoModel>,
    t1: TypeInfoModel,
    t2: TypeInfoModel,
)
    requires
        t1 == t2,
    ensures
        find_info_index(infos, t1) == find_info_index(infos, t2),
{
}

/// Looking up the handle that interning gave back yields the very
/// description that was interned.
pub proof fn lemma_lookup_after_intern(infos: Seq<TypeInfoModel>, target: TypeInfoModel)
    ensures
        0 <= find_info_index(infos, target) < intern_result(infos, target).len(),
        intern_result(infos, target)[find_info_index(infos, target)] == target,
{
    lemma_find_info_index(infos, target);
    if !has_info(infos, target) {
        assert(infos.push(target)[infos.len() as int] == target);
    }
}

/// Interning the same description twice gives the same handle back, and
/// the second call leaves the table as it was.
pub proof fn lemma_intern_twice(infos: Seq<TypeInfoModel>, target: TypeInfoModel)
    ensures
        find_info_index(intern_result(infos, target), target) == find_info_index(infos, target),
        intern_result(intern_result(infos, target), target) == intern_result(infos, target),
{
    lemma_find_info_index(infos, target);
    lemma_find_info_index(infos.push(target), target);
    if has_info(infos, target) {
    } else {
        let pushed = infos.push(target);
        assert(pushed[infos.len() as int] == target);
        assert forall|k: int| 0 <= k < infos.len() implies pushed[k] != target by {
            assert(pushed[k] == infos[k]);
        }
        assert(find_info_index(pushed, target) == infos.len()) by {
            lemma_find_info_index(pushed, target);
        }
    }
}

/// In a deduplicated table, handles whose descriptions differ are
/// different handles; a handle to the `SelfType` placeholder is distinct
/// from every handle to a concrete description.
pub proof fn lemma_distinct_infos_distinct_ids(table: TypeTable, a: TypeId, b: TypeId)
    requires
        table.wf(),
        table.contains_id(a),
        table.contains_id(b),
        table@[a.0 as int] != table@[b.0 as int],
    ensures
        a != b,
{
}

} // verus!

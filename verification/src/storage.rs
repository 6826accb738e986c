//! Declared contract storage: the typed declaration, its fields, and the
//! accessors that turn a field name into a checked load or store carrying
//! the field's stable state index.

use vstd::prelude::*;

use crate::error::{err, ok, CompileError, CompileResult, CompileWarning};
use crate::span::{Ident, Span};
use crate::type_engine::TypeId;
use crate::typed_expression::{StoreOrLoad, TypeCheckedStorageAccess, TypedExpression};

verus! {

/// The zero-based position of a field in the storage declaration: the sole
/// on-chain addressing key for the persisted slot, immutable once assigned.
#[derive(Clone, Copy, Debug, PartialEq, Eq, Structural)]
pub struct StateIndex(pub usize);

impl StateIndex {
    pub fn new(ix: usize) -> (r: Self)
        ensures
            r.0 == ix,
    {
        StateIndex(ix)
    }
}

/// One declared storage field: its name, the handle of its type, and the
/// expression initializing its slot.
#[derive(Debug)]
pub struct TypedStorageField {
    pub name: Ident,
    pub type_id: TypeId,
    pub initializer: TypedExpression,
}

impl TypedStorageField {
    pub fn new(name: Ident, type_id: TypeId, initializer: TypedExpression) -> (r: Self)
        ensures
            r.name == name,
            r.type_id == type_id,
            r.initializer == initializer,
    {
        TypedStorageField { name, type_id, initializer }
    }
}

#[derive(Debug)]
pub struct TypedStorageDeclaration {
    pub fields: Vec<TypedStorageField>,
    pub span: Span,
}

/// The position of the first storage field named `name`, if one is declared.
pub open spec fn find_field_spec(fields: Seq<TypedStorageField>, name: Seq<char>) -> Option<int>
    decreases fields.len(),
{
    if fields.len() == 0 {
        None
    } else if fields[0].name.name@ == name {
        Some(0int)
    } else {
        match find_field_spec(fields.drop_first(), name) {
            Some(i) => Some(i + 1),
            None => None,
        }
    }
}

/// What a found field position means: `i` is in range, names the field
/// asked for, and no earlier field has that name.
pub broadcast proof fn lemma_find_field_spec(fields: Seq<TypedStorageField>, name: Seq<char>)
    ensures
        match #[trigger] find_field_spec(fields, name) {
            Some(i) => {
                &&& 0 <= i < fields.len()
                &&& fields[i].name.name@ == name
                &&& forall|j: int| 0 <= j < i ==> (#[trigger] fields[j]).name.name@ != name
            },
            None => forall|j: int|
                0 <= j < fields.len() ==> (#[trigger] fields[j]).name.name@ != name,
        },
    decreases fields.len(),
{
    if fields.len() > 0 && fields[0].name.name@ != name {
        let rest = fields.drop_first();
        lemma_find_field_spec(rest, name);
        match find_field_spec(rest, name) {
            Some(i) => {
                assert(find_field_spec(fields, name) == Some(i + 1));
                assert(fields[i + 1] == rest[i]);
                assert forall|j: int| 0 <= j < i + 1 implies (#[trigger] fields[j]).name.name@
                    != name by {
                    if j > 0 {
                        assert(fields[j] == rest[j - 1]);
                    }
                }
            },
            None => {
                assert forall|j: int| 0 <= j < fields.len() implies (
                #[trigger] fields[j]).name.name@ != name by {
                    if j > 0 {
                        assert(fields[j] == rest[j - 1]);
                    }
                }
            },
        }
    }
}


/// Storage index stability. When the declared field names are pairwise
/// distinct, looking any field up by its own name answers exactly its
/// declared position — the state index that addresses its persisted slot.
pub proof fn lemma_storage_index_stability(fields: Seq<TypedStorageField>, i: int)
    requires
        0 <= i < fields.len(),
        forall|a: int, b: int|
            0 <= a < b < fields.len() ==> (#[trigger] fields[a]).name.name@ != (
            #[trigger] fields[b]).name.name@,
    ensures
        find_field_spec(fields, fields[i].name.name@) == Some(i),
    decreases i,
{
    if i == 0 {
    } else {
        assert(fields[0].name.name@ != fields[i].name.name@);
        let rest = fields.drop_first();
        assert forall|a: int, b: int|
            0 <= a < b < rest.len() implies (#[trigger] rest[a]).name.name@ != (
        #[trigger] rest[b]).name.name@ by {
            assert(rest[a] == fields[a + 1]);
            assert(rest[b] == fields[b + 1]);
        }
        assert(rest[i - 1] == fields[i]);
        lemma_storage_index_stability(rest, i - 1);
    }
}

impl TypedStorageDeclaration {
    pub fn new(fields: Vec<TypedStorageField>, span: Span) -> (r: Self)
        ensures
            r.fields == fields,
            r.span == span,
    {
        TypedStorageDeclaration { fields, span }
    }

    pub fn span(&self) -> (s: Span)
        ensures
            s == self.span,
    {
        self.span
    }

    /// The position of the first field named `field`, with the field itself.
    fn find_field(&self, field: &Ident) -> (r: Option<(StateIndex, &TypedStorageField)>)
        ensures
            match find_field_spec(self.fields@, field.name@) {
                Some(i) => r matches Some((ix, f)) && ix.0 == i && *f == self.fields@[i],
                None => r is None,
            },
    {
        proof {
            lemma_find_field_spec(self.fields@, field.name@);
        }
        let mut i: usize = 0;
        while i < self.fields.len()
            invariant
                i <= self.fields.len(),
                forall|j: int| 0 <= j < i as int ==> (#[trigger] self.fields@[j]).name.name@
                    != field.name@,
            decreases self.fields.len() - i,
        {
            if self.fields[i].name.name.eq(&field.name) {
                proof {
                    lemma_find_field_spec(self.fields@, field.name@);
                }
                return Some((StateIndex::new(i), &self.fields[i]));
            }
            i = i + 1;
        }
        None
    }

    /// Given a field name, finds its declaration and produces a checked
    /// load carrying the field's state index and type handle. A name not
    /// declared in storage is a reportable error, not a fault.
    pub fn apply_storage_load(&self, field: Ident) -> (r: CompileResult<
        (TypeCheckedStorageAccess, TypeId),
    >)
        ensures
            r.warnings@.len() == 0,
            match find_field_spec(self.fields@, field.name@) {
                Some(i) => {
                    &&& r.errors@.len() == 0
                    &&& r.value matches Some((access, tid)) && {
                        &&& access.store_or_load == StoreOrLoad::Load
                        &&& access.field_ix_and_name matches Some((ix, name)) && ix.0 == i
                            && name.name@ == field.name@
                        &&& tid == self.fields@[i].type_id
                    }
                },
                None => {
                    &&& r.value is None
                    &&& r.errors@.len() == 1
                    &&& r.errors@[0] matches CompileError::StorageFieldNotFound {
                        field_name,
                        span,
                    } && field_name@ == field.name@ && span == field.span
                },
            },
    {
        match self.find_field(&field) {
            Some((ix, found)) => {
                let tid = found.type_id;
                let name = found.name.clone_ident();
                proof {
                    lemma_find_field_spec(self.fields@, field.name@);
                }
                ok((TypeCheckedStorageAccess::new_load(ix, name), tid), Vec::new(), Vec::new())
            },
            None => {
                let mut errors: Vec<CompileError> = Vec::new();
                errors.push(
                    CompileError::StorageFieldNotFound { field_name: field.name, span: field.span },
                );
                err(Vec::new(), errors)
            },
        }
    }

    /// As [`Self::apply_storage_load`], but the produced access is a store.
    pub fn apply_storage_store(&self, field: Ident) -> (r: CompileResult<
        (TypeCheckedStorageAccess, TypeId),
    >)
        ensures
            r.warnings@.len() == 0,
            match find_field_spec(self.fields@, field.name@) {
                Some(i) => {
                    &&& r.errors@.len() == 0
                    &&& r.value matches Some((access, tid)) && {
                        &&& access.store_or_load == StoreOrLoad::Store
                        &&& access.field_ix_and_name matches Some((ix, name)) && ix.0 == i
                            && name.name@ == field.name@
                        &&& tid == self.fields@[i].type_id
                    }
                },
                None => {
                    &&& r.value is None
                    &&& r.errors@.len() == 1
                    &&& r.errors@[0] matches CompileError::StorageFieldNotFound {
                        field_name,
                        span,
                    } && field_name@ == field.name@ && span == field.span
                },
            },
    {
        match self.find_field(&field) {
            Some((ix, found)) => {
                let tid = found.type_id;
                let name = found.name.clone_ident();
                proof {
                    lemma_find_field_spec(self.fields@, field.name@);
                }
                ok((TypeCheckedStorageAccess::new_store(ix, name), tid), Vec::new(), Vec::new())
            },
            None => {
                let mut errors: Vec<CompileError> = Vec::new();
                errors.push(
                    CompileError::StorageFieldNotFound { field_name: field.name, span: field.span },
                );
                err(Vec::new(), errors)
            },
        }
    }

    /// The declared fields viewed as the fields of one struct, for
    /// aggregate struct-level operations over the whole of storage.
    pub fn fields_as_owned_typed_struct_fields(&self) -> (r: Vec<crate::type_engine::OwnedTypedStructField>)
        ensures
            r@.len() == self.fields@.len(),
            forall|i: int| 0 <= i < r@.len() ==> (#[trigger] r@[i]).name@
                == self.fields@[i].name.name@ && r@[i].type_id == self.fields@[i].type_id,
    {
        let mut buf: Vec<crate::type_engine::OwnedTypedStructField> = Vec::new();
        let mut i: usize = 0;
        while i < self.fields.len()
            invariant
                i <= self.fields.len(),
                buf@.len() == i as int,
                forall|j: int| 0 <= j < i as int ==> (#[trigger] buf@[j]).name@
                    == self.fields@[j].name.name@ && buf@[j].type_id == self.fields@[j].type_id,
            decreases self.fields.len() - i,
        {
            buf.push(
                crate::type_engine::OwnedTypedStructField {
                    name: self.fields[i].name.name.clone(),
                    type_id: self.fields[i].type_id,
                },
            );
            i = i + 1;
        }
        buf
    }
}

} // verus!

//! The scope collaborator: what names are declared, with what, when an
//! expression is checked. Declarations must be registered here before any
//! expression referencing them is checked.

use vstd::prelude::*;

use crate::span::Ident;
use crate::storage::TypedStorageDeclaration;
use crate::type_engine::TypeId;
use crate::typed_enum::TypedEnumDeclaration;

verus! {

pub struct Namespace {
    /// Declared value bindings, each with the handle of its type.
    pub symbols: Vec<(Ident, TypeId)>,
    /// Enum declarations already typed in this scope.
    pub enum_decls: Vec<TypedEnumDeclaration>,
    /// The storage declaration of the contract being compiled, if any.
    pub storage: Option<TypedStorageDeclaration>,
}

/// The type handle of the first binding under `name`, if one is declared.
pub open spec fn find_symbol_spec(symbols: Seq<(Ident, TypeId)>, name: Seq<char>) -> Option<TypeId>
    decreases symbols.len(),
{
    if symbols.len() == 0 {
        None
    } else if symbols[0].0.name@ == name {
        Some(symbols[0].1)
    } else {
        find_symbol_spec(symbols.drop_first(), name)
    }
}

/// The position of the first enum declaration under `name`, if any.
pub open spec fn find_enum_spec(decls: Seq<TypedEnumDeclaration>, name: Seq<char>) -> Option<int>
    decreases decls.len(),
{
    if decls.len() == 0 {
        None
    } else if decls[0].name.name@ == name {
        Some(0int)
    } else {
        match find_enum_spec(decls.drop_first(), name) {
            Some(i) => Some(i + 1),
            None => None,
        }
    }
}

pub broadcast proof fn lemma_find_enum_spec(decls: Seq<TypedEnumDeclaration>, name: Seq<char>)
    ensures
        match #[trigger] find_enum_spec(decls, name) {
            Some(i) => 0 <= i < decls.len() && decls[i].name.name@ == name,
            None => true,
        },
    decreases decls.len(),
{
    if decls.len() > 0 && decls[0].name.name@ != name {
        lemma_find_enum_spec(decls.drop_first(), name);
        match find_enum_spec(decls.drop_first(), name) {
            Some(i) => {
                assert(decls[i + 1] == decls.drop_first()[i]);
            },
            None => {},
        }
    }
}

impl Namespace {
    /// A scope with nothing declared yet.
    pub fn new() -> (ns: Namespace)
        ensures
            ns.symbols@.len() == 0,
            ns.enum_decls@.len() == 0,
            ns.storage is None,
    {
        Namespace { symbols: Vec::new(), enum_decls: Vec::new(), storage: None }
    }

    /// Declares a value binding with its type.
    pub fn insert_symbol(&mut self, name: Ident, type_id: TypeId)
        ensures
            final(self).symbols@ == old(self).symbols@.push((name, type_id)),
            final(self).enum_decls == old(self).enum_decls,
            final(self).storage == old(self).storage,
    {
        self.symbols.push((name, type_id));
    }

    /// Registers a typed enum declaration.
    pub fn insert_enum(&mut self, decl: TypedEnumDeclaration)
        ensures
            final(self).enum_decls@ == old(self).enum_decls@.push(decl),
            final(self).symbols == old(self).symbols,
            final(self).storage == old(self).storage,
    {
        self.enum_decls.push(decl);
    }

    /// The type handle of the first binding under `name`.
    #[verifier::loop_isolation(false)]
    pub fn find_symbol(&self, name: &Ident) -> (r: Option<TypeId>)
        ensures
            r == find_symbol_spec(self.symbols@, name.name@),
    {
        proof {
            assert(self.symbols@.skip(0int) =~= self.symbols@);
        }
        let mut i: usize = 0;
        while i < self.symbols.len()
            invariant
                i <= self.symbols.len(),
                find_symbol_spec(self.symbols@, name.name@) == find_symbol_spec(
                    self.symbols@.skip(i as int),
                    name.name@,
                ),
            decreases self.symbols.len() - i,
        {
            if self.symbols[i].0.name.eq(&name.name) {
                assert(self.symbols@.skip(i as int)[0] == self.symbols@[i as int]);
                return Some(self.symbols[i].1);
            }
            assert(self.symbols@.skip(i as int).drop_first() =~= self.symbols@.skip(i as int + 1));
            i = i + 1;
        }
        assert(self.symbols@.skip(i as int).len() == 0);
        None
    }

    /// The first enum declaration under `name`, if any.
    #[verifier::loop_isolation(false)]
    pub fn find_enum(&self, name: &Ident) -> (r: Option<&TypedEnumDeclaration>)
        ensures
            match find_enum_spec(self.enum_decls@, name.name@) {
                Some(i) => r matches Some(d) && *d == self.enum_decls@[i],
                None => r is None,
            },
    {
        proof {
            lemma_find_enum_spec(self.enum_decls@, name.name@);
            assert(self.enum_decls@.skip(0int) =~= self.enum_decls@);
        }
        let mut i: usize = 0;
        while i < self.enum_decls.len()
            invariant
                i <= self.enum_decls.len(),
                forall|j: int| 0 <= j < i as int ==> (#[trigger] self.enum_decls@[j]).name.name@
                    != name.name@,
            decreases self.enum_decls.len() - i,
        {
            if self.enum_decls[i].name.name.eq(&name.name) {
                proof {
                    lemma_find_enum_first(self.enum_decls@, name.name@, i as int);
                }
                return Some(&self.enum_decls[i]);
            }
            i = i + 1;
        }
        proof {
            lemma_find_enum_none(self.enum_decls@, name.name@);
        }
        None
    }
}

/// When every declaration before `i` misses and `i` hits, the search
/// answers `i`.
proof fn lemma_find_enum_first(decls: Seq<TypedEnumDeclaration>, name: Seq<char>, i: int)
    requires
        0 <= i < decls.len(),
        decls[i].name.name@ == name,
        forall|j: int| 0 <= j < i ==> (#[trigger] decls[j]).name.name@ != name,
    ensures
        find_enum_spec(decls, name) == Some(i),
    decreases i,
{
    if i > 0 {
        assert forall|j: int| 0 <= j < i - 1 implies (#[trigger] decls.drop_first()[j]).name.name@
            != name by {
            assert(decls.drop_first()[j] == decls[j + 1]);
        }
        assert(decls.drop_first()[i - 1] == decls[i]);
        lemma_find_enum_first(decls.drop_first(), name, i - 1);
    }
}

/// When every declaration misses, the search answers nothing.
proof fn lemma_find_enum_none(decls: Seq<TypedEnumDeclaration>, name: Seq<char>)
    requires
        forall|j: int| 0 <= j < decls.len() ==> (#[trigger] decls[j]).name.name@ != name,
    ensures
        find_enum_spec(decls, name) is None,
    decreases decls.len(),
{
    if decls.len() > 0 {
        assert forall|j: int| 0 <= j < decls.len() - 1 implies (
        #[trigger] decls.drop_first()[j]).name.name@ != name by {
            assert(decls.drop_first()[j] == decls[j + 1]);
        }
        lemma_find_enum_none(decls.drop_first(), name);
    }
}

} // verus!

//! The data model of the definition surface: types, items, and the types
//! registry for one validation run.  The surface arrives already parsed; the
//! registry and the item list are immutable inputs of the validator.

use vstd::prelude::*;
use crate::atoms::is_atom_name;

verus! {

/// Which runtime owns an allocation.
#[derive(Clone, Copy, PartialEq, Eq, Structural, Debug)]
pub enum Side {
    /// The runtime with automatic ownership and lifetime tracking.
    Managed,
    /// The runtime with manual, single-owner memory management.
    Native,
}

/// A type as written in the definition surface.
#[derive(Debug)]
pub enum Type {
    /// A named type, resolved against the atom registry and the declared
    /// struct and opaque-type names.
    Ident(String),
    /// An exclusively owned heap allocation, tagged by the owning side.
    OwningPointer { side: Side, inner: Box<Type> },
    /// A non-owning borrowed view; no lifetime is modelled at this layer.
    Reference { mutable: bool, inner: Box<Type> },
    /// A borrowed string view, valid by value because it carries no
    /// ownership.
    BorrowedText,
    /// Function-pointer types are rejected unconditionally.
    FunctionPointer,
    /// The empty type.
    Unit,
}

/// A named slot: a struct field or a function argument.
#[derive(Debug)]
pub struct Var {
    pub name: String,
    pub ty: Type,
    /// Source position of this slot, for diagnostics.
    pub pos: usize,
}

/// A shared struct declared on the boundary.
#[derive(Debug)]
pub struct StructDef {
    pub name: String,
    /// Fields in declaration order.
    pub fields: Vec<Var>,
    pub pos: usize,
}

/// A function declared on the boundary.
#[derive(Debug)]
pub struct FnDecl {
    pub name: String,
    /// Arguments in declaration order.
    pub args: Vec<Var>,
    /// The return type, if the function returns a value.
    pub ret: Option<Type>,
    /// Source position of the return type; meaningful when `ret` is present.
    pub ret_pos: usize,
    pub pos: usize,
}

/// One item of the definition surface, in declaration order.
#[derive(Debug)]
pub enum Item {
    Struct(StructDef),
    /// Implemented on the native side, callable from the managed side.
    NativeFunction(FnDecl),
    /// Implemented on the managed side, callable from the native side.
    ManagedFunction(FnDecl),
}

/// One occurrence of a type somewhere in the surface, with its source
/// position.  The external parser records every occurrence, nested inner
/// types included, in declaration order.
#[derive(Debug)]
pub struct TypeUse {
    pub ty: Type,
    pub pos: usize,
}

/// The types registry for one validation run: the declared names of shared
/// structs and of the opaque types of each side, plus every type occurrence
/// in the surface.  Built once by the external parser and read-only here.
#[derive(Debug)]
pub struct Types {
    /// Names of the declared shared structs.
    pub structs: Vec<String>,
    /// Names declared as opaque native-side types.
    pub native: Vec<String>,
    /// Names declared as opaque managed-side types.
    pub managed: Vec<String>,
    /// Every type occurrence anywhere in the surface, in declaration order.
    pub all: Vec<TypeUse>,
}

/// Membership of a name in a list of declared names.
pub open spec fn seq_has_name(v: Seq<String>, name: Seq<char>) -> bool {
    exists|i: int| 0 <= i < v.len() && v[i]@ == name
}

impl Types {
    /// The name is a declared shared struct.
    pub open spec fn is_struct(&self, name: Seq<char>) -> bool {
        seq_has_name(self.structs@, name)
    }

    /// The name is a declared opaque native-side type.
    pub open spec fn is_native(&self, name: Seq<char>) -> bool {
        seq_has_name(self.native@, name)
    }

    /// The name is a declared opaque managed-side type.
    pub open spec fn is_managed(&self, name: Seq<char>) -> bool {
        seq_has_name(self.managed@, name)
    }

    /// The name resolves: it is an atom, a struct, or an opaque type of
    /// either side.
    pub open spec fn resolves(&self, name: Seq<char>) -> bool {
        is_atom_name(name) || self.is_struct(name) || self.is_native(name) || self.is_managed(
            name,
        )
    }
}

/// Membership test against one of the registry's name lists.
pub fn contains_name(v: &Vec<String>, name: &str) -> (r: bool)
    ensures
        r == seq_has_name(v@, name@),
{
    let mut i: usize = 0;
    while i < v.len()
        invariant
            i <= v@.len(),
            forall|j: int| 0 <= j < i ==> v@[j]@ != name@,
        decreases v@.len() - i,
    {
        if crate::atoms::str_eql(v[i].as_str(), name) {
            return true;
        }
        i += 1;
    }
    false
}

} // verus!

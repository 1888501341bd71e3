//! The atom registry: the closed enumeration of built-in primitive kinds and
//! the identifier-to-atom lookup used to resolve named types.

use vstd::prelude::*;

verus! {

/// A built-in primitive kind.  Atoms are representable on both sides of the
/// boundary and are recognized by name through [`atom_of`].  The two string
/// atoms differ: the managed string crosses by value, while the native string
/// has no stable by-value representation and counts as unsized.
#[derive(Clone, Copy, PartialEq, Eq, Structural, Debug)]
pub enum Atom {
    Bool,
    U8,
    U16,
    U32,
    U64,
    Usize,
    I8,
    I16,
    I32,
    I64,
    Isize,
    F32,
    F64,
    /// The native side's string type, named `NativeString` in the surface.
    NativeString,
    /// The managed side's string type, named `String` in the surface.
    ManagedString,
}

/// What [`atom_of`] returns for a given identifier.
pub open spec fn spec_atom_of(name: Seq<char>) -> Option<Atom> {
    if name == "bool"@ {
        Some(Atom::Bool)
    } else if name == "u8"@ {
        Some(Atom::U8)
    } else if name == "u16"@ {
        Some(Atom::U16)
    } else if name == "u32"@ {
        Some(Atom::U32)
    } else if name == "u64"@ {
        Some(Atom::U64)
    } else if name == "usize"@ {
        Some(Atom::Usize)
    } else if name == "i8"@ {
        Some(Atom::I8)
    } else if name == "i16"@ {
        Some(Atom::I16)
    } else if name == "i32"@ {
        Some(Atom::I32)
    } else if name == "i64"@ {
        Some(Atom::I64)
    } else if name == "isize"@ {
        Some(Atom::Isize)
    } else if name == "f32"@ {
        Some(Atom::F32)
    } else if name == "f64"@ {
        Some(Atom::F64)
    } else if name == "NativeString"@ {
        Some(Atom::NativeString)
    } else if name == "String"@ {
        Some(Atom::ManagedString)
    } else {
        None
    }
}

/// An identifier resolves against the atom registry.
pub open spec fn is_atom_name(name: Seq<char>) -> bool {
    spec_atom_of(name) is Some
}

/// String equality over the character sequences of two string slices.
pub fn str_eql(a: &str, b: &str) -> (r: bool)
    ensures
        r == (a@ == b@),
{
    let s1: String = a.to_owned();
    let s2: String = b.to_owned();
    s1 == s2
}

/// Identifier-to-atom lookup over the closed enumeration.
pub fn atom_of(name: &str) -> (r: Option<Atom>)
    ensures
        r == spec_atom_of(name@),
{
    if str_eql(name, "bool") {
        Some(Atom::Bool)
    } else if str_eql(name, "u8") {
        Some(Atom::U8)
    } else if str_eql(name, "u16") {
        Some(Atom::U16)
    } else if str_eql(name, "u32") {
        Some(Atom::U32)
    } else if str_eql(name, "u64") {
        Some(Atom::U64)
    } else if str_eql(name, "usize") {
        Some(Atom::Usize)
    } else if str_eql(name, "i8") {
        Some(Atom::I8)
    } else if str_eql(name, "i16") {
        Some(Atom::I16)
    } else if str_eql(name, "i32") {
        Some(Atom::I32)
    } else if str_eql(name, "i64") {
        Some(Atom::I64)
    } else if str_eql(name, "isize") {
        Some(Atom::Isize)
    } else if str_eql(name, "f32") {
        Some(Atom::F32)
    } else if str_eql(name, "f64") {
        Some(Atom::F64)
    } else if str_eql(name, "NativeString") {
        Some(Atom::NativeString)
    } else if str_eql(name, "String") {
        Some(Atom::ManagedString)
    } else {
        None
    }
}

} // verus!

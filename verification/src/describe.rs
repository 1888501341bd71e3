//! The type describer: renders a type to the short phrase used in
//! diagnostic messages.  It consults the registry but produces no
//! diagnostics itself.

use vstd::prelude::*;
use vstd::string::StringExecFns;
use crate::ast::{contains_name, Side, Type, Types};
use crate::atoms::{atom_of, spec_atom_of, Atom};

verus! {

/// The phrase [`describe`] renders for a type.  For a named type the
/// registry is consulted in order — struct, opaque native, opaque managed,
/// then the native string atom — and any other name is rendered verbatim.
pub open spec fn spec_describe(ty: Type, types: Types) -> Seq<char> {
    match ty {
        Type::Ident(name) => if types.is_struct(name@) {
            "struct"@
        } else if types.is_native(name@) {
            "native opaque type"@
        } else if types.is_managed(name@) {
            "managed opaque type"@
        } else if spec_atom_of(name@) == Some(Atom::NativeString) {
            "native string"@
        } else {
            name@
        },
        Type::OwningPointer { side, inner } => match side {
            Side::Managed => "managed owning pointer"@,
            Side::Native => "native owning pointer"@,
        },
        Type::Reference { mutable, inner } => "reference"@,
        Type::BorrowedText => "borrowed text"@,
        Type::FunctionPointer => "function pointer"@,
        Type::Unit => "unit"@,
    }
}

/// Renders a type to the short descriptive phrase used in diagnostics.
pub fn describe(ty: &Type, types: &Types) -> (r: String)
    ensures
        r@ == spec_describe(*ty, *types),
{
    match ty {
        Type::Ident(name) => {
            if contains_name(&types.structs, name.as_str()) {
                "struct".to_owned()
            } else if contains_name(&types.native, name.as_str()) {
                "native opaque type".to_owned()
            } else if contains_name(&types.managed, name.as_str()) {
                "managed opaque type".to_owned()
            } else {
                let is_native_string: bool = match atom_of(name.as_str()) {
                    Some(Atom::NativeString) => true,
                    _ => false,
                };
                if is_native_string {
                    "native string".to_owned()
                } else {
                    name.clone()
                }
            }
        },
        Type::OwningPointer { side, inner } => match side {
            Side::Managed => "managed owning pointer".to_owned(),
            Side::Native => "native owning pointer".to_owned(),
        },
        Type::Reference { mutable, inner } => "reference".to_owned(),
        Type::BorrowedText => "borrowed text".to_owned(),
        Type::FunctionPointer => "function pointer".to_owned(),
        Type::Unit => "unit".to_owned(),
    }
}

} // verus!

use bridge_validator::ast::{FnDecl, Item, Side, StructDef, Type, TypeUse, Types, Var};
use bridge_validator::check::typecheck;
use bridge_validator::diag::{CombinedError, DiagKind, Diagnostic};

fn ident(name: &str) -> Type {
    Type::Ident(name.to_string())
}

fn owning(side: Side, inner: Type) -> Type {
    Type::OwningPointer { side, inner: Box::new(inner) }
}

fn reference(mutable: bool, inner: Type) -> Type {
    Type::Reference { mutable, inner: Box::new(inner) }
}

fn use_of(ty: Type, pos: usize) -> TypeUse {
    TypeUse { ty, pos }
}

fn var(name: &str, ty: Type, pos: usize) -> Var {
    Var { name: name.to_string(), ty, pos }
}

fn registry(structs: &[&str], native: &[&str], managed: &[&str], all: Vec<TypeUse>) -> Types {
    Types {
        structs: structs.iter().map(|s| s.to_string()).collect(),
        native: native.iter().map(|s| s.to_string()).collect(),
        managed: managed.iter().map(|s| s.to_string()).collect(),
        all,
    }
}

fn fn_item(name: &str, args: Vec<Var>, ret: Option<Type>, ret_pos: usize, pos: usize) -> FnDecl {
    FnDecl { name: name.to_string(), args, ret, ret_pos, pos }
}

fn expect_err(r: Result<(), CombinedError>) -> CombinedError {
    match r {
        Ok(()) => panic!("expected a combined failure, got success"),
        Err(e) => e,
    }
}

#[test]
fn empty_struct_fails() {
    let items = vec![Item::Struct(StructDef {
        name: "Empty".to_string(),
        fields: Vec::new(),
        pos: 3,
    })];
    let types = registry(&["Empty"], &[], &[], Vec::new());
    let e = expect_err(typecheck(&items, &types, Vec::new()));
    assert_eq!(e.len(), 1);
    assert_eq!(e.diags[0].kind, DiagKind::EmptyStruct);
    assert_eq!(e.diags[0].pos, 3);
    assert_eq!(
        e.diags[0].message(),
        "structs without any fields are not supported"
    );
}

#[test]
fn unsized_native_argument_fails() {
    let items = vec![Item::NativeFunction(fn_item(
        "f",
        vec![var("x", ident("OpaqueNative"), 7)],
        None,
        0,
        6,
    ))];
    let types = registry(
        &[],
        &["OpaqueNative"],
        &[],
        vec![use_of(ident("OpaqueNative"), 5)],
    );
    let e = expect_err(typecheck(&items, &types, Vec::new()));
    assert_eq!(e.len(), 1);
    assert_eq!(e.diags[0].kind, DiagKind::ByValueUnsized);
    assert_eq!(e.diags[0].pos, 7);
    assert_eq!(e.diags[0].desc, "native opaque type");
    assert_eq!(
        e.diags[0].message(),
        "using native opaque type by value is not supported"
    );
}

#[test]
fn mutable_return_without_mutable_argument_fails() {
    // g() -> &mut i32: violates the mutable-return rule, and also the
    // reference-arity rule since it takes no reference argument.
    let items = vec![Item::NativeFunction(fn_item(
        "g",
        Vec::new(),
        Some(reference(true, ident("i32"))),
        2,
        1,
    ))];
    let types = registry(
        &[],
        &[],
        &[],
        vec![
            use_of(reference(true, ident("i32")), 2),
            use_of(ident("i32"), 2),
        ],
    );
    let e = expect_err(typecheck(&items, &types, Vec::new()));
    assert_eq!(e.len(), 2);
    assert_eq!(e.diags[0].kind, DiagKind::MutableReturnWithoutMutableArgument);
    assert_eq!(e.diags[0].pos, 1);
    assert_eq!(e.diags[1].kind, DiagKind::AmbiguousReferenceReturnArity);
    assert_eq!(
        e.diags[0].message(),
        "a mutable reference return type is not allowed unless there is a mutable reference argument"
    );
}

#[test]
fn ambiguous_reference_return_fails() {
    // h(a: &i32, b: &i32) -> &i32: two reference arguments.
    let items = vec![Item::NativeFunction(fn_item(
        "h",
        vec![
            var("a", reference(false, ident("i32")), 11),
            var("b", reference(false, ident("i32")), 12),
        ],
        Some(reference(false, ident("i32"))),
        13,
        10,
    ))];
    let types = registry(
        &[],
        &[],
        &[],
        vec![
            use_of(reference(false, ident("i32")), 11),
            use_of(ident("i32"), 11),
            use_of(reference(false, ident("i32")), 12),
            use_of(ident("i32"), 12),
            use_of(reference(false, ident("i32")), 13),
            use_of(ident("i32"), 13),
        ],
    );
    let e = expect_err(typecheck(&items, &types, Vec::new()));
    assert_eq!(e.len(), 1);
    assert_eq!(e.diags[0].kind, DiagKind::AmbiguousReferenceReturnArity);
    assert_eq!(e.diags[0].pos, 10);
    assert_eq!(
        e.diags[0].message(),
        "functions that return a reference must take exactly one reference argument"
    );
}

#[test]
fn native_boxed_in_managed_pointer_fails() {
    // A struct field of type "managed owning pointer to OpaqueNative":
    // exactly one diagnostic, the dedicated one.
    let items = vec![Item::Struct(StructDef {
        name: "S".to_string(),
        fields: vec![var("p", owning(Side::Managed, ident("OpaqueNative")), 4)],
        pos: 3,
    })];
    let types = registry(
        &["S"],
        &["OpaqueNative"],
        &[],
        vec![
            use_of(owning(Side::Managed, ident("OpaqueNative")), 4),
            use_of(ident("OpaqueNative"), 5),
        ],
    );
    let e = expect_err(typecheck(&items, &types, Vec::new()));
    assert_eq!(e.len(), 1);
    assert_eq!(e.diags[0].kind, DiagKind::NativeTypeBoxedError);
    assert_eq!(e.diags[0].pos, 4);
}

#[test]
fn valid_surface_passes() {
    // struct Shared { z: i32 } and a function returning Shared by value.
    let items = vec![
        Item::Struct(StructDef {
            name: "Shared".to_string(),
            fields: vec![var("z", ident("i32"), 2)],
            pos: 1,
        }),
        Item::NativeFunction(fn_item(
            "get_shared",
            Vec::new(),
            Some(ident("Shared")),
            8,
            7,
        )),
    ];
    let types = registry(
        &["Shared"],
        &[],
        &[],
        vec![use_of(ident("i32"), 2), use_of(ident("Shared"), 8)],
    );
    assert!(typecheck(&items, &types, Vec::new()).is_ok());
}

#[test]
fn unresolved_identifier_fails() {
    let items = vec![Item::NativeFunction(fn_item(
        "f",
        vec![var("x", ident("Mystery"), 21)],
        None,
        0,
        20,
    ))];
    let types = registry(&[], &[], &[], vec![use_of(ident("Mystery"), 21)]);
    let e = expect_err(typecheck(&items, &types, Vec::new()));
    assert_eq!(e.len(), 1);
    assert_eq!(e.diags[0].kind, DiagKind::UnresolvedIdentifier);
    assert_eq!(e.diags[0].desc, "Mystery");
    assert_eq!(e.diags[0].pos, 21);
    assert_eq!(e.diags[0].message(), "unsupported type: Mystery");
}

#[test]
fn managed_pointer_to_atom_fails() {
    let types = registry(
        &[],
        &[],
        &[],
        vec![
            use_of(owning(Side::Managed, ident("i32")), 30),
            use_of(ident("i32"), 31),
        ],
    );
    let e = expect_err(typecheck(&Vec::new(), &types, Vec::new()));
    assert_eq!(e.len(), 1);
    assert_eq!(e.diags[0].kind, DiagKind::UnsupportedManagedOwningTarget);
    assert_eq!(e.diags[0].pos, 30);
}

#[test]
fn managed_pointer_to_struct_or_managed_passes() {
    let types = registry(
        &["S"],
        &[],
        &["MngType"],
        vec![
            use_of(owning(Side::Managed, ident("S")), 1),
            use_of(ident("S"), 2),
            use_of(owning(Side::Managed, ident("MngType")), 3),
            use_of(ident("MngType"), 4),
        ],
    );
    assert!(typecheck(&Vec::new(), &types, Vec::new()).is_ok());
}

#[test]
fn native_pointer_to_managed_fails_once() {
    let types = registry(
        &[],
        &[],
        &["MngType"],
        vec![
            use_of(owning(Side::Native, ident("MngType")), 40),
            use_of(ident("MngType"), 41),
        ],
    );
    let e = expect_err(typecheck(&Vec::new(), &types, Vec::new()));
    assert_eq!(e.len(), 1);
    assert_eq!(e.diags[0].kind, DiagKind::ManagedTypeInNativePointer);
    assert_eq!(e.diags[0].pos, 40);
}

#[test]
fn native_pointer_to_non_string_atom_fails() {
    let types = registry(
        &[],
        &[],
        &[],
        vec![
            use_of(owning(Side::Native, ident("u8")), 50),
            use_of(ident("u8"), 51),
        ],
    );
    let e = expect_err(typecheck(&Vec::new(), &types, Vec::new()));
    assert_eq!(e.len(), 1);
    assert_eq!(e.diags[0].kind, DiagKind::UnsupportedNativeOwningTarget);
    assert_eq!(e.diags[0].pos, 50);
}

#[test]
fn native_pointer_to_native_string_or_struct_passes() {
    let types = registry(
        &["S"],
        &["NatType"],
        &[],
        vec![
            use_of(owning(Side::Native, ident("NativeString")), 1),
            use_of(ident("NativeString"), 2),
            use_of(owning(Side::Native, ident("S")), 3),
            use_of(ident("S"), 4),
            use_of(owning(Side::Native, ident("NatType")), 5),
            use_of(ident("NatType"), 6),
        ],
    );
    assert!(typecheck(&Vec::new(), &types, Vec::new()).is_ok());
}

#[test]
fn owning_pointer_to_non_named_type_fails() {
    let types = registry(
        &[],
        &[],
        &[],
        vec![
            use_of(owning(Side::Managed, reference(false, ident("i32"))), 60),
            use_of(reference(false, ident("i32")), 61),
            use_of(ident("i32"), 62),
            use_of(owning(Side::Native, Type::Unit), 63),
            use_of(Type::Unit, 64),
        ],
    );
    let e = expect_err(typecheck(&Vec::new(), &types, Vec::new()));
    assert_eq!(e.len(), 2);
    assert_eq!(e.diags[0].kind, DiagKind::UnsupportedOwningPointerShape);
    assert_eq!(e.diags[0].pos, 60);
    assert_eq!(e.diags[1].kind, DiagKind::UnsupportedOwningPointerShape);
    assert_eq!(e.diags[1].pos, 63);
}

#[test]
fn reference_to_unit_fails() {
    let types = registry(
        &[],
        &[],
        &[],
        vec![use_of(reference(false, Type::Unit), 70), use_of(Type::Unit, 71)],
    );
    let e = expect_err(typecheck(&Vec::new(), &types, Vec::new()));
    assert_eq!(e.len(), 1);
    assert_eq!(e.diags[0].kind, DiagKind::UnsupportedReferenceToUnit);
    assert_eq!(e.diags[0].message(), "unsupported reference type");
}

#[test]
fn function_pointer_fails() {
    let types = registry(&[], &[], &[], vec![use_of(Type::FunctionPointer, 80)]);
    let e = expect_err(typecheck(&Vec::new(), &types, Vec::new()));
    assert_eq!(e.len(), 1);
    assert_eq!(e.diags[0].kind, DiagKind::UnimplementedFunctionPointer);
    assert_eq!(
        e.diags[0].message(),
        "function pointer support is not implemented"
    );
}

#[test]
fn unsized_return_fails() {
    let items = vec![Item::ManagedFunction(fn_item(
        "text",
        Vec::new(),
        Some(ident("NativeString")),
        9,
        8,
    ))];
    let types = registry(&[], &[], &[], vec![use_of(ident("NativeString"), 9)]);
    let e = expect_err(typecheck(&items, &types, Vec::new()));
    assert_eq!(e.len(), 1);
    assert_eq!(e.diags[0].kind, DiagKind::ByValueUnsized);
    assert_eq!(e.diags[0].desc, "native string");
    assert_eq!(e.diags[0].pos, 9);
}

#[test]
fn unsized_field_fails() {
    let items = vec![Item::Struct(StructDef {
        name: "Holder".to_string(),
        fields: vec![var("m", ident("MngType"), 91)],
        pos: 90,
    })];
    let types = registry(
        &["Holder"],
        &[],
        &["MngType"],
        vec![use_of(ident("MngType"), 91)],
    );
    let e = expect_err(typecheck(&items, &types, Vec::new()));
    assert_eq!(e.len(), 1);
    assert_eq!(e.diags[0].kind, DiagKind::ByValueUnsized);
    assert_eq!(e.diags[0].desc, "managed opaque type");
    assert_eq!(
        e.diags[0].message(),
        "using managed opaque type by value is not supported"
    );
}

#[test]
fn mutable_argument_satisfies_mutable_return() {
    // f(a: &mut i32) -> &mut i32: passes both signature rules.
    let items = vec![Item::NativeFunction(fn_item(
        "f",
        vec![var("a", reference(true, ident("i32")), 2)],
        Some(reference(true, ident("i32"))),
        3,
        1,
    ))];
    let types = registry(
        &[],
        &[],
        &[],
        vec![
            use_of(reference(true, ident("i32")), 2),
            use_of(ident("i32"), 2),
            use_of(reference(true, ident("i32")), 3),
            use_of(ident("i32"), 3),
        ],
    );
    assert!(typecheck(&items, &types, Vec::new()).is_ok());
}

#[test]
fn single_immutable_reference_satisfies_arity_only() {
    // f(a: &i32) -> &mut i32: the arity rule passes with one reference
    // argument of either mutability, the mutable-return rule still fails.
    let items = vec![Item::NativeFunction(fn_item(
        "f",
        vec![var("a", reference(false, ident("i32")), 2)],
        Some(reference(true, ident("i32"))),
        3,
        1,
    ))];
    let types = registry(
        &[],
        &[],
        &[],
        vec![
            use_of(reference(false, ident("i32")), 2),
            use_of(ident("i32"), 2),
            use_of(reference(true, ident("i32")), 3),
            use_of(ident("i32"), 3),
        ],
    );
    let e = expect_err(typecheck(&items, &types, Vec::new()));
    assert_eq!(e.len(), 1);
    assert_eq!(e.diags[0].kind, DiagKind::MutableReturnWithoutMutableArgument);
}

#[test]
fn managed_function_exempt_from_mutable_return_rule() {
    // A managed-callable g() -> &mut i32 is checked for arity only.
    let items = vec![Item::ManagedFunction(fn_item(
        "g",
        Vec::new(),
        Some(reference(true, ident("i32"))),
        2,
        1,
    ))];
    let types = registry(
        &[],
        &[],
        &[],
        vec![
            use_of(reference(true, ident("i32")), 2),
            use_of(ident("i32"), 2),
        ],
    );
    let e = expect_err(typecheck(&items, &types, Vec::new()));
    assert_eq!(e.len(), 1);
    assert_eq!(e.diags[0].kind, DiagKind::AmbiguousReferenceReturnArity);
}

#[test]
fn borrowed_text_passes_by_value() {
    let items = vec![Item::NativeFunction(fn_item(
        "take_text",
        vec![var("t", Type::BorrowedText, 2)],
        None,
        0,
        1,
    ))];
    let types = registry(&[], &[], &[], vec![use_of(Type::BorrowedText, 2)]);
    assert!(typecheck(&items, &types, Vec::new()).is_ok());
}

#[test]
fn diagnostics_in_declaration_order() {
    // One unresolved occurrence, one empty struct, one bad signature: the
    // combined failure holds exactly the independent violations, pass by
    // pass, in declaration order.
    let items = vec![
        Item::Struct(StructDef {
            name: "Empty".to_string(),
            fields: Vec::new(),
            pos: 2,
        }),
        Item::NativeFunction(fn_item(
            "g",
            Vec::new(),
            Some(reference(true, ident("i32"))),
            5,
            4,
        )),
    ];
    let types = registry(
        &["Empty"],
        &[],
        &[],
        vec![
            use_of(ident("Mystery"), 1),
            use_of(reference(true, ident("i32")), 5),
            use_of(ident("i32"), 5),
        ],
    );
    let e = expect_err(typecheck(&items, &types, Vec::new()));
    assert_eq!(e.len(), 4);
    assert_eq!(e.diags[0].kind, DiagKind::UnresolvedIdentifier);
    assert_eq!(e.diags[0].pos, 1);
    assert_eq!(e.diags[1].kind, DiagKind::EmptyStruct);
    assert_eq!(e.diags[1].pos, 2);
    assert_eq!(e.diags[2].kind, DiagKind::MutableReturnWithoutMutableArgument);
    assert_eq!(e.diags[2].pos, 4);
    assert_eq!(e.diags[3].kind, DiagKind::AmbiguousReferenceReturnArity);
    assert_eq!(e.diags[3].pos, 4);
}

#[test]
fn cross_reference_diagnostics_merge_last() {
    let items = vec![Item::Struct(StructDef {
        name: "Empty".to_string(),
        fields: Vec::new(),
        pos: 2,
    })];
    let types = registry(&["Empty"], &[], &[], Vec::new());
    let external = vec![Diagnostic {
        kind: DiagKind::IdentifierCollision,
        desc: "two items named `f`".to_string(),
        pos: 12,
    }];
    let e = expect_err(typecheck(&items, &types, external));
    assert_eq!(e.len(), 2);
    assert_eq!(e.diags[0].kind, DiagKind::EmptyStruct);
    assert_eq!(e.diags[1].kind, DiagKind::IdentifierCollision);
    assert_eq!(e.diags[1].pos, 12);
    assert_eq!(e.diags[1].message(), "two items named `f`");
}

#[test]
fn cross_reference_alone_fails() {
    let types = registry(&[], &[], &[], Vec::new());
    let external = vec![Diagnostic {
        kind: DiagKind::IdentifierCollision,
        desc: "colliding declaration".to_string(),
        pos: 7,
    }];
    let e = expect_err(typecheck(&Vec::new(), &types, external));
    assert_eq!(e.len(), 1);
    assert_eq!(e.get(0).message(), "colliding declaration");
}

#[test]
fn empty_surface_passes() {
    let types = registry(&[], &[], &[], Vec::new());
    assert!(typecheck(&Vec::new(), &types, Vec::new()).is_ok());
}

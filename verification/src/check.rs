//! The validation passes: type well-formedness, sizedness of fields,
//! arguments and returns, and per-function signature constraints, followed
//! by the merge of the external identifier checker's diagnostics.
//!
//! Each pass has a spec function giving, in declaration order, exactly the
//! diagnostics it produces; [`typecheck`] is proved to return success
//! exactly when no pass produced any diagnostic, and otherwise the combined
//! failure holding every produced diagnostic in order.

use vstd::prelude::*;
use vstd::seq_lib::lemma_flatten_concat;
use crate::ast::{contains_name, FnDecl, Item, Side, StructDef, Type, TypeUse, Types, Var};
use crate::atoms::{atom_of, is_atom_name, spec_atom_of, Atom};
use crate::describe::{describe, spec_describe};
use crate::diag::{
    aggregate, diag_views, lemma_diag_views_concat, lemma_diag_views_push, CombinedError,
    DiagKind, DiagView, Diagnostic,
};

verus! {

/// A diagnostic view whose message template takes no parameter.
pub open spec fn fixed(k: DiagKind, pos: int) -> DiagView {
    DiagView { kind: k, desc: Seq::<char>::empty(), pos }
}

// ------------------------------------------------------------------
// Pass 1: type well-formedness
// ------------------------------------------------------------------

/// The diagnostics of the well-formedness rule for a managed owning
/// pointer, by its target type.  An opaque native target gets the dedicated
/// diagnostic; an atom target is unsupported; a struct, opaque managed, or
/// still-unresolved name is accepted (the latter is caught by the identifier
/// rule at its own occurrence); a non-named target is rejected.
pub open spec fn managed_pointer_diag(inner: Type, pos: int, types: Types) -> Seq<DiagView> {
    match inner {
        Type::Ident(name) => if types.is_native(name@) {
            seq![fixed(DiagKind::NativeTypeBoxedError, pos)]
        } else if is_atom_name(name@) {
            seq![fixed(DiagKind::UnsupportedManagedOwningTarget, pos)]
        } else {
            Seq::empty()
        },
        _ => seq![fixed(DiagKind::UnsupportedOwningPointerShape, pos)],
    }
}

/// The diagnostics of the well-formedness rule for a native owning pointer,
/// by its target type.  An opaque managed target gets the dedicated
/// diagnostic and suppresses the atom rule for this occurrence; an atom
/// other than the native string is unsupported; the native string, opaque
/// native types, structs and still-unresolved names are accepted; a
/// non-named target is rejected.
pub open spec fn native_pointer_diag(inner: Type, pos: int, types: Types) -> Seq<DiagView> {
    match inner {
        Type::Ident(name) => if types.is_managed(name@) {
            seq![fixed(DiagKind::ManagedTypeInNativePointer, pos)]
        } else {
            match spec_atom_of(name@) {
                Some(a) => if a == Atom::NativeString {
                    Seq::empty()
                } else {
                    seq![fixed(DiagKind::UnsupportedNativeOwningTarget, pos)]
                },
                None => Seq::empty(),
            }
        },
        _ => seq![fixed(DiagKind::UnsupportedOwningPointerShape, pos)],
    }
}

/// The diagnostics the well-formedness pass emits for one type occurrence:
/// at most one per occurrence.
pub open spec fn wf_diag(ty: Type, pos: int, types: Types) -> Seq<DiagView> {
    match ty {
        Type::Ident(name) => if !types.resolves(name@) {
            seq![DiagView { kind: DiagKind::UnresolvedIdentifier, desc: name@, pos }]
        } else {
            Seq::empty()
        },
        Type::OwningPointer { side: Side::Managed, inner } => managed_pointer_diag(
            *inner,
            pos,
            types,
        ),
        Type::OwningPointer { side: Side::Native, inner } => native_pointer_diag(
            *inner,
            pos,
            types,
        ),
        Type::Reference { mutable, inner } => match *inner {
            Type::Unit => seq![fixed(DiagKind::UnsupportedReferenceToUnit, pos)],
            _ => Seq::empty(),
        },
        Type::FunctionPointer => seq![fixed(DiagKind::UnimplementedFunctionPointer, pos)],
        Type::BorrowedText => Seq::empty(),
        Type::Unit => Seq::empty(),
    }
}

/// The per-occurrence diagnostic function of the well-formedness pass.
pub open spec fn wf_f(types: Types) -> spec_fn(TypeUse) -> Seq<DiagView> {
    |u: TypeUse| wf_diag(u.ty, u.pos as int, types)
}

/// All diagnostics of the well-formedness pass, in occurrence order.
pub open spec fn wf_diags(uses: Seq<TypeUse>, types: Types) -> Seq<DiagView> {
    uses.flat_map(wf_f(types))
}

// ------------------------------------------------------------------
// Pass 2: sizedness
// ------------------------------------------------------------------

/// A type that cannot be the subject of a by-value field, argument or
/// return: the empty type, the native string atom, or an opaque type of
/// either side.  Sizedness looks only at the immediate type node: any
/// indirection (reference, owning pointer, borrowed text) is sized.
pub open spec fn spec_is_unsized(ty: Type, types: Types) -> bool {
    match ty {
        Type::Unit => true,
        Type::Ident(name) => spec_atom_of(name@) == Some(Atom::NativeString) || types.is_native(
            name@,
        ) || types.is_managed(name@),
        _ => false,
    }
}

/// The diagnostics of the sizedness rule for one field or argument.
pub open spec fn by_value_diag_of(v: Var, types: Types) -> Seq<DiagView> {
    if spec_is_unsized(v.ty, types) {
        seq![
            DiagView {
                kind: DiagKind::ByValueUnsized,
                desc: spec_describe(v.ty, types),
                pos: v.pos as int,
            },
        ]
    } else {
        Seq::empty()
    }
}

/// The per-slot diagnostic function of the sizedness pass.
pub open spec fn by_value_f(types: Types) -> spec_fn(Var) -> Seq<DiagView> {
    |v: Var| by_value_diag_of(v, types)
}

/// The sizedness diagnostics over a field or argument list, in order.
pub open spec fn by_value_diags(vars: Seq<Var>, types: Types) -> Seq<DiagView> {
    vars.flat_map(by_value_f(types))
}

/// The sizedness diagnostics of a struct: the empty-struct diagnostic if it
/// has no fields, then one by-value diagnostic per unsized field.
pub open spec fn struct_sizedness_diags(s: StructDef, types: Types) -> Seq<DiagView> {
    (if s.fields@.len() == 0 {
        seq![fixed(DiagKind::EmptyStruct, s.pos as int)]
    } else {
        Seq::<DiagView>::empty()
    }) + by_value_diags(s.fields@, types)
}

/// The sizedness diagnostic of a function's return type, if any.
pub open spec fn ret_diags(f: FnDecl, types: Types) -> Seq<DiagView> {
    match f.ret {
        Some(t) => if spec_is_unsized(t, types) {
            seq![
                DiagView {
                    kind: DiagKind::ByValueUnsized,
                    desc: spec_describe(t, types),
                    pos: f.ret_pos as int,
                },
            ]
        } else {
            Seq::empty()
        },
        None => Seq::empty(),
    }
}

/// The sizedness diagnostics of a function: arguments in order, then the
/// return type.
pub open spec fn fn_sizedness_diags(f: FnDecl, types: Types) -> Seq<DiagView> {
    by_value_diags(f.args@, types) + ret_diags(f, types)
}

/// The sizedness diagnostics of one item.
pub open spec fn sizedness_item_diags(item: Item, types: Types) -> Seq<DiagView> {
    match item {
        Item::Struct(s) => struct_sizedness_diags(s, types),
        Item::NativeFunction(f) => fn_sizedness_diags(f, types),
        Item::ManagedFunction(f) => fn_sizedness_diags(f, types),
    }
}

/// The per-item diagnostic function of the sizedness pass.
pub open spec fn sizedness_f(types: Types) -> spec_fn(Item) -> Seq<DiagView> {
    |it: Item| sizedness_item_diags(it, types)
}

/// All diagnostics of the sizedness pass, in declaration order.
pub open spec fn sizedness_diags(items: Seq<Item>, types: Types) -> Seq<DiagView> {
    items.flat_map(sizedness_f(types))
}

// ------------------------------------------------------------------
// Pass 3: signature constraints
// ------------------------------------------------------------------

/// The type is a mutable reference.
pub open spec fn is_mut_ref(t: Type) -> bool {
    match t {
        Type::Reference { mutable, inner } => mutable,
        _ => false,
    }
}

/// The type is a reference of either mutability.
pub open spec fn is_ref_ty(t: Type) -> bool {
    match t {
        Type::Reference { mutable, inner } => true,
        _ => false,
    }
}

/// The function returns a mutable reference.
pub open spec fn returns_mut_ref(f: FnDecl) -> bool {
    match f.ret {
        Some(t) => is_mut_ref(t),
        None => false,
    }
}

/// The function returns a reference of either mutability.
pub open spec fn returns_ref(f: FnDecl) -> bool {
    match f.ret {
        Some(t) => is_ref_ty(t),
        None => false,
    }
}

/// Some argument is a mutable reference.
pub open spec fn has_mut_ref_arg(args: Seq<Var>) -> bool {
    exists|i: int| 0 <= i < args.len() && is_mut_ref(args[i].ty)
}

/// How many arguments are references, of either mutability.
pub open spec fn ref_arg_count(args: Seq<Var>) -> int
    decreases args.len(),
{
    if args.len() == 0 {
        0
    } else {
        (if is_ref_ty(args[0].ty) {
            1int
        } else {
            0int
        }) + ref_arg_count(args.drop_first())
    }
}

/// The mutable-return rule: a mutable reference may be returned only when
/// some argument is a mutable reference.
pub open spec fn mut_return_diags(f: FnDecl) -> Seq<DiagView> {
    if returns_mut_ref(f) && !has_mut_ref_arg(f.args@) {
        seq![fixed(DiagKind::MutableReturnWithoutMutableArgument, f.pos as int)]
    } else {
        Seq::empty()
    }
}

/// The reference-arity rule: a function returning any reference must take
/// exactly one reference argument, of either mutability.
pub open spec fn ref_arity_diags(f: FnDecl) -> Seq<DiagView> {
    if returns_ref(f) && ref_arg_count(f.args@) != 1 {
        seq![fixed(DiagKind::AmbiguousReferenceReturnArity, f.pos as int)]
    } else {
        Seq::empty()
    }
}

/// The signature diagnostics of one item: the mutable-return rule applies
/// to native-callable functions only, the arity rule to both directions.
pub open spec fn sig_item_diags(item: Item) -> Seq<DiagView> {
    match item {
        Item::Struct(s) => Seq::empty(),
        Item::NativeFunction(f) => mut_return_diags(f) + ref_arity_diags(f),
        Item::ManagedFunction(f) => ref_arity_diags(f),
    }
}

/// The per-item diagnostic function of the signature pass.
pub open spec fn sig_f() -> spec_fn(Item) -> Seq<DiagView> {
    |it: Item| sig_item_diags(it)
}

/// All diagnostics of the signature pass, in declaration order.
pub open spec fn signature_diags(items: Seq<Item>) -> Seq<DiagView> {
    items.flat_map(sig_f())
}

/// Everything the three internal passes produce, in pass order.
pub open spec fn all_internal_diags(items: Seq<Item>, types: Types) -> Seq<DiagView> {
    wf_diags(types.all@, types) + sizedness_diags(items, types) + signature_diags(items)
}

// ------------------------------------------------------------------
// Sequence lemmas shared by the passes and the laws
// ------------------------------------------------------------------

/// `flat_map` over the empty sequence is empty.
pub proof fn lemma_flat_map_empty<A, B>(f: spec_fn(A) -> Seq<B>)
    ensures
        Seq::<A>::empty().flat_map(f) == Seq::<B>::empty(),
{
    assert(Seq::<A>::empty().map_values(f) =~= Seq::<Seq<B>>::empty());
    assert(Seq::<A>::empty().flat_map(f) =~= Seq::<B>::empty());
}

/// An element contained in either operand is contained in the
/// concatenation.
pub proof fn lemma_concat_contains<B>(a: Seq<B>, b: Seq<B>, x: B)
    requires
        a.contains(x) || b.contains(x),
    ensures
        (a + b).contains(x),
{
    if a.contains(x) {
        let i = choose|i: int| 0 <= i < a.len() && a[i] == x;
        assert((a + b)[i] == x);
    } else {
        let i = choose|i: int| 0 <= i < b.len() && b[i] == x;
        assert((a + b)[a.len() + i] == x);
    }
}

/// `flat_map` splits around any index.
pub proof fn lemma_flat_map_split<A, B>(s: Seq<A>, f: spec_fn(A) -> Seq<B>, i: int)
    requires
        0 <= i <= s.len(),
    ensures
        s.flat_map(f) == s.take(i).flat_map(f) + s.skip(i).flat_map(f),
{
    assert(s.take(i).map_values(f) + s.skip(i).map_values(f) =~= s.map_values(f));
    lemma_flatten_concat(s.take(i).map_values(f), s.skip(i).map_values(f));
    assert(s.flat_map(f) =~= s.take(i).flat_map(f) + s.skip(i).flat_map(f));
}

/// Whatever `f` emits for an element of `s` is contained in
/// `s.flat_map(f)`.
pub proof fn lemma_flat_map_elem<A, B>(s: Seq<A>, f: spec_fn(A) -> Seq<B>, i: int, x: B)
    requires
        0 <= i < s.len(),
        f(s[i]).contains(x),
    ensures
        s.flat_map(f).contains(x),
{
    lemma_flat_map_split(s, f, i + 1);
    s.lemma_flat_map_take_append(f, i);
    lemma_concat_contains(s.take(i).flat_map(f), f(s[i]), x);
    assert(s.take(i + 1).flat_map(f).contains(x));
    lemma_concat_contains(s.take(i + 1).flat_map(f), s.skip(i + 1).flat_map(f), x);
}

// ------------------------------------------------------------------
// Executable passes
// ------------------------------------------------------------------

/// A one-element diagnostic list.
fn single_diag(d: Diagnostic) -> (r: Vec<Diagnostic>)
    ensures
        r@ == seq![d],
        diag_views(r@) == seq![d@],
{
    let mut v: Vec<Diagnostic> = Vec::new();
    v.push(d);
    proof {
        assert(v@ =~= seq![d]);
        assert(diag_views(v@) =~= seq![d@]);
    }
    v
}

/// Resolution of a name against atoms, structs, and the opaque types of
/// both sides.
fn resolves_name(types: &Types, name: &str) -> (r: bool)
    ensures
        r == types.resolves(name@),
{
    atom_of(name).is_some() || contains_name(&types.structs, name) || contains_name(
        &types.native,
        name,
    ) || contains_name(&types.managed, name)
}

/// The well-formedness check of one type occurrence.
fn check_type_use(u: &TypeUse, types: &Types) -> (r: Vec<Diagnostic>)
    ensures
        diag_views(r@) == wf_diag(u.ty, u.pos as int, *types),
{
    proof {
        lemma_flat_map_empty::<Diagnostic, DiagView>(|d: Diagnostic| seq![d@]);
        assert(diag_views(Seq::<Diagnostic>::empty()) =~= Seq::<DiagView>::empty());
    }
    match &u.ty {
        Type::Ident(name) => {
            if !resolves_name(types, name.as_str()) {
                single_diag(
                    Diagnostic {
                        kind: DiagKind::UnresolvedIdentifier,
                        desc: name.clone(),
                        pos: u.pos,
                    },
                )
            } else {
                Vec::new()
            }
        },
        Type::OwningPointer { side, inner } => match side {
            Side::Managed => match &**inner {
                Type::Ident(name) => {
                    if contains_name(&types.native, name.as_str()) {
                        single_diag(
                            Diagnostic {
                                kind: DiagKind::NativeTypeBoxedError,
                                desc: String::new(),
                                pos: u.pos,
                            },
                        )
                    } else if atom_of(name.as_str()).is_some() {
                        single_diag(
                            Diagnostic {
                                kind: DiagKind::UnsupportedManagedOwningTarget,
                                desc: String::new(),
                                pos: u.pos,
                            },
                        )
                    } else {
                        Vec::new()
                    }
                },
                _ => single_diag(
                    Diagnostic {
                        kind: DiagKind::UnsupportedOwningPointerShape,
                        desc: String::new(),
                        pos: u.pos,
                    },
                ),
            },
            Side::Native => match &**inner {
                Type::Ident(name) => {
                    if contains_name(&types.managed, name.as_str()) {
                        single_diag(
                            Diagnostic {
                                kind: DiagKind::ManagedTypeInNativePointer,
                                desc: String::new(),
                                pos: u.pos,
                            },
                        )
                    } else {
                        match atom_of(name.as_str()) {
                            Some(a) => {
                                if a == Atom::NativeString {
                                    Vec::new()
                                } else {
                                    single_diag(
                                        Diagnostic {
                                            kind: DiagKind::UnsupportedNativeOwningTarget,
                                            desc: String::new(),
                                            pos: u.pos,
                                        },
                                    )
                                }
                            },
                            None => Vec::new(),
                        }
                    }
                },
                _ => single_diag(
                    Diagnostic {
                        kind: DiagKind::UnsupportedOwningPointerShape,
                        desc: String::new(),
                        pos: u.pos,
                    },
                ),
            },
        },
        Type::Reference { mutable, inner } => match &**inner {
            Type::Unit => single_diag(
                Diagnostic {
                    kind: DiagKind::UnsupportedReferenceToUnit,
                    desc: String::new(),
                    pos: u.pos,
                },
            ),
            _ => Vec::new(),
        },
        Type::FunctionPointer => single_diag(
            Diagnostic {
                kind: DiagKind::UnimplementedFunctionPointer,
                desc: String::new(),
                pos: u.pos,
            },
        ),
        Type::BorrowedText => Vec::new(),
        Type::Unit => Vec::new(),
    }
}

/// The well-formedness pass: every type occurrence, in declaration order.
fn well_formedness_pass(types: &Types) -> (r: Vec<Diagnostic>)
    ensures
        diag_views(r@) == wf_diags(types.all@, *types),
{
    let mut diags: Vec<Diagnostic> = Vec::new();
    proof {
        assert(types.all@.take(0) =~= Seq::<TypeUse>::empty());
        lemma_flat_map_empty::<TypeUse, DiagView>(wf_f(*types));
        assert(diag_views(diags@) =~= Seq::<DiagView>::empty());
    }
    let mut i: usize = 0;
    while i < types.all.len()
        invariant
            i <= types.all@.len(),
            diag_views(diags@) == wf_diags(types.all@.take(i as int), *types),
        decreases types.all@.len() - i,
    {
        let mut d = check_type_use(&types.all[i], types);
        proof {
            lemma_diag_views_concat(diags@, d@);
            types.all@.lemma_flat_map_take_append(wf_f(*types), i as int);
        }
        diags.append(&mut d);
        i += 1;
    }
    proof {
        assert(types.all@.take(types.all@.len() as int) =~= types.all@);
    }
    diags
}

/// A type that cannot cross the boundary by value: the empty type, the
/// native string atom, or an opaque type of either side.
pub fn is_unsized(ty: &Type, types: &Types) -> (r: bool)
    ensures
        r == spec_is_unsized(*ty, *types),
{
    match ty {
        Type::Unit => true,
        Type::Ident(name) => {
            let is_native_string: bool = match atom_of(name.as_str()) {
                Some(Atom::NativeString) => true,
                _ => false,
            };
            is_native_string || contains_name(&types.native, name.as_str()) || contains_name(
                &types.managed,
                name.as_str(),
            )
        },
        _ => false,
    }
}

/// The sizedness check over a field or argument list.
fn check_vars_sized(vars: &Vec<Var>, types: &Types) -> (r: Vec<Diagnostic>)
    ensures
        diag_views(r@) == by_value_diags(vars@, *types),
{
    let mut out: Vec<Diagnostic> = Vec::new();
    proof {
        assert(vars@.take(0) =~= Seq::<Var>::empty());
        lemma_flat_map_empty::<Var, DiagView>(by_value_f(*types));
        assert(diag_views(out@) =~= Seq::<DiagView>::empty());
    }
    let mut i: usize = 0;
    while i < vars.len()
        invariant
            i <= vars@.len(),
            diag_views(out@) == by_value_diags(vars@.take(i as int), *types),
        decreases vars@.len() - i,
    {
        proof {
            vars@.lemma_flat_map_take_append(by_value_f(*types), i as int);
        }
        if is_unsized(&vars[i].ty, types) {
            let d = Diagnostic {
                kind: DiagKind::ByValueUnsized,
                desc: describe(&vars[i].ty, types),
                pos: vars[i].pos,
            };
            proof {
                lemma_diag_views_push(out@, d);
                assert(by_value_diags(vars@.take(i as int), *types).push(d@) =~= by_value_diags(
                    vars@.take(i as int),
                    *types,
                ) + by_value_diag_of(vars@[i as int], *types));
            }
            out.push(d);
        } else {
            proof {
                assert(by_value_diags(vars@.take(i as int), *types) + Seq::<DiagView>::empty()
                    =~= by_value_diags(vars@.take(i as int), *types));
            }
        }
        i += 1;
    }
    proof {
        assert(vars@.take(vars@.len() as int) =~= vars@);
    }
    out
}

/// The sizedness check of one struct.
fn check_struct_sizedness(s: &StructDef, types: &Types) -> (r: Vec<Diagnostic>)
    ensures
        diag_views(r@) == struct_sizedness_diags(*s, *types),
{
    let mut out: Vec<Diagnostic> = Vec::new();
    if s.fields.len() == 0 {
        out.push(
            Diagnostic { kind: DiagKind::EmptyStruct, desc: String::new(), pos: s.pos },
        );
    }
    let mut rest = check_vars_sized(&s.fields, types);
    proof {
        lemma_diag_views_concat(out@, rest@);
        if s.fields@.len() == 0 {
            assert(diag_views(out@) =~= seq![fixed(DiagKind::EmptyStruct, s.pos as int)]);
        } else {
            assert(diag_views(out@) =~= Seq::<DiagView>::empty());
        }
    }
    out.append(&mut rest);
    out
}

/// The sizedness check of one function: arguments, then the return type.
fn check_fn_sizedness(f: &FnDecl, types: &Types) -> (r: Vec<Diagnostic>)
    ensures
        diag_views(r@) == fn_sizedness_diags(*f, *types),
{
    let mut out = check_vars_sized(&f.args, types);
    match &f.ret {
        Some(t) => {
            if is_unsized(t, types) {
                let d = Diagnostic {
                    kind: DiagKind::ByValueUnsized,
                    desc: describe(t, types),
                    pos: f.ret_pos,
                };
                proof {
                    lemma_diag_views_push(out@, d);
                    assert(diag_views(out@).push(d@) =~= diag_views(out@) + ret_diags(
                        *f,
                        *types,
                    ));
                }
                out.push(d);
            } else {
                proof {
                    assert(diag_views(out@) + ret_diags(*f, *types) =~= diag_views(out@));
                }
            }
        },
        None => {
            proof {
                assert(diag_views(out@) + ret_diags(*f, *types) =~= diag_views(out@));
            }
        },
    }
    out
}

/// The sizedness pass over every item, in declaration order.
fn sizedness_pass(items: &Vec<Item>, types: &Types) -> (r: Vec<Diagnostic>)
    ensures
        diag_views(r@) == sizedness_diags(items@, *types),
{
    let mut diags: Vec<Diagnostic> = Vec::new();
    proof {
        assert(items@.take(0) =~= Seq::<Item>::empty());
        lemma_flat_map_empty::<Item, DiagView>(sizedness_f(*types));
        assert(diag_views(diags@) =~= Seq::<DiagView>::empty());
    }
    let mut i: usize = 0;
    while i < items.len()
        invariant
            i <= items@.len(),
            diag_views(diags@) == sizedness_diags(items@.take(i as int), *types),
        decreases items@.len() - i,
    {
        let mut d = match &items[i] {
            Item::Struct(s) => check_struct_sizedness(s, types),
            Item::NativeFunction(f) => check_fn_sizedness(f, types),
            Item::ManagedFunction(f) => check_fn_sizedness(f, types),
        };
        proof {
            lemma_diag_views_concat(diags@, d@);
            items@.lemma_flat_map_take_append(sizedness_f(*types), i as int);
        }
        diags.append(&mut d);
        i += 1;
    }
    proof {
        assert(items@.take(items@.len() as int) =~= items@);
    }
    diags
}

/// How many reference arguments, of either mutability, a list holds.
fn count_ref_args(args: &Vec<Var>) -> (n: usize)
    ensures
        n == ref_arg_count(args@),
{
    let mut n: usize = 0;
    let mut i: usize = 0;
    proof {
        assert(args@.take(0) =~= Seq::<Var>::empty());
    }
    while i < args.len()
        invariant
            i <= args@.len(),
            n <= i,
            n == ref_arg_count(args@.take(i as int)),
        decreases args@.len() - i,
    {
        let is_r: bool = match &args[i].ty {
            Type::Reference { mutable, inner } => true,
            _ => false,
        };
        proof {
            assert(args@.take(i as int + 1) =~= args@.take(i as int).push(args@[i as int]));
            lemma_ref_arg_count_snoc(args@.take(i as int), args@[i as int]);
        }
        if is_r {
            n += 1;
        }
        i += 1;
    }
    proof {
        assert(args@.take(args@.len() as int) =~= args@);
    }
    n
}

/// Appending one argument adds its own contribution to the count.
proof fn lemma_ref_arg_count_snoc(args: Seq<Var>, v: Var)
    ensures
        ref_arg_count(args.push(v)) == ref_arg_count(args) + (if is_ref_ty(v.ty) {
            1int
        } else {
            0int
        }),
    decreases args.len(),
{
    if args.len() == 0 {
        assert(args.push(v)[0] == v);
        assert(args.push(v).drop_first() =~= Seq::<Var>::empty());
        assert(ref_arg_count(Seq::<Var>::empty()) == 0);
        assert(ref_arg_count(args.push(v)) == (if is_ref_ty(v.ty) {
            1int
        } else {
            0int
        }) + ref_arg_count(args.push(v).drop_first()));
    } else {
        assert(args.push(v)[0] == args[0]);
        assert(args.push(v).drop_first() =~= args.drop_first().push(v));
        lemma_ref_arg_count_snoc(args.drop_first(), v);
        assert(ref_arg_count(args.push(v)) == (if is_ref_ty(args[0].ty) {
            1int
        } else {
            0int
        }) + ref_arg_count(args.push(v).drop_first()));
        assert(ref_arg_count(args) == (if is_ref_ty(args[0].ty) {
            1int
        } else {
            0int
        }) + ref_arg_count(args.drop_first()));
    }
}

/// The mutable-return rule of one native-callable function.
fn check_mut_return_restriction(f: &FnDecl) -> (r: Option<Diagnostic>)
    ensures
        mut_return_diags(*f) == (match r {
            Some(d) => seq![d@],
            None => Seq::<DiagView>::empty(),
        }),
{
    let ret_is_mut: bool = match &f.ret {
        Some(t) => match t {
            Type::Reference { mutable, inner } => *mutable,
            _ => false,
        },
        None => false,
    };
    if !ret_is_mut {
        return None;
    }
    let mut i: usize = 0;
    while i < f.args.len()
        invariant
            i <= f.args@.len(),
            forall|j: int| 0 <= j < i ==> !is_mut_ref(f.args@[j].ty),
        decreases f.args@.len() - i,
    {
        let arg_is_mut: bool = match &f.args[i].ty {
            Type::Reference { mutable, inner } => *mutable,
            _ => false,
        };
        if arg_is_mut {
            proof {
                assert(is_mut_ref(f.args@[i as int].ty));
                assert(has_mut_ref_arg(f.args@));
            }
            return None;
        }
        i += 1;
    }
    proof {
        assert(!has_mut_ref_arg(f.args@)) by {
            if has_mut_ref_arg(f.args@) {
                let j = choose|j: int| 0 <= j < f.args@.len() && is_mut_ref(f.args@[j].ty);
                assert(!is_mut_ref(f.args@[j].ty));
            }
        }
    }
    Some(
        Diagnostic {
            kind: DiagKind::MutableReturnWithoutMutableArgument,
            desc: String::new(),
            pos: f.pos,
        },
    )
}

/// The reference-arity rule of one function in either direction.
fn check_multiple_arg_lifetimes(f: &FnDecl) -> (r: Option<Diagnostic>)
    ensures
        ref_arity_diags(*f) == (match r {
            Some(d) => seq![d@],
            None => Seq::<DiagView>::empty(),
        }),
{
    let ret_is_ref: bool = match &f.ret {
        Some(t) => match t {
            Type::Reference { mutable, inner } => true,
            _ => false,
        },
        None => false,
    };
    if !ret_is_ref {
        return None;
    }
    let n = count_ref_args(&f.args);
    if n == 1 {
        None
    } else {
        Some(
            Diagnostic {
                kind: DiagKind::AmbiguousReferenceReturnArity,
                desc: String::new(),
                pos: f.pos,
            },
        )
    }
}

/// The signature checks of one native-callable function, in rule order.
fn check_native_fn_signature(f: &FnDecl) -> (r: Vec<Diagnostic>)
    ensures
        diag_views(r@) == mut_return_diags(*f) + ref_arity_diags(*f),
{
    let mut out: Vec<Diagnostic> = Vec::new();
    match check_mut_return_restriction(f) {
        Some(d) => { out.push(d); },
        None => {},
    }
    match check_multiple_arg_lifetimes(f) {
        Some(d) => { out.push(d); },
        None => {},
    }
    proof {
        assert(diag_views(out@) =~= mut_return_diags(*f) + ref_arity_diags(*f));
    }
    out
}

/// The signature pass over every item, in declaration order.
fn signature_pass(items: &Vec<Item>) -> (r: Vec<Diagnostic>)
    ensures
        diag_views(r@) == signature_diags(items@),
{
    let mut diags: Vec<Diagnostic> = Vec::new();
    proof {
        assert(items@.take(0) =~= Seq::<Item>::empty());
        lemma_flat_map_empty::<Item, DiagView>(sig_f());
        assert(diag_views(diags@) =~= Seq::<DiagView>::empty());
    }
    let mut i: usize = 0;
    while i < items.len()
        invariant
            i <= items@.len(),
            diag_views(diags@) == signature_diags(items@.take(i as int)),
        decreases items@.len() - i,
    {
        let mut d = match &items[i] {
            Item::Struct(s) => Vec::new(),
            Item::NativeFunction(f) => check_native_fn_signature(f),
            Item::ManagedFunction(f) => {
                match check_multiple_arg_lifetimes(f) {
                    Some(one) => single_diag(one),
                    None => Vec::new(),
                }
            },
        };
        proof {
            assert(diag_views(Seq::<Diagnostic>::empty()) =~= Seq::<DiagView>::empty());
            lemma_diag_views_concat(diags@, d@);
            items@.lemma_flat_map_take_append(sig_f(), i as int);
        }
        diags.append(&mut d);
        i += 1;
    }
    proof {
        assert(items@.take(items@.len() as int) =~= items@);
    }
    diags
}

/// Validates a definition surface.
///
/// Runs the three internal passes in order over the item list and the
/// registry's type occurrences, merges the diagnostics of the external
/// identifier cross-reference checker — handed in by the caller, produced
/// over the same item list — after them, and aggregates: success exactly
/// when no diagnostic was produced anywhere, otherwise a combined failure
/// holding every diagnostic, none dropped, deduplicated or reordered.
pub fn typecheck(items: &Vec<Item>, types: &Types, cross_ref: Vec<Diagnostic>) -> (r: Result<
    (),
    CombinedError,
>)
    ensures
        ({
            let expected = all_internal_diags(items@, *types) + diag_views(cross_ref@);
            &&& r is Ok <==> expected.len() == 0
            &&& (match r {
                Result::Err(e) => diag_views(e.diags@) == expected && e.diags@.len() >= 1,
                Result::Ok(u) => true,
            })
        }),
{
    let mut diags = well_formedness_pass(types);
    let mut d2 = sizedness_pass(items, types);
    proof {
        lemma_diag_views_concat(diags@, d2@);
    }
    diags.append(&mut d2);
    let mut d3 = signature_pass(items);
    proof {
        lemma_diag_views_concat(diags@, d3@);
    }
    diags.append(&mut d3);
    let mut external = cross_ref;
    proof {
        lemma_diag_views_concat(diags@, external@);
    }
    diags.append(&mut external);
    proof {
        assert(diag_views(diags@) =~= all_internal_diags(items@, *types) + diag_views(
            cross_ref@,
        ));
        assert(diag_views(diags@).len() == diags@.len());
    }
    aggregate(diags)
}

} // verus!

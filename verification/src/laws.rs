//! Proved validation laws: each states, over the pass spec functions that
//! [`crate::check::typecheck`] is proved against, that a class of inputs is
//! flagged with its dedicated diagnostic, or that a class of inputs passes a
//! rule.  Together with `typecheck`'s contract — the run fails exactly when
//! the merged diagnostic sequence is non-empty, and the combined failure
//! holds exactly that sequence — each containment below means the run fails
//! and the combined failure holds the named diagnostic.

use vstd::prelude::*;
use crate::ast::{FnDecl, Item, Side, StructDef, Type, Types};
use crate::atoms::{is_atom_name, spec_atom_of, Atom};
use crate::check::{
    all_internal_diags, by_value_diags, by_value_f, fixed, fn_sizedness_diags, has_mut_ref_arg,
    lemma_concat_contains, lemma_flat_map_elem, lemma_flat_map_empty, mut_return_diags,
    ref_arg_count, ref_arity_diags, ret_diags, returns_mut_ref, returns_ref, sig_f,
    sizedness_diags, sizedness_f, signature_diags, spec_is_unsized, struct_sizedness_diags,
    wf_diag, wf_diags, wf_f,
};
use crate::describe::spec_describe;
use crate::diag::{DiagKind, DiagView};

verus! {

/// A diagnostic of the well-formedness pass is in the merged internal
/// sequence.
proof fn lemma_internal_contains_wf(items: Seq<Item>, types: Types, d: DiagView)
    requires
        wf_diags(types.all@, types).contains(d),
    ensures
        all_internal_diags(items, types).contains(d),
{
    lemma_concat_contains(wf_diags(types.all@, types), sizedness_diags(items, types), d);
    lemma_concat_contains(
        wf_diags(types.all@, types) + sizedness_diags(items, types),
        signature_diags(items),
        d,
    );
}

/// A diagnostic of the sizedness pass is in the merged internal sequence.
proof fn lemma_internal_contains_sizedness(items: Seq<Item>, types: Types, d: DiagView)
    requires
        sizedness_diags(items, types).contains(d),
    ensures
        all_internal_diags(items, types).contains(d),
{
    lemma_concat_contains(wf_diags(types.all@, types), sizedness_diags(items, types), d);
    lemma_concat_contains(
        wf_diags(types.all@, types) + sizedness_diags(items, types),
        signature_diags(items),
        d,
    );
}

/// A diagnostic of the signature pass is in the merged internal sequence.
proof fn lemma_internal_contains_signature(items: Seq<Item>, types: Types, d: DiagView)
    requires
        signature_diags(items).contains(d),
    ensures
        all_internal_diags(items, types).contains(d),
{
    lemma_concat_contains(
        wf_diags(types.all@, types) + sizedness_diags(items, types),
        signature_diags(items),
        d,
    );
}

/// Every identifier occurrence that resolves to none of atom, struct,
/// opaque-native or opaque-managed is flagged with an unresolved-identifier
/// diagnostic naming that identifier, at that occurrence's position.
pub proof fn lemma_unresolved_identifier_flagged(
    items: Seq<Item>,
    types: Types,
    i: int,
    name: String,
)
    requires
        0 <= i < types.all@.len(),
        types.all@[i].ty == Type::Ident(name),
        !types.resolves(name@),
    ensures
        all_internal_diags(items, types).contains(
            (DiagView {
                kind: DiagKind::UnresolvedIdentifier,
                desc: name@,
                pos: types.all@[i].pos as int,
            }),
        ),
{
    let d = DiagView {
        kind: DiagKind::UnresolvedIdentifier,
        desc: name@,
        pos: types.all@[i].pos as int,
    };
    let f = wf_f(types);
    assert(f(types.all@[i]) =~= seq![d]);
    assert(f(types.all@[i])[0] == d);
    assert(f(types.all@[i]).contains(d));
    lemma_flat_map_elem(types.all@, f, i, d);
    lemma_internal_contains_wf(items, types, d);
}

/// Every struct with zero fields is flagged with an empty-struct
/// diagnostic, whatever its name.
pub proof fn lemma_empty_struct_flagged(items: Seq<Item>, types: Types, i: int, s: StructDef)
    requires
        0 <= i < items.len(),
        items[i] == Item::Struct(s),
        s.fields@.len() == 0,
    ensures
        all_internal_diags(items, types).contains((fixed(DiagKind::EmptyStruct, s.pos as int))),
{
    let d = fixed(DiagKind::EmptyStruct, s.pos as int);
    let f = sizedness_f(types);
    assert(s.fields@ =~= Seq::<crate::ast::Var>::empty());
    lemma_flat_map_empty::<crate::ast::Var, DiagView>(by_value_f(types));
    assert(f(items[i]) =~= seq![d]);
    assert(f(items[i])[0] == d);
    assert(f(items[i]).contains(d));
    lemma_flat_map_elem(items, f, i, d);
    lemma_internal_contains_sizedness(items, types, d);
}

/// Every struct field whose type is unsized is flagged with a by-value
/// diagnostic describing that type, at the field's position.
pub proof fn lemma_unsized_field_flagged(
    items: Seq<Item>,
    types: Types,
    i: int,
    s: StructDef,
    j: int,
)
    requires
        0 <= i < items.len(),
        items[i] == Item::Struct(s),
        0 <= j < s.fields@.len(),
        spec_is_unsized(s.fields@[j].ty, types),
    ensures
        all_internal_diags(items, types).contains(
            (DiagView {
                kind: DiagKind::ByValueUnsized,
                desc: spec_describe(s.fields@[j].ty, types),
                pos: s.fields@[j].pos as int,
            }),
        ),
{
    let d = DiagView {
        kind: DiagKind::ByValueUnsized,
        desc: spec_describe(s.fields@[j].ty, types),
        pos: s.fields@[j].pos as int,
    };
    let bf = by_value_f(types);
    assert(bf(s.fields@[j]) =~= seq![d]);
    assert(bf(s.fields@[j])[0] == d);
    assert(bf(s.fields@[j]).contains(d));
    lemma_flat_map_elem(s.fields@, bf, j, d);
    assert(struct_sizedness_diags(s, types) == (if s.fields@.len() == 0 {
        seq![fixed(DiagKind::EmptyStruct, s.pos as int)]
    } else {
        Seq::<DiagView>::empty()
    }) + by_value_diags(s.fields@, types));
    lemma_concat_contains(
        (if s.fields@.len() == 0 {
            seq![fixed(DiagKind::EmptyStruct, s.pos as int)]
        } else {
            Seq::<DiagView>::empty()
        }),
        by_value_diags(s.fields@, types),
        d,
    );
    assert(sizedness_f(types)(items[i]).contains(d));
    lemma_flat_map_elem(items, sizedness_f(types), i, d);
    lemma_internal_contains_sizedness(items, types, d);
}

/// Every function argument whose type is unsized is flagged with a
/// by-value diagnostic describing that type, at the argument's position.
pub proof fn lemma_unsized_argument_flagged(
    items: Seq<Item>,
    types: Types,
    i: int,
    f: FnDecl,
    j: int,
)
    requires
        0 <= i < items.len(),
        items[i] == Item::NativeFunction(f) || items[i] == Item::ManagedFunction(f),
        0 <= j < f.args@.len(),
        spec_is_unsized(f.args@[j].ty, types),
    ensures
        all_internal_diags(items, types).contains(
            (DiagView {
                kind: DiagKind::ByValueUnsized,
                desc: spec_describe(f.args@[j].ty, types),
                pos: f.args@[j].pos as int,
            }),
        ),
{
    let d = DiagView {
        kind: DiagKind::ByValueUnsized,
        desc: spec_describe(f.args@[j].ty, types),
        pos: f.args@[j].pos as int,
    };
    let bf = by_value_f(types);
    assert(bf(f.args@[j]) =~= seq![d]);
    assert(bf(f.args@[j])[0] == d);
    assert(bf(f.args@[j]).contains(d));
    lemma_flat_map_elem(f.args@, bf, j, d);
    lemma_concat_contains(by_value_diags(f.args@, types), ret_diags(f, types), d);
    assert(fn_sizedness_diags(f, types).contains(d));
    assert(sizedness_f(types)(items[i]).contains(d));
    lemma_flat_map_elem(items, sizedness_f(types), i, d);
    lemma_internal_contains_sizedness(items, types, d);
}

/// Every function whose return type is unsized is flagged with a by-value
/// diagnostic describing that type, at the return type's position.
pub proof fn lemma_unsized_return_flagged(
    items: Seq<Item>,
    types: Types,
    i: int,
    f: FnDecl,
    t: Type,
)
    requires
        0 <= i < items.len(),
        items[i] == Item::NativeFunction(f) || items[i] == Item::ManagedFunction(f),
        f.ret == Some(t),
        spec_is_unsized(t, types),
    ensures
        all_internal_diags(items, types).contains(
            (DiagView {
                kind: DiagKind::ByValueUnsized,
                desc: spec_describe(t, types),
                pos: f.ret_pos as int,
            }),
        ),
{
    let d = DiagView {
        kind: DiagKind::ByValueUnsized,
        desc: spec_describe(t, types),
        pos: f.ret_pos as int,
    };
    assert(ret_diags(f, types) =~= seq![d]);
    assert(ret_diags(f, types)[0] == d);
    assert(ret_diags(f, types).contains(d));
    lemma_concat_contains(by_value_diags(f.args@, types), ret_diags(f, types), d);
    assert(fn_sizedness_diags(f, types).contains(d));
    assert(sizedness_f(types)(items[i]).contains(d));
    lemma_flat_map_elem(items, sizedness_f(types), i, d);
    lemma_internal_contains_sizedness(items, types, d);
}

/// A native-callable function returning a mutable reference while no
/// argument is a mutable reference is flagged by the mutable-return rule.
pub proof fn lemma_mut_return_without_mut_argument_flagged(
    items: Seq<Item>,
    types: Types,
    i: int,
    f: FnDecl,
)
    requires
        0 <= i < items.len(),
        items[i] == Item::NativeFunction(f),
        returns_mut_ref(f),
        !has_mut_ref_arg(f.args@),
    ensures
        all_internal_diags(items, types).contains(
            (fixed(DiagKind::MutableReturnWithoutMutableArgument, f.pos as int)),
        ),
{
    let d = fixed(DiagKind::MutableReturnWithoutMutableArgument, f.pos as int);
    assert(mut_return_diags(f) =~= seq![d]);
    assert(mut_return_diags(f)[0] == d);
    assert(mut_return_diags(f).contains(d));
    lemma_concat_contains(mut_return_diags(f), ref_arity_diags(f), d);
    assert(sig_f()(items[i]).contains(d));
    lemma_flat_map_elem(items, sig_f(), i, d);
    lemma_internal_contains_signature(items, types, d);
}

/// Any positive count of mutable-reference arguments satisfies the
/// mutable-return rule: it emits nothing.
pub proof fn lemma_mut_argument_satisfies_mut_return(f: FnDecl)
    requires
        has_mut_ref_arg(f.args@),
    ensures
        mut_return_diags(f) == Seq::<DiagView>::empty(),
{
}

/// A function in either direction returning any reference while its
/// reference-argument count is not exactly one is flagged by the
/// reference-arity rule.
pub proof fn lemma_ambiguous_reference_return_flagged(
    items: Seq<Item>,
    types: Types,
    i: int,
    f: FnDecl,
)
    requires
        0 <= i < items.len(),
        items[i] == Item::NativeFunction(f) || items[i] == Item::ManagedFunction(f),
        returns_ref(f),
        ref_arg_count(f.args@) != 1,
    ensures
        all_internal_diags(items, types).contains(
            (fixed(DiagKind::AmbiguousReferenceReturnArity, f.pos as int)),
        ),
{
    let d = fixed(DiagKind::AmbiguousReferenceReturnArity, f.pos as int);
    assert(ref_arity_diags(f) =~= seq![d]);
    assert(ref_arity_diags(f)[0] == d);
    assert(ref_arity_diags(f).contains(d));
    if items[i] == Item::NativeFunction(f) {
        lemma_concat_contains(mut_return_diags(f), ref_arity_diags(f), d);
    }
    assert(sig_f()(items[i]).contains(d));
    lemma_flat_map_elem(items, sig_f(), i, d);
    lemma_internal_contains_signature(items, types, d);
}

/// Exactly one reference argument, of either mutability, satisfies the
/// reference-arity rule: it emits nothing.
pub proof fn lemma_single_reference_argument_passes(f: FnDecl)
    requires
        ref_arg_count(f.args@) == 1,
    ensures
        ref_arity_diags(f) == Seq::<DiagView>::empty(),
{
}

/// The managed owning pointer rules, for a pointer targeting a named type:
/// an opaque-native target is always flagged with the dedicated boxed-type
/// diagnostic; otherwise an atom target is flagged as an unsupported
/// target; any other named target passes the well-formedness rule for this
/// occurrence.
pub proof fn lemma_managed_owning_pointer_rules(
    items: Seq<Item>,
    types: Types,
    i: int,
    name: String,
)
    requires
        0 <= i < types.all@.len(),
        (types.all@[i].ty matches Type::OwningPointer { side: Side::Managed, inner } && *inner
            == Type::Ident(name)),
    ensures
        types.is_native(name@) ==> all_internal_diags(items, types).contains(
            (fixed(DiagKind::NativeTypeBoxedError, types.all@[i].pos as int)),
        ),
        !types.is_native(name@) && is_atom_name(name@) ==> all_internal_diags(
            items,
            types,
        ).contains((fixed(DiagKind::UnsupportedManagedOwningTarget, types.all@[i].pos as int))),
        !types.is_native(name@) && !is_atom_name(name@) ==> wf_diag(
            types.all@[i].ty,
            types.all@[i].pos as int,
            types,
        ) == Seq::<DiagView>::empty(),
{
    let pos = types.all@[i].pos as int;
    let f = wf_f(types);
    if types.is_native(name@) {
        let d = fixed(DiagKind::NativeTypeBoxedError, pos);
        assert(f(types.all@[i]) =~= seq![d]);
        assert(f(types.all@[i])[0] == d);
        assert(f(types.all@[i]).contains(d));
        lemma_flat_map_elem(types.all@, f, i, d);
        lemma_internal_contains_wf(items, types, d);
    } else if is_atom_name(name@) {
        let d = fixed(DiagKind::UnsupportedManagedOwningTarget, pos);
        assert(f(types.all@[i]) =~= seq![d]);
        assert(f(types.all@[i])[0] == d);
        assert(f(types.all@[i]).contains(d));
        lemma_flat_map_elem(types.all@, f, i, d);
        lemma_internal_contains_wf(items, types, d);
    } else {
        assert(wf_diag(types.all@[i].ty, pos, types) =~= Seq::<DiagView>::empty());
    }
}

/// The native owning pointer rules, for a pointer targeting a named type:
/// an opaque-managed target is flagged with the dedicated diagnostic and
/// nothing else for this occurrence; otherwise an atom target other than
/// the native string is flagged as an unsupported target; the native
/// string, and any other named target, passes the well-formedness rule for
/// this occurrence.
pub proof fn lemma_native_owning_pointer_rules(
    items: Seq<Item>,
    types: Types,
    i: int,
    name: String,
)
    requires
        0 <= i < types.all@.len(),
        (types.all@[i].ty matches Type::OwningPointer { side: Side::Native, inner } && *inner
            == Type::Ident(name)),
    ensures
        types.is_managed(name@) ==> wf_diag(types.all@[i].ty, types.all@[i].pos as int, types)
            == seq![fixed(DiagKind::ManagedTypeInNativePointer, types.all@[i].pos as int)]
            && all_internal_diags(items, types).contains(
            (fixed(DiagKind::ManagedTypeInNativePointer, types.all@[i].pos as int)),
        ),
        !types.is_managed(name@) && is_atom_name(name@) && spec_atom_of(name@) != Some(
            Atom::NativeString,
        ) ==> all_internal_diags(items, types).contains(
            (fixed(DiagKind::UnsupportedNativeOwningTarget, types.all@[i].pos as int)),
        ),
        !types.is_managed(name@) && (spec_atom_of(name@) == Some(Atom::NativeString)
            || !is_atom_name(name@)) ==> wf_diag(
            types.all@[i].ty,
            types.all@[i].pos as int,
            types,
        ) == Seq::<DiagView>::empty(),
{
    let pos = types.all@[i].pos as int;
    let f = wf_f(types);
    if types.is_managed(name@) {
        let d = fixed(DiagKind::ManagedTypeInNativePointer, pos);
        assert(f(types.all@[i]) =~= seq![d]);
        assert(f(types.all@[i])[0] == d);
        assert(f(types.all@[i]).contains(d));
        lemma_flat_map_elem(types.all@, f, i, d);
        lemma_internal_contains_wf(items, types, d);
    } else if is_atom_name(name@) && spec_atom_of(name@) != Some(Atom::NativeString) {
        let d = fixed(DiagKind::UnsupportedNativeOwningTarget, pos);
        assert(f(types.all@[i]) =~= seq![d]);
        assert(f(types.all@[i])[0] == d);
        assert(f(types.all@[i]).contains(d));
        lemma_flat_map_elem(types.all@, f, i, d);
        lemma_internal_contains_wf(items, types, d);
    } else {
        assert(wf_diag(types.all@[i].ty, pos, types) =~= Seq::<DiagView>::empty());
    }
}

/// Every reference to the empty type is flagged with the dedicated
/// diagnostic at its occurrence.
pub proof fn lemma_reference_to_unit_flagged(items: Seq<Item>, types: Types, i: int)
    requires
        0 <= i < types.all@.len(),
        (types.all@[i].ty matches Type::Reference { mutable, inner } && *inner == Type::Unit),
    ensures
        all_internal_diags(items, types).contains(
            (fixed(DiagKind::UnsupportedReferenceToUnit, types.all@[i].pos as int)),
        ),
{
    let d = fixed(DiagKind::UnsupportedReferenceToUnit, types.all@[i].pos as int);
    let f = wf_f(types);
    assert(f(types.all@[i]) =~= seq![d]);
    assert(f(types.all@[i])[0] == d);
    assert(f(types.all@[i]).contains(d));
    lemma_flat_map_elem(types.all@, f, i, d);
    lemma_internal_contains_wf(items, types, d);
}

/// Every function-pointer occurrence is flagged with the dedicated
/// diagnostic.
pub proof fn lemma_function_pointer_flagged(items: Seq<Item>, types: Types, i: int)
    requires
        0 <= i < types.all@.len(),
        types.all@[i].ty == Type::FunctionPointer,
    ensures
        all_internal_diags(items, types).contains(
            (fixed(DiagKind::UnimplementedFunctionPointer, types.all@[i].pos as int)),
        ),
{
    let d = fixed(DiagKind::UnimplementedFunctionPointer, types.all@[i].pos as int);
    let f = wf_f(types);
    assert(f(types.all@[i]) =~= seq![d]);
    assert(f(types.all@[i])[0] == d);
    assert(f(types.all@[i]).contains(d));
    lemma_flat_map_elem(types.all@, f, i, d);
    lemma_internal_contains_wf(items, types, d);
}

} // verus!

//! Diagnostics: the closed set of diagnostic kinds, the positioned
//! diagnostic value, message rendering, and the aggregator that merges all
//! diagnostics of a run into one combined result.

use vstd::prelude::*;
use vstd::string::StringExecFns;

verus! {

/// Every diagnostic kind the validator can produce.  Each kind has exactly
/// one canonical message template, parameterized only by the rendered type
/// description or the identifier name carried in [`Diagnostic::desc`].
#[derive(Clone, Copy, PartialEq, Eq, Structural, Debug)]
pub enum DiagKind {
    /// A type name that is not an atom, a struct, or an opaque type.
    UnresolvedIdentifier,
    /// An opaque native type placed inside a managed owning pointer.
    NativeTypeBoxedError,
    /// An atom placed inside a managed owning pointer.
    UnsupportedManagedOwningTarget,
    /// An opaque managed type placed inside a native owning pointer.
    ManagedTypeInNativePointer,
    /// A non-string atom placed inside a native owning pointer.
    UnsupportedNativeOwningTarget,
    /// An owning pointer wrapping anything other than a named type.
    UnsupportedOwningPointerShape,
    /// A reference to the empty type.
    UnsupportedReferenceToUnit,
    /// A function-pointer type anywhere.
    UnimplementedFunctionPointer,
    /// A struct with no fields.
    EmptyStruct,
    /// An unsized type used as a field, argument, or return without
    /// indirection.
    ByValueUnsized,
    /// A mutable reference returned without any mutable reference argument.
    MutableReturnWithoutMutableArgument,
    /// A reference returned by a function that does not take exactly one
    /// reference argument.
    AmbiguousReferenceReturnArity,
    /// Produced by the external identifier cross-reference checker; its
    /// message is carried verbatim and is opaque to this core.
    IdentifierCollision,
}

/// A single diagnostic: a kind, the parameter of its message template, and a
/// source position.  Diagnostics are purely descriptive and carry no
/// recovery information.
#[derive(Debug)]
pub struct Diagnostic {
    pub kind: DiagKind,
    /// The message-template parameter: a rendered type description, an
    /// identifier name, or the external checker's message; empty when the
    /// template takes none.
    pub desc: String,
    pub pos: usize,
}

/// The mathematical image of a [`Diagnostic`].
pub struct DiagView {
    pub kind: DiagKind,
    pub desc: Seq<char>,
    pub pos: int,
}

impl View for Diagnostic {
    type V = DiagView;

    open spec fn view(&self) -> DiagView {
        DiagView { kind: self.kind, desc: self.desc@, pos: self.pos as int }
    }
}

/// The views of a sequence of diagnostics, in order.
pub open spec fn diag_views(s: Seq<Diagnostic>) -> Seq<DiagView> {
    s.map_values(|d: Diagnostic| d@)
}

/// `diag_views` distributes over concatenation.
pub proof fn lemma_diag_views_concat(a: Seq<Diagnostic>, b: Seq<Diagnostic>)
    ensures
        diag_views(a + b) == diag_views(a) + diag_views(b),
{
    assert(diag_views(a + b) =~= diag_views(a) + diag_views(b));
}

/// `diag_views` maps `push` to `push`.
pub proof fn lemma_diag_views_push(a: Seq<Diagnostic>, d: Diagnostic)
    ensures
        diag_views(a.push(d)) == diag_views(a).push(d@),
{
    assert(diag_views(a.push(d)) =~= diag_views(a).push(d@));
}

/// The fixed part of a kind's message that precedes the parameter.
pub open spec fn template_prefix(k: DiagKind) -> Seq<char> {
    match k {
        DiagKind::UnresolvedIdentifier => "unsupported type: "@,
        DiagKind::NativeTypeBoxedError => "a managed owning pointer to an opaque native type is not supported"@,
        DiagKind::UnsupportedManagedOwningTarget => "unsupported target type of managed owning pointer"@,
        DiagKind::ManagedTypeInNativePointer => "a native owning pointer to an opaque managed type is not supported"@,
        DiagKind::UnsupportedNativeOwningTarget => "unsupported target type of native owning pointer"@,
        DiagKind::UnsupportedOwningPointerShape => "an owning pointer must target a named type"@,
        DiagKind::UnsupportedReferenceToUnit => "unsupported reference type"@,
        DiagKind::UnimplementedFunctionPointer => "function pointer support is not implemented"@,
        DiagKind::EmptyStruct => "structs without any fields are not supported"@,
        DiagKind::ByValueUnsized => "using "@,
        DiagKind::MutableReturnWithoutMutableArgument => "a mutable reference return type is not allowed unless there is a mutable reference argument"@,
        DiagKind::AmbiguousReferenceReturnArity => "functions that return a reference must take exactly one reference argument"@,
        DiagKind::IdentifierCollision => ""@,
    }
}

/// The fixed part of a kind's message that follows the parameter.
pub open spec fn template_suffix(k: DiagKind) -> Seq<char> {
    match k {
        DiagKind::ByValueUnsized => " by value is not supported"@,
        _ => ""@,
    }
}

/// The canonical message of a diagnostic: its kind's template with the
/// diagnostic's parameter spliced in.
pub open spec fn spec_message(d: DiagView) -> Seq<char> {
    template_prefix(d.kind) + d.desc + template_suffix(d.kind)
}

/// The fixed prefix text of a kind's message template.
fn prefix_text(k: DiagKind) -> (r: &'static str)
    ensures
        r@ == template_prefix(k),
{
    match k {
        DiagKind::UnresolvedIdentifier => "unsupported type: ",
        DiagKind::NativeTypeBoxedError => "a managed owning pointer to an opaque native type is not supported",
        DiagKind::UnsupportedManagedOwningTarget => "unsupported target type of managed owning pointer",
        DiagKind::ManagedTypeInNativePointer => "a native owning pointer to an opaque managed type is not supported",
        DiagKind::UnsupportedNativeOwningTarget => "unsupported target type of native owning pointer",
        DiagKind::UnsupportedOwningPointerShape => "an owning pointer must target a named type",
        DiagKind::UnsupportedReferenceToUnit => "unsupported reference type",
        DiagKind::UnimplementedFunctionPointer => "function pointer support is not implemented",
        DiagKind::EmptyStruct => "structs without any fields are not supported",
        DiagKind::ByValueUnsized => "using ",
        DiagKind::MutableReturnWithoutMutableArgument => "a mutable reference return type is not allowed unless there is a mutable reference argument",
        DiagKind::AmbiguousReferenceReturnArity => "functions that return a reference must take exactly one reference argument",
        DiagKind::IdentifierCollision => "",
    }
}

/// The fixed suffix text of a kind's message template.
fn suffix_text(k: DiagKind) -> (r: &'static str)
    ensures
        r@ == template_suffix(k),
{
    match k {
        DiagKind::ByValueUnsized => " by value is not supported",
        _ => "",
    }
}

impl Diagnostic {
    /// Renders the canonical, stable message of this diagnostic.
    pub fn message(&self) -> (r: String)
        ensures
            r@ == spec_message(self@),
    {
        let mut s: String = prefix_text(self.kind).to_owned();
        s.append(self.desc.as_str());
        s.append(suffix_text(self.kind));
        s
    }
}

/// A combined validation failure: one or more diagnostics, every one
/// produced during the run, in the order produced.  Nothing is dropped,
/// deduplicated, or reordered.
#[derive(Debug)]
pub struct CombinedError {
    /// The merged diagnostics, in the order produced.
    pub diags: Vec<Diagnostic>,
}

impl CombinedError {
    /// How many diagnostics the run produced.
    pub fn len(&self) -> (n: usize)
        ensures
            n == self.diags@.len(),
    {
        self.diags.len()
    }

    /// The `i`-th diagnostic, in the order produced.
    pub fn get(&self, i: usize) -> (d: &Diagnostic)
        requires
            i < self.diags@.len(),
        ensures
            *d == self.diags@[i as int],
    {
        &self.diags[i]
    }
}

/// The diagnostic aggregator: success when no diagnostics were produced,
/// otherwise one combined failure holding every diagnostic in order.
pub fn aggregate(diags: Vec<Diagnostic>) -> (r: Result<(), CombinedError>)
    ensures
        diags@.len() == 0 ==> r is Ok,
        diags@.len() > 0 ==> (r matches Err(e) && e.diags@ == diags@),
{
    if diags.len() == 0 {
        Ok(())
    } else {
        Err(CombinedError { diags })
    }
}

} // verus!

//! The structured form of a tagged-union declaration: the union's name, its
//! source text, and one entry per variant giving the variant's tag and the
//! shape of its payload.

use vstd::prelude::*;

verus! {

/// How one variant of the union carries its payload.
pub enum Payload {
    /// Positional (unnamed) fields; each entry is the source text of one
    /// field's type, in field order.
    Unnamed(Vec<String>),
    /// Named (record-style) fields.
    Named,
    /// No fields at all.
    Unit,
}

/// One variant of the union: its tag and its payload shape.
pub struct VariantDecl {
    pub tag: String,
    pub payload: Payload,
}

/// A parsed tagged-union declaration.
pub struct UnionDecl {
    /// The union's name.
    pub name: String,
    /// The whole declaration rendered back to source text; the generator
    /// re-emits it verbatim ahead of the synthesized conversions.
    pub text: String,
    /// The variants, in declaration order.
    pub variants: Vec<VariantDecl>,
}

/// The mathematical value of a [`Payload`].
pub enum PayloadView {
    Unnamed(Seq<Seq<char>>),
    Named,
    Unit,
}

/// The mathematical value of a [`VariantDecl`].
pub struct VariantView {
    pub tag: Seq<char>,
    pub payload: PayloadView,
}

/// The mathematical value of a [`UnionDecl`].
pub struct UnionView {
    pub name: Seq<char>,
    pub text: Seq<char>,
    pub variants: Seq<VariantView>,
}

impl View for Payload {
    type V = PayloadView;

    open spec fn view(&self) -> PayloadView {
        match self {
            Payload::Unnamed(types) => PayloadView::Unnamed(types.deep_view()),
            Payload::Named => PayloadView::Named,
            Payload::Unit => PayloadView::Unit,
        }
    }
}

impl View for VariantDecl {
    type V = VariantView;

    open spec fn view(&self) -> VariantView {
        VariantView { tag: self.tag@, payload: self.payload@ }
    }
}

impl View for UnionDecl {
    type V = UnionView;

    open spec fn view(&self) -> UnionView {
        UnionView {
            name: self.name@,
            text: self.text@,
            variants: self.variants@.map_values(|v: VariantDecl| v@),
        }
    }
}

/// A variant is acceptable exactly when its payload is a single unnamed field.
pub open spec fn variant_arity_ok(v: VariantView) -> bool {
    match v.payload {
        PayloadView::Unnamed(types) => types.len() == 1,
        _ => false,
    }
}

/// A declaration is acceptable exactly when every variant is.
pub open spec fn arity_ok(d: UnionView) -> bool {
    forall|i: int| 0 <= i < d.variants.len() ==> variant_arity_ok(#[trigger] d.variants[i])
}

/// The inner type of a variant whose payload is a single unnamed field.
pub open spec fn inner_of(v: VariantView) -> Seq<char> {
    match v.payload {
        PayloadView::Unnamed(types) => types[0],
        _ => Seq::empty(),
    }
}

} // verus!

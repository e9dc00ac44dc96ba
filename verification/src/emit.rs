//! Synthesis and emission of the conversion routines: the exact source text
//! of the `TryFrom` implementation generated for one (tag, inner type) pair,
//! and the concatenation of the re-emitted declaration with all of them.

use vstd::prelude::*;
use crate::decl::{UnionView, VariantView, inner_of};

verus! {

/// The fixed message carried by a generated conversion when the union value
/// holds a different variant than the one being extracted.
pub open spec fn wrong_variant_message() -> Seq<char> {
    "Only variants containing an inner value of the same type as the target should be passed to this function"@
}

/// The exact source text of the conversion synthesized for a union named
/// `name` and a variant with tag `tag` wrapping the type `inner`.
pub open spec fn impl_text(name: Seq<char>, tag: Seq<char>, inner: Seq<char>) -> Seq<char> {
    "impl TryFrom<"@ + name + "> for "@ + inner
        + " {\n    type Error = &'static str;\n    fn try_from(value: "@ + name
        + ") -> Result<Self, Self::Error> {\n        match value {\n            "@ + name
        + "::"@ + tag
        + "(inner) => Ok(inner),\n            _ => Err(\"Only variants containing an inner value of the same type as the target should be passed to this function\"),\n        }\n    }\n}\n"@
}

/// The concatenation, in variant order, of the conversions synthesized for
/// every variant of the union.
pub open spec fn impls_text(name: Seq<char>, variants: Seq<VariantView>) -> Seq<char>
    decreases variants.len(),
{
    if variants.len() == 0 {
        Seq::empty()
    } else {
        impls_text(name, variants.drop_last())
            + impl_text(name, variants.last().tag, inner_of(variants.last()))
    }
}

/// The generator's whole output: the declaration re-emitted verbatim,
/// followed by the synthesized conversions in variant order.
pub open spec fn output_text(d: UnionView) -> Seq<char> {
    d.text + "\n"@ + impls_text(d.name, d.variants)
}

/// Extending the emitted sequence of conversions by one variant appends
/// exactly that variant's conversion text.
pub proof fn lemma_impls_text_take(name: Seq<char>, variants: Seq<VariantView>, i: int)
    requires
        0 <= i < variants.len(),
    ensures
        impls_text(name, variants.take(i + 1)) == impls_text(name, variants.take(i))
            + impl_text(name, variants[i].tag, inner_of(variants[i])),
{
    assert(variants.take(i + 1).drop_last() =~= variants.take(i));
    assert(variants.take(i + 1).last() == variants[i]);
}

/// Builds the source text of the conversion for one (tag, inner type) pair.
pub fn render_impl(name: &str, tag: &str, inner: &str) -> (r: String)
    ensures
        r@ == impl_text(name@, tag@, inner@),
{
    let mut out = String::new();
    out.append("impl TryFrom<");
    out.append(name);
    out.append("> for ");
    out.append(inner);
    out.append(" {\n    type Error = &'static str;\n    fn try_from(value: ");
    out.append(name);
    out.append(") -> Result<Self, Self::Error> {\n        match value {\n            ");
    out.append(name);
    out.append("::");
    out.append(tag);
    out.append("(inner) => Ok(inner),\n            _ => Err(\"Only variants containing an inner value of the same type as the target should be passed to this function\"),\n        }\n    }\n}\n");
    proof {
        assert(out@ =~= impl_text(name@, tag@, inner@));
    }
    out
}

} // verus!

//! The generator itself: per-variant extraction with its arity check,
//! synthesis of one conversion per variant, and emission of the whole
//! replacement text, together with the laws of rejection.

use vstd::prelude::*;
use crate::decl::{arity_ok, inner_of, variant_arity_ok, Payload, UnionDecl, UnionView};
use crate::emit::{impls_text, lemma_impls_text_take, output_text, render_impl};
use crate::parse::{parse_union_decl, parsed};

verus! {

/// Why generation failed. Each failure is fatal to the whole expansion;
/// there is no partial output.
#[derive(Clone, Copy, Debug, PartialEq, Eq, Structural)]
pub enum GenError {
    /// The annotated declaration is not a tagged-union declaration.
    Shape,
    /// Some variant's payload is not exactly one unnamed field.
    Arity,
}

/// The fixed diagnostic for a declaration that is not a tagged union.
pub open spec fn shape_message() -> Seq<char> {
    "This attribute should only be attached to a enum definition"@
}

/// The fixed diagnostic for a variant whose payload is not one unnamed field.
pub open spec fn arity_message() -> Seq<char> {
    "Each enum variant should contain one inner value"@
}

impl GenError {
    /// The fixed diagnostic text for this failure.
    pub fn message(&self) -> (r: &'static str)
        ensures
            *self is Shape ==> r@ == shape_message(),
            *self is Arity ==> r@ == arity_message(),
    {
        match self {
            GenError::Shape => "This attribute should only be attached to a enum definition",
            GenError::Arity => "Each enum variant should contain one inner value",
        }
    }
}

/// One extracted pair: a variant's tag and the source text of its single
/// inner type.
#[derive(Clone, Debug, PartialEq, Eq)]
pub struct Pair {
    pub tag: String,
    pub inner: String,
}

/// Extracts, in declaration order, each variant's tag and inner type,
/// failing exactly when some variant's payload is not one unnamed field.
pub fn extract_pairs(d: &UnionDecl) -> (r: Result<Vec<Pair>, GenError>)
    ensures
        r is Ok <==> arity_ok(d@),
        r matches Ok(pairs) ==> {
            &&& pairs@.len() == d@.variants.len()
            &&& forall|i: int| 0 <= i < pairs@.len() ==> {
                &&& (#[trigger] pairs@[i]).tag@ == d@.variants[i].tag
                &&& pairs@[i].inner@ == inner_of(d@.variants[i])
            }
        },
        r matches Err(e) ==> e == GenError::Arity,
{
    let mut pairs: Vec<Pair> = Vec::new();
    let n = d.variants.len();
    for idx in 0..n
        invariant
            n == d.variants.len(),
            pairs.len() == idx,
            forall|i: int| 0 <= i < idx ==> variant_arity_ok(#[trigger] d@.variants[i]),
            forall|i: int| 0 <= i < idx ==> {
                &&& (#[trigger] pairs@[i]).tag@ == d@.variants[i].tag
                &&& pairs@[i].inner@ == inner_of(d@.variants[i])
            },
    {
        let v = &d.variants[idx];
        match &v.payload {
            Payload::Unnamed(types) => {
                if types.len() == 1 {
                    pairs.push(Pair { tag: v.tag.clone(), inner: types[0].clone() });
                } else {
                    proof {
                        assert(!variant_arity_ok(d@.variants[idx as int]));
                    }
                    return Err(GenError::Arity);
                }
            },
            _ => {
                proof {
                    assert(!variant_arity_ok(d@.variants[idx as int]));
                }
                return Err(GenError::Arity);
            },
        }
    }
    Ok(pairs)
}

/// Expands one parsed declaration: re-emits its text, then appends the
/// conversion synthesized for each variant, in variant order.
pub fn expand_decl(d: &UnionDecl) -> (r: Result<String, GenError>)
    ensures
        r matches Ok(s) ==> arity_ok(d@) && s@ == output_text(d@),
        r matches Err(e) ==> !arity_ok(d@) && e == GenError::Arity,
{
    let pairs = match extract_pairs(d) {
        Ok(pairs) => pairs,
        Err(e) => return Err(e),
    };
    let mut out = d.text.clone();
    out.append("\n");
    proof {
        assert(d@.variants.take(0) =~= Seq::<crate::decl::VariantView>::empty());
        assert(out@ =~= d@.text + "\n"@ + impls_text(d@.name, d@.variants.take(0)));
    }
    let n = pairs.len();
    for idx in 0..n
        invariant
            n == pairs.len(),
            pairs.len() == d@.variants.len(),
            forall|i: int| 0 <= i < pairs@.len() ==> {
                &&& (#[trigger] pairs@[i]).tag@ == d@.variants[i].tag
                &&& pairs@[i].inner@ == inner_of(d@.variants[i])
            },
            out@ == d@.text + "\n"@ + impls_text(d@.name, d@.variants.take(idx as int)),
    {
        let piece = render_impl(d.name.as_str(), pairs[idx].tag.as_str(), pairs[idx].inner.as_str());
        out.append(piece.as_str());
        proof {
            lemma_impls_text_take(d@.name, d@.variants, idx as int);
            assert(out@ =~= d@.text + "\n"@ + impls_text(d@.name, d@.variants.take(idx + 1)));
        }
    }
    proof {
        assert(d@.variants.take(n as int) =~= d@.variants);
    }
    Ok(out)
}

/// The outcome of expanding one parsed declaration.
pub open spec fn expand_spec(d: UnionView) -> Result<Seq<char>, GenError> {
    if arity_ok(d) {
        Result::Ok(output_text(d))
    } else {
        Result::Err(GenError::Arity)
    }
}

/// The outcome of the whole generation, from declaration source text.
pub open spec fn expand_source_spec(source: Seq<char>) -> Result<Seq<char>, GenError> {
    match parsed(source) {
        Option::None => Result::Err(GenError::Shape),
        Option::Some(d) => expand_spec(d),
    }
}

/// The text carried by an expansion outcome.
pub open spec fn result_text(r: Result<String, GenError>) -> Result<Seq<char>, GenError> {
    match r {
        Result::Ok(s) => Result::Ok(s@),
        Result::Err(e) => Result::Err(e),
    }
}

/// Generates, for a tagged-union declaration given as source text, the
/// declaration itself followed by one fallible conversion to each variant's
/// inner type. The first argument is the attribute's own argument list; it
/// is accepted and ignored.
pub fn unique_try_froms(_exempt_types: &str, declaration: &str) -> (r: Result<String, GenError>)
    ensures
        result_text(r) == expand_source_spec(declaration@),
{
    match parse_union_decl(declaration) {
        Option::None => Err(GenError::Shape),
        Option::Some(d) => expand_decl(&d),
    }
}

/// Shape rejection: input that does not parse as a tagged-union declaration
/// is rejected with the shape error; nothing is expanded.
pub proof fn lemma_shape_rejection(source: Seq<char>)
    requires
        parsed(source) is None,
    ensures
        expand_source_spec(source) == Result::<Seq<char>, GenError>::Err(GenError::Shape),
{
}

/// Arity rejection: a declaration with some variant whose payload is not
/// exactly one unnamed field is rejected with the arity error; in
/// particular a variant with zero fields, with named fields, or with two or
/// more fields rejects the whole declaration.
pub proof fn lemma_arity_rejection(source: Seq<char>, d: UnionView, i: int)
    requires
        parsed(source) == Some(d),
        0 <= i < d.variants.len(),
        !variant_arity_ok(d.variants[i]),
    ensures
        expand_source_spec(source) == Result::<Seq<char>, GenError>::Err(GenError::Arity),
{
    assert(!arity_ok(d));
}

/// Idempotent emission: the generator's outcome is a function of the
/// declaration text alone, so re-running it on the same input yields a
/// byte-identical result.
pub proof fn lemma_idempotent_emission(source_a: Seq<char>, source_b: Seq<char>)
    requires
        source_a == source_b,
    ensures
        expand_source_spec(source_a) == expand_source_spec(source_b),
{
}

} // verus!

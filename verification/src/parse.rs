//! The trusted boundary to the host-language parser: turning declaration
//! source text into the structured form defined in [`crate::decl`].

use vstd::prelude::*;
use crate::decl::{Payload, UnionDecl, UnionView, VariantDecl};

verus! {

/// The structured form of the tagged-union declaration written in `source`,
/// or `None` where `source` is not such a declaration. Parsing depends on
/// the text alone, so its result is given this name rather than spelled out.
pub uninterp spec fn parsed(source: Seq<char>) -> Option<UnionView>;

/// Relies on `syn::parse_str::<syn::ItemEnum>` to accept exactly the inputs
/// that are `enum` declarations, and on `quote`'s `ToTokens` to render the
/// parsed item and each payload type back to source text.
#[verifier::external_body]
pub(crate) fn parse_union_decl(source: &str) -> (r: Option<UnionDecl>)
    ensures
        r is Some <==> parsed(source@) is Some,
        r matches Some(d) ==> parsed(source@) == Some(d@),
{
    let item: syn::ItemEnum = match syn::parse_str(source) { Ok(i) => i, Err(_) => return None };
    let variants = item.variants.iter().map(|v| VariantDecl {
        tag: v.ident.to_string(),
        payload: match &v.fields {
            syn::Fields::Unnamed(fields) => Payload::Unnamed(
                fields.unnamed.iter().map(|f| quote::ToTokens::to_token_stream(&f.ty).to_string()).collect(),
            ),
            syn::Fields::Named(_) => Payload::Named,
            syn::Fields::Unit => Payload::Unit,
        },
    }).collect();
    let name = item.ident.to_string();
    let text = quote::ToTokens::to_token_stream(&item).to_string();
    Some(UnionDecl { name, text, variants })
}

} // verus!

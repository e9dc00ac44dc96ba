use enum_unwrapper::decl::{Payload, UnionDecl, VariantDecl};
use enum_unwrapper::emit::render_impl;
use enum_unwrapper::generate::{extract_pairs, unique_try_froms, GenError};
use enum_unwrapper::unwrap::{try_unwrap, TaggedValue};

const WRONG_VARIANT: &str =
    "Only variants containing an inner value of the same type as the target should be passed to this function";

// The declaration used throughout, and, written out by hand, the exact code
// the generator emits for it, so the emitted text can be held against code
// that really runs.
enum NumberHolder {
    U8(u8),
    U16(u16),
}

impl TryFrom<NumberHolder> for u8 {
    type Error = &'static str;
    fn try_from(value: NumberHolder) -> Result<Self, Self::Error> {
        match value {
            NumberHolder::U8(inner) => Ok(inner),
            _ => Err("Only variants containing an inner value of the same type as the target should be passed to this function"),
        }
    }
}

impl TryFrom<NumberHolder> for u16 {
    type Error = &'static str;
    fn try_from(value: NumberHolder) -> Result<Self, Self::Error> {
        match value {
            NumberHolder::U16(inner) => Ok(inner),
            _ => Err("Only variants containing an inner value of the same type as the target should be passed to this function"),
        }
    }
}

fn number_holder_source() -> &'static str {
    "enum NumberHolder { U8(u8), U16(u16) }"
}

fn rendered_declaration(source: &str) -> String {
    let item: syn::ItemEnum = syn::parse_str(source).unwrap();
    quote::ToTokens::to_token_stream(&item).to_string()
}

#[test]
fn it_works() {
    let result = 2 + 2;
    assert_eq!(result, 4);
}

#[test]
fn render_impl_exact_text() {
    let expected = "impl TryFrom<NumberHolder> for u8 {\n    type Error = &'static str;\n    fn try_from(value: NumberHolder) -> Result<Self, Self::Error> {\n        match value {\n            NumberHolder::U8(inner) => Ok(inner),\n            _ => Err(\"Only variants containing an inner value of the same type as the target should be passed to this function\"),\n        }\n    }\n}\n";
    assert_eq!(render_impl("NumberHolder", "U8", "u8"), expected);
}

#[test]
fn expansion_emits_declaration_then_conversions() {
    let source = number_holder_source();
    let out = unique_try_froms("", source).unwrap();
    let mut expected = rendered_declaration(source);
    expected.push('\n');
    expected.push_str(&render_impl("NumberHolder", "U8", "u8"));
    expected.push_str(&render_impl("NumberHolder", "U16", "u16"));
    assert_eq!(out, expected);
}

#[test]
fn empty_union_emits_declaration_only() {
    let source = "enum Never {}";
    let out = unique_try_froms("", source).unwrap();
    let mut expected = rendered_declaration(source);
    expected.push('\n');
    assert_eq!(out, expected);
}

#[test]
fn attribute_arguments_are_ignored() {
    let source = number_holder_source();
    let plain = unique_try_froms("", source).unwrap();
    let with_args = unique_try_froms("some, arguments", source).unwrap();
    assert_eq!(plain, with_args);
}

#[test]
fn idempotent_emission() {
    let source = number_holder_source();
    let first = unique_try_froms("", source).unwrap();
    let second = unique_try_froms("", source).unwrap();
    assert_eq!(first, second);
}

#[test]
fn shape_error_on_product_type() {
    let r = unique_try_froms("", "struct Point { x: u8, y: u8 }");
    assert_eq!(r, Err(GenError::Shape));
    assert_eq!(
        GenError::Shape.message(),
        "This attribute should only be attached to a enum definition"
    );
}

#[test]
fn shape_error_on_garbage() {
    assert_eq!(unique_try_froms("", "not a declaration at all"), Err(GenError::Shape));
}

#[test]
fn arity_error_on_two_fields() {
    let r = unique_try_froms("", "enum E { Pair(u8, u8) }");
    assert_eq!(r, Err(GenError::Arity));
    assert_eq!(GenError::Arity.message(), "Each enum variant should contain one inner value");
}

#[test]
fn arity_error_on_zero_fields() {
    assert_eq!(unique_try_froms("", "enum E { Empty }"), Err(GenError::Arity));
    assert_eq!(unique_try_froms("", "enum E { Empty() }"), Err(GenError::Arity));
}

#[test]
fn arity_error_on_named_fields() {
    assert_eq!(unique_try_froms("", "enum E { Record { x: u8 } }"), Err(GenError::Arity));
}

#[test]
fn extract_pairs_keeps_variant_order() {
    let d = UnionDecl {
        name: "NumberHolder".to_string(),
        text: "enum NumberHolder { U8(u8), U16(u16) }".to_string(),
        variants: vec![
            VariantDecl { tag: "U8".to_string(), payload: Payload::Unnamed(vec!["u8".to_string()]) },
            VariantDecl {
                tag: "U16".to_string(),
                payload: Payload::Unnamed(vec!["u16".to_string()]),
            },
        ],
    };
    let pairs = extract_pairs(&d).unwrap();
    assert_eq!(pairs.len(), 2);
    assert_eq!(pairs[0].tag, "U8");
    assert_eq!(pairs[0].inner, "u8");
    assert_eq!(pairs[1].tag, "U16");
    assert_eq!(pairs[1].inner, "u16");
}

#[test]
fn extract_pairs_rejects_named_payload() {
    let d = UnionDecl {
        name: "E".to_string(),
        text: "enum E { Record { x: u8 } }".to_string(),
        variants: vec![VariantDecl { tag: "Record".to_string(), payload: Payload::Named }],
    };
    assert_eq!(extract_pairs(&d), Err(GenError::Arity));
}

#[test]
fn round_trip_small_number() {
    let v = TaggedValue { tag: "U8".to_string(), value: 4u8 };
    assert_eq!(try_unwrap(v, &"U8".to_string()), Ok(4u8));
    assert_eq!(u8::try_from(NumberHolder::U8(4)).unwrap(), 4);
}

#[test]
fn round_trip_big_number() {
    let v = TaggedValue { tag: "U16".to_string(), value: 444u16 };
    assert_eq!(try_unwrap(v, &"U16".to_string()), Ok(444u16));
    assert_eq!(u16::try_from(NumberHolder::U16(444)).unwrap(), 444);
}

#[test]
fn wrong_variant_yields_fixed_message() {
    let v = TaggedValue { tag: "U8".to_string(), value: 4u8 };
    assert_eq!(try_unwrap(v, &"U16".to_string()), Err(WRONG_VARIANT));
    assert_eq!(u16::try_from(NumberHolder::U8(4)), Err(WRONG_VARIANT));
}

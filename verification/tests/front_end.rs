use quote::ToTokens;
use validation::compiler::{derive_field_validation, impl_field_validation};
use validation::diagnostic::{Diagnostic, Flaw};
use validation::quotation::PassingConvention;
use validation::syntax;

fn definition(source: &str) -> syntax::DeriveInput {
    let parsed: syn::DeriveInput = syn::parse_str(source).unwrap();
    let (impl_generics, type_generics, where_clause) = parsed.generics.split_for_impl();
    syntax::DeriveInput {
        ident: parsed.ident.to_string(),
        impl_generics: impl_generics.to_token_stream().to_string(),
        type_generics: type_generics.to_token_stream().to_string(),
        where_clause: where_clause.to_token_stream().to_string(),
        data: match &parsed.data {
            syn::Data::Struct(s) => syntax::Data::Struct(s.fields.iter().map(field).collect()),
            syn::Data::Enum(_) => syntax::Data::Enum,
            syn::Data::Union(_) => syntax::Data::Union,
        },
    }
}

fn field(f: &syn::Field) -> syntax::Field {
    syntax::Field {
        ident: f.ident.as_ref().map(|i| i.to_string()),
        ty: match &f.ty {
            syn::Type::Path(p) => syntax::Type::Path(p.path.to_token_stream().to_string()),
            syn::Type::Reference(r) => syntax::Type::Reference {
                lifetime: r.lifetime.is_some(),
                elem: r.elem.to_token_stream().to_string(),
            },
            other => syntax::Type::Other(other.to_token_stream().to_string()),
        },
        attrs: f.attrs.iter().map(attribute).collect(),
    }
}

fn attribute(a: &syn::Attribute) -> syntax::Attribute {
    syntax::Attribute { path: path(&a.path), meta: a.parse_meta().ok().as_ref().map(meta) }
}

fn path(p: &syn::Path) -> syntax::Path {
    syntax::Path {
        leading_colon: p.leading_colon.is_some(),
        segments: p.segments.iter().map(|s| s.to_token_stream().to_string()).collect(),
    }
}

fn meta(m: &syn::Meta) -> syntax::Meta {
    match m {
        syn::Meta::Path(p) => syntax::Meta::Path(path(p)),
        syn::Meta::NameValue(nv) => {
            syntax::Meta::NameValue { path: path(&nv.path), lit: lit(&nv.lit) }
        }
        syn::Meta::List(l) => syntax::Meta::List {
            path: path(&l.path),
            nested: l.nested.iter().map(nested_meta).collect(),
        },
    }
}

fn nested_meta(n: &syn::NestedMeta) -> syntax::NestedMeta {
    match n {
        syn::NestedMeta::Meta(m) => syntax::NestedMeta::Meta(meta(m)),
        syn::NestedMeta::Lit(l) => syntax::NestedMeta::Lit(lit(l)),
    }
}

fn lit(l: &syn::Lit) -> syntax::Lit {
    match l {
        syn::Lit::Str(s) => syntax::Lit::Str(s.value()),
        _ => syntax::Lit::Other,
    }
}

#[test]
fn parsed_struct_compiles_to_its_checks() {
    let input = definition(
        "struct Required<'a, T: Clone> where T: Send {
            #[validate(not_null)]
            val: Option<DumbObject>,
            /// A field with documentation.
            #[serde(rename = \"other\", default)]
            #[validate(not_null)]
            val_2: Option<T>,
            free: std::collections::HashMap<String, u8>,
            #[validate(not_null)]
            text: std::borrow::Cow<'a, str>,
            #[validate(not_null)]
            borrowed: &'a str,
            #[validate(not_null)]
            count: u32,
        }",
    );
    let routine = impl_field_validation(&input).unwrap();
    assert_eq!("Required", routine.target);
    let seen: Vec<(&str, &str, PassingConvention)> =
        routine.checks.iter().map(|c| (c.ident.as_str(), c.name.as_str(), c.convention)).collect();
    assert_eq!(
        vec![
            ("val", "val", PassingConvention::Unmodified),
            ("val_2", "other", PassingConvention::Unmodified),
            ("text", "text", PassingConvention::ByReference),
            ("borrowed", "borrowed", PassingConvention::AsIs),
            ("count", "count", PassingConvention::ByReference),
        ],
        seen
    );
}

#[test]
fn emitted_routine_is_an_impl_of_one_method() {
    let input = definition(
        "struct Required<T: Clone> where T: Send {
            #[validate(not_null)]
            val: Option<T>,
            #[validate(not_null)]
            val_2: Option<T>,
        }",
    );
    let text = derive_field_validation(&input).unwrap();
    let parsed: syn::ItemImpl = syn::parse_str(&text).unwrap();
    assert_eq!(1, parsed.items.len());
    let method = match &parsed.items[0] {
        syn::ImplItem::Method(m) => m,
        other => panic!("no method: {}", other.to_token_stream()),
    };
    assert_eq!("validate_fields", method.sig.ident.to_string());
    assert_eq!(4, method.block.stmts.len());
    let (_, of_trait, _) = parsed.trait_.as_ref().unwrap();
    assert_eq!(":: validation :: FieldValidation", of_trait.to_token_stream().to_string());
    assert_eq!("Required < T >", parsed.self_ty.to_token_stream().to_string());
    assert!(parsed.generics.where_clause.is_some());
}

#[test]
fn parsed_problems_are_reported() {
    let d = impl_field_validation(&definition("struct Pair(#[validate(not_null)] Option<u8>, u8);"));
    assert_eq!(Diagnostic::UnnamedFields, d.unwrap_err());
    let d = impl_field_validation(&definition("enum Choice { A, B }"));
    assert_eq!(Diagnostic::NotAStruct, d.unwrap_err());
    let d = impl_field_validation(&definition("struct S { #[validate(not_empty)] val: Option<u8> }"));
    assert_eq!(
        Diagnostic::UnknownRule { field: "val".to_string(), rule: "not_empty".to_string() },
        d.unwrap_err()
    );
    let d = impl_field_validation(&definition("struct S { #[validate()] val: Option<u8> }"));
    assert_eq!(Diagnostic::NoRules { field: "val".to_string() }, d.unwrap_err());
    let d = impl_field_validation(&definition("struct S { #[validate] val: Option<u8> }"));
    assert_eq!(Diagnostic::UnexpectedPath { field: "val".to_string() }, d.unwrap_err());
    let d = impl_field_validation(&definition("struct S { #[validate = \"x\"] val: Option<u8> }"));
    assert_eq!(Diagnostic::UnexpectedNameValue { field: "val".to_string() }, d.unwrap_err());
    let d = impl_field_validation(&definition("struct S { #[validate(a::b)] val: Option<u8> }"));
    assert_eq!(
        Diagnostic::Malformed { field: "val".to_string(), flaw: Flaw::QualifiedName },
        d.unwrap_err()
    );
    let d = impl_field_validation(&definition("struct S { #[validate(\"x\")] val: Option<u8> }"));
    assert_eq!(
        Diagnostic::Malformed { field: "val".to_string(), flaw: Flaw::Literal },
        d.unwrap_err()
    );
    let d = impl_field_validation(&definition("struct S { #[serde(rename = 5)] val: Option<u8> }"));
    assert_eq!(
        Diagnostic::Malformed { field: "val".to_string(), flaw: Flaw::RenameNotText },
        d.unwrap_err()
    );
    let d = impl_field_validation(&definition("struct S { #[validate(not_null; x)] val: u8 }"));
    assert_eq!(
        Diagnostic::Malformed { field: "val".to_string(), flaw: Flaw::NotAMeta },
        d.unwrap_err()
    );
    let d = impl_field_validation(&definition("struct S { pair: (u8, u8) }"));
    assert_eq!(
        Diagnostic::UnsupportedType { field: "pair".to_string(), ty: "(u8 , u8)".to_string() },
        d.unwrap_err()
    );
}

#[test]
fn parsed_rename_beside_other_items_names_the_field() {
    let input = definition(
        "struct Wrapper<T> {
            #[serde(rename = \"t\", bound(serialize = \"T: Clone\"))]
            #[validate(not_null)]
            val: Option<T>,
            #[serde(bound(serialize = \"T: Clone\"), rename = \"u\", default)]
            #[validate(not_null)]
            other: Option<T>,
            #[serde(rename(serialize = \"s\", deserialize = \"d\"))]
            #[validate(not_null)]
            both: Option<T>,
        }",
    );
    let routine = impl_field_validation(&input).unwrap();
    let seen: Vec<(&str, &str)> =
        routine.checks.iter().map(|c| (c.ident.as_str(), c.name.as_str())).collect();
    assert_eq!(vec![("val", "t"), ("other", "u"), ("both", "both")], seen);
}

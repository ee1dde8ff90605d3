use validation::field_validation::FieldValidation;
use validation::quotation::{
    classify, create_field_validation, create_not_null_validation, number_type, quote_err,
    FieldQuoter, PassingConvention, TypeClass, COW_TYPE, NUMBER_TYPES,
};
use validation::types::ValidationType;

fn quoter(ty: &str) -> FieldQuoter {
    FieldQuoter::new("val".to_string(), "value".to_string(), ty.to_string())
}

#[test]
fn optional_wins_over_every_other_class() {
    assert_eq!(TypeClass::Optional, classify("Option<i32>", false));
    assert_eq!(TypeClass::Optional, classify("Option<Option<u8>>", false));
    assert_eq!(TypeClass::Optional, classify("Option<Cow<'a,str>>", true));
    assert_eq!(TypeClass::Optional, quoter("Option<Cow<'a,str>>").class());
}

#[test]
fn classes_in_their_order() {
    assert_eq!(TypeClass::StringLike, classify("&Cow<'a,str>", true));
    assert_eq!(TypeClass::Reference, classify("&str", false));
    assert_eq!(TypeClass::Numeric, classify("u64", false));
    assert_eq!(TypeClass::Numeric, classify("f32", false));
    assert_eq!(TypeClass::Owned, classify("String", false));
    assert_eq!(TypeClass::Owned, classify("U64", false));
    assert_eq!(TypeClass::Owned, classify("", false));
}

#[test]
fn number_types_are_a_closed_set() {
    assert_eq!(36, NUMBER_TYPES.len());
    for ty in NUMBER_TYPES.iter() {
        assert!(number_type(ty));
    }
    assert!(!number_type("u128"));
    assert!(!number_type("Option<Option<Option<u8>>>"));
    assert!(!number_type("usize "));
}

#[test]
fn string_like_is_decided_by_the_pattern() {
    assert_eq!("Cow<'[a-z]+,str>", COW_TYPE);
    assert_eq!(TypeClass::StringLike, quoter("Cow<'a,str>").class());
    assert_eq!(TypeClass::StringLike, quoter("Cow<'static,str>").class());
    assert_eq!(TypeClass::StringLike, quoter("std::borrow::Cow<'a,str>").class());
    assert_eq!(TypeClass::StringLike, quoter("Vec<Cow<'a,str>>").class());
    assert_eq!(TypeClass::Owned, quoter("Cow<'A,str>").class());
    assert_eq!(TypeClass::Owned, quoter("Cow<',str>").class());
    assert_eq!(TypeClass::Owned, quoter("Cow<'a,[u8]>").class());
    assert_eq!(TypeClass::Owned, quoter("Cow<'[a-z]+,str>").class());
    assert_eq!(TypeClass::Owned, quoter("String").class());
}

#[test]
fn conventions_of_the_classes() {
    assert_eq!(PassingConvention::Unmodified, TypeClass::Optional.convention());
    assert_eq!(PassingConvention::ByReference, TypeClass::StringLike.convention());
    assert_eq!(PassingConvention::ByReference, TypeClass::Numeric.convention());
    assert_eq!(PassingConvention::AsIs, TypeClass::Reference.convention());
    assert_eq!(PassingConvention::ByValue, TypeClass::Owned.convention());
}

#[test]
fn parameter_of_each_class() {
    assert_eq!("self.val", quoter("Option<String>").quote_validate_parameter());
    assert_eq!("&self.val.as_ref()", quoter("Cow<'a,str>").quote_validate_parameter());
    assert_eq!("self.val", quoter("&str").quote_validate_parameter());
    assert_eq!("&self.val", quoter("i32").quote_validate_parameter());
    assert_eq!("self.val", quoter("String").quote_validate_parameter());
    assert_eq!("self.val", quoter("Option<i32>").quote_validate_parameter());
    assert_eq!("self.val", quoter("&Cow<'a,[u8]>").quote_validate_parameter());
}

#[test]
fn error_statement_carries_the_code() {
    let request = FieldValidation::new(ValidationType::NotNull);
    assert_eq!(
        "let mut err = ::validation::ValidationError::FieldMismatch(\"not_null\".to_string());",
        quote_err(&request)
    );
}

#[test]
fn not_null_check_looks_at_the_declared_field() {
    let request = FieldValidation::new(ValidationType::NotNull);
    let check = create_not_null_validation(&quoter("Option<String>"), &request);
    assert_eq!("val", check.ident);
    assert_eq!("value", check.name);
    assert_eq!(PassingConvention::Unmodified, check.convention);
    assert_eq!(ValidationType::NotNull, check.validator);
    assert_eq!("not_null", check.code);
    assert_eq!(
        "if !::validation::is_not_null(&self.val) { let mut err = ::validation::ValidationError::FieldMismatch(\"not_null\".to_string()); errors.push(err) }",
        check.source
    );
}

#[test]
fn checks_are_added_at_the_end() {
    let request = FieldValidation::new(ValidationType::NotNull);
    let mut checks = Vec::new();
    create_field_validation(&quoter("Option<String>"), &request, &mut checks);
    let other = FieldQuoter::new("b".to_string(), "b".to_string(), "Option<u8>".to_string());
    create_field_validation(&other, &request, &mut checks);
    assert_eq!(2, checks.len());
    assert_eq!("val", checks[0].ident);
    assert_eq!("b", checks[1].ident);
}

#[test]
fn check_records_the_convention_of_the_field_type() {
    let request = FieldValidation::new(ValidationType::NotNull);
    let check = create_not_null_validation(&quoter("Cow<'a,str>"), &request);
    assert_eq!(PassingConvention::ByReference, check.convention);
    let check = create_not_null_validation(&quoter("&Cow<'a,[u8]>"), &request);
    assert_eq!(PassingConvention::AsIs, check.convention);
    let check = create_not_null_validation(&quoter("Vec<u8>"), &request);
    assert_eq!(PassingConvention::ByValue, check.convention);
}

use validation::compiler::impl_field_validation;
use validation::routine::{ObjectField, ObjectInstance};
use validation::syntax::{Attribute, Data, DeriveInput, Field, Meta, NestedMeta, Path, Type};
use validation::{FieldValidation, ValidationError, ValidationResult};

#[allow(dead_code)]
struct DumbObject {
    name: String,
}

struct Required {
    val: Option<DumbObject>,
    val_2: Option<DumbObject>,
}

fn path(name: &str) -> Path {
    Path { leading_colon: false, segments: vec![name.to_string()] }
}

fn not_null() -> Attribute {
    Attribute {
        path: path("validate"),
        meta: Some(Meta::List {
            path: path("validate"),
            nested: vec![NestedMeta::Meta(Meta::Path(path("not_null")))],
        }),
    }
}

fn required() -> DeriveInput {
    DeriveInput {
        ident: "Required".to_string(),
        impl_generics: String::new(),
        type_generics: String::new(),
        where_clause: String::new(),
        data: Data::Struct(vec![
            Field {
                ident: Some("val".to_string()),
                ty: Type::Path("Option < DumbObject >".to_string()),
                attrs: vec![not_null()],
            },
            Field {
                ident: Some("val_2".to_string()),
                ty: Type::Path("Option < DumbObject >".to_string()),
                attrs: vec![not_null()],
            },
        ]),
    }
}

impl FieldValidation for Required {
    fn validate_fields(&self) -> ValidationResult<()> {
        let routine = impl_field_validation(&required()).unwrap();
        let object = ObjectInstance {
            fields: vec![
                ObjectField { ident: "val".to_string(), value: self.val.as_ref() },
                ObjectField { ident: "val_2".to_string(), value: self.val_2.as_ref() },
            ],
        };
        routine.validate_fields(&object)
    }
}

#[test]
fn validate_not_null_successful() {
    let r = Required {
        val: Some(DumbObject { name: String::new() }),
        val_2: Some(DumbObject { name: String::new() }),
    };

    assert!(r.validate_fields().is_ok());
}

#[test]
fn validate_not_null_failed_one_null() {
    let r = Required { val: Some(DumbObject { name: String::new() }), val_2: None };

    assert!(r.validate_fields().is_err());
}

#[test]
fn validate_not_null_failed_both_null() {
    let r = Required { val: None, val_2: None };

    assert!(r.validate_fields().is_err());
}

#[test]
fn all_present_is_ok() {
    let r = Required {
        val: Some(DumbObject { name: String::new() }),
        val_2: Some(DumbObject { name: String::new() }),
    };
    assert_eq!(Ok(()), r.validate_fields());
}

#[test]
fn one_absent_is_a_not_null_mismatch() {
    let r = Required { val: Some(DumbObject { name: String::new() }), val_2: None };
    assert_eq!(Err(ValidationError::FieldMismatch("not_null".to_string())), r.validate_fields());
    let r = Required { val: None, val_2: Some(DumbObject { name: String::new() }) };
    assert_eq!(Err(ValidationError::FieldMismatch("not_null".to_string())), r.validate_fields());
}

#[test]
fn both_absent_is_the_same_mismatch() {
    let r = Required { val: None, val_2: None };
    assert_eq!(Err(ValidationError::FieldMismatch("not_null".to_string())), r.validate_fields());
}

#[test]
fn validating_through_a_reference_is_validating_the_object() {
    let missing = Required { val: None, val_2: None };
    assert_eq!(missing.validate_fields(), (&missing).validate_fields());
    assert_eq!(
        Err(ValidationError::FieldMismatch("not_null".to_string())),
        (&missing).validate_fields()
    );
    let full = Required {
        val: Some(DumbObject { name: String::new() }),
        val_2: Some(DumbObject { name: String::new() }),
    };
    assert_eq!(Ok(()), (&full).validate_fields());
    assert_eq!(Ok(()), (&&full).validate_fields());
}

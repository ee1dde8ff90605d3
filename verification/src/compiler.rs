//! The compiler: from the definition of a struct to its validation routine.
use crate::diagnostic::{Diagnostic, Flaw, Problem};
use crate::field_validation::{request_for, FieldValidation, RuleRequest};
use crate::lit::lit_to_string;
use crate::quotation::{check_for, create_field_validation, FieldQuoter, QuoterView};
use crate::routine::{check_views, CheckView, CompiledCheck, RoutineView, ValidationRoutine};
use crate::syntax::{text_of, Attribute, Data, DeriveInput, Family, Field, Meta, NestedMeta, Type};
use crate::text::{same_text, strip_spaces, with_prefix, without_spaces};
use crate::types::{rule_named, ValidationType};
use vstd::prelude::*;

verus! {

/// The new name that the items of a rename annotation give, read from the
/// item at `from` on, when `found` is what the items before it gave.
///
/// Items are read in their order. A bare path says nothing. `rename = "x"`
/// gives the name `x`; any other `key = value` says nothing. A nested list
/// gives the name that its own items give, if they give one, and says nothing
/// otherwise. Of several names the last one stands, so that a name that was
/// given is never lost to an item that gives none. A literal, a key of
/// several segments and a `rename` whose value is no string are flaws, in a
/// nested list too.
pub open spec fn original_name_from(
    items: Seq<NestedMeta>,
    from: int,
    found: Option<Seq<char>>,
) -> Result<Option<Seq<char>>, Flaw>
    decreases items, items.len() - from,
{
    if from < 0 || from >= items.len() {
        Ok(found)
    } else {
        match items[from] {
            NestedMeta::Lit(_) => Err(Flaw::Literal),
            NestedMeta::Meta(Meta::Path(_)) => original_name_from(items, from + 1, found),
            NestedMeta::Meta(Meta::NameValue { path, lit }) => match path.ident_text() {
                None => Err(Flaw::QualifiedName),
                Some(key) => if key == "rename"@ {
                    match lit.text() {
                        None => Err(Flaw::RenameNotText),
                        Some(name) => original_name_from(items, from + 1, Some(name)),
                    }
                } else {
                    original_name_from(items, from + 1, found)
                },
            },
            NestedMeta::Meta(Meta::List { path, nested }) => match original_name_from(
                nested@,
                0,
                None,
            ) {
                Err(flaw) => Err(flaw),
                Ok(Some(name)) => original_name_from(items, from + 1, Some(name)),
                Ok(None) => original_name_from(items, from + 1, found),
            },
        }
    }
}

/// The new name that the items of a rename annotation give, if they give one.
pub open spec fn original_name(items: Seq<NestedMeta>) -> Result<Option<Seq<char>>, Flaw> {
    original_name_from(items, 0, None)
}

/// Whether a result of reading a new name is the one that the items give.
pub open spec fn is_original_name(
    r: Result<Option<String>, Flaw>,
    items: Seq<NestedMeta>,
) -> bool {
    match r {
        Ok(name) => original_name(items) == Ok::<Option<Seq<char>>, Flaw>(text_of(name)),
        Err(flaw) => original_name(items) == Err::<Option<Seq<char>>, Flaw>(flaw),
    }
}

/// Finds the new name that the items of a rename annotation give to a field.
pub fn find_original_name(meta_items: &Vec<NestedMeta>) -> (r: Result<Option<String>, Flaw>)
    ensures
        is_original_name(r, meta_items@),
    decreases meta_items,
{
    let mut original_name: Option<String> = None;
    let n: usize = meta_items.len();
    let mut i: usize = 0;
    while i < n
        invariant
            n == meta_items@.len(),
            i <= n,
            self::original_name(meta_items@) == original_name_from(
                meta_items@,
                i as int,
                text_of(original_name),
            ),
        decreases n - i,
    {
        match &meta_items[i] {
            NestedMeta::Meta(item) => match item {
                Meta::Path(_) => {},
                Meta::NameValue { path, lit } => {
                    match path.get_ident() {
                        None => {
                            return Err(Flaw::QualifiedName);
                        },
                        Some(ident) => {
                            if same_text(ident.as_str(), "rename") {
                                match lit_to_string(lit) {
                                    None => {
                                        return Err(Flaw::RenameNotText);
                                    },
                                    Some(name) => {
                                        original_name = Some(name);
                                    },
                                }
                            }
                        },
                    }
                },
                Meta::List { path, nested } => {
                    match find_original_name(nested) {
                        Err(flaw) => {
                            return Err(flaw);
                        },
                        Ok(Some(name)) => {
                            original_name = Some(name);
                        },
                        Ok(None) => {},
                    }
                },
            },
            NestedMeta::Lit(_) => {
                return Err(Flaw::Literal);
            },
        }
        i += 1;
    }
    Ok(original_name)
}

/// The descriptor of a field's type, if the type is of a shape that has one.
/// That of a path is its text without spaces. That of a reference is the
/// text, without spaces, of the type referred to, with `&` in front of it
/// where the reference names a lifetime.
pub open spec fn type_descriptor(ty: Type) -> Option<Seq<char>> {
    match ty {
        Type::Path(text) => Some(strip_spaces(text@)),
        Type::Reference { lifetime, elem } => Some(
            if lifetime {
                seq!['&'] + strip_spaces(elem@)
            } else {
                strip_spaces(elem@)
            },
        ),
        Type::Other(_) => None,
    }
}

/// What stands in the way of describing the type of a field, if anything
/// does: the field has no name, or its type has no descriptor.
pub open spec fn type_problem(field: Field) -> Option<Problem> {
    match field.ident {
        None => Some(Problem::UnnamedFields),
        Some(ident) => match field.ty {
            Type::Other(text) => Some(Problem::UnsupportedType { field: ident@, ty: text@ }),
            _ => None,
        },
    }
}

/// The type problem of the first field from `from` on that has one.
pub open spec fn first_type_problem(fields: Seq<Field>, from: int) -> Option<Problem>
    decreases fields.len() - from,
{
    if from < 0 || from >= fields.len() {
        None
    } else {
        match type_problem(fields[from]) {
            Some(p) => Some(p),
            None => first_type_problem(fields, from + 1),
        }
    }
}

/// The name of a field and the descriptor of its type.
pub open spec fn type_entry(field: Field) -> (Seq<char>, Seq<char>) {
    (text_of(field.ident)->0, type_descriptor(field.ty)->0)
}

/// The entries of a list of field types, as characters.
pub open spec fn entry_views(types: Seq<(String, String)>) -> Seq<(Seq<char>, Seq<char>)> {
    Seq::new(types.len(), |i: int| (types[i].0@, types[i].1@))
}

/// The type that the entries give for a field: that of the last entry under
/// the field's name.
pub open spec fn latest_type(
    entries: Seq<(Seq<char>, Seq<char>)>,
    ident: Seq<char>,
) -> Option<Seq<char>>
    decreases entries.len(),
{
    if entries.len() == 0 {
        None
    } else if entries.last().0 == ident {
        Some(entries.last().1)
    } else {
        latest_type(entries.drop_last(), ident)
    }
}

/// Every name that has an entry has a type.
pub proof fn lemma_latest_type_exists(entries: Seq<(Seq<char>, Seq<char>)>, i: int)
    requires
        0 <= i < entries.len(),
    ensures
        latest_type(entries, entries[i].0) is Some,
    decreases entries.len(),
{
    if entries.last().0 != entries[i].0 {
        lemma_latest_type_exists(entries.drop_last(), i);
    }
}

/// Finds the descriptor of each field's type. The result holds one entry for
/// each field, in the order of the fields.
pub fn get_field_types(fields: &Vec<Field>) -> (r: Result<Vec<(String, String)>, Diagnostic>)
    ensures
        match r {
            Ok(types) => first_type_problem(fields@, 0) is None && entry_views(types@)
                == type_entries(fields@),
            Err(d) => first_type_problem(fields@, 0) == Some(d@),
        },
{
    let mut types: Vec<(String, String)> = Vec::new();
    let n: usize = fields.len();
    let mut i: usize = 0;
    assert(entry_views(types@) =~= type_entries(fields@).take(0));
    while i < n
        invariant
            n == fields@.len(),
            i <= n,
            first_type_problem(fields@, 0) == first_type_problem(fields@, i as int),
            entry_views(types@) == type_entries(fields@).take(i as int),
        decreases n - i,
    {
        let field = &fields[i];
        let field_identity = match &field.ident {
            Some(ident) => ident.clone(),
            None => {
                return Err(Diagnostic::UnnamedFields);
            },
        };
        let field_type = match &field.ty {
            Type::Path(text) => without_spaces(text.as_str()),
            Type::Reference { lifetime, elem } => {
                let name = without_spaces(elem.as_str());
                if *lifetime {
                    with_prefix('&', name.as_str())
                } else {
                    name
                }
            },
            Type::Other(text) => {
                return Err(
                    Diagnostic::UnsupportedType { field: field_identity, ty: text.clone() },
                );
            },
        };
        let ghost before = entry_views(types@);
        types.push((field_identity, field_type));
        assert(entry_views(types@) =~= before.push(type_entry(fields@[i as int])));
        assert(entry_views(types@) =~= type_entries(fields@).take(i + 1));
        i += 1;
    }
    assert(type_entries(fields@).take(n as int) =~= type_entries(fields@));
    Ok(types)
}

/// Looks up the type that the entries give for a field.
pub fn field_type<'a>(types: &'a Vec<(String, String)>, ident: &str) -> (r: Option<&'a String>)
    ensures
        match r {
            Some(ty) => latest_type(entry_views(types@), ident@) == Some(ty@),
            None => latest_type(entry_views(types@), ident@) is None,
        },
{
    let mut i: usize = types.len();
    assert(entry_views(types@).take(i as int) =~= entry_views(types@));
    while i > 0
        invariant
            i <= types@.len(),
            latest_type(entry_views(types@), ident@) == latest_type(
                entry_views(types@).take(i as int),
                ident@,
            ),
        decreases i,
    {
        i -= 1;
        assert(entry_views(types@).take(i + 1).drop_last() =~= entry_views(types@).take(i as int));
        assert(entry_views(types@).take(i + 1).last() == (types@[i as int].0@, types@[i as int].1@));
        if same_text(types[i].0.as_str(), ident) {
            return Some(&types[i].1);
        }
    }
    None
}

/// The name that an item of a rule annotation is written with.
pub open spec fn item_name(item: NestedMeta) -> Option<Seq<char>> {
    match item {
        NestedMeta::Lit(_) => None,
        NestedMeta::Meta(Meta::Path(path)) => path.ident_text(),
        NestedMeta::Meta(Meta::NameValue { path, lit }) => path.ident_text(),
        NestedMeta::Meta(Meta::List { path, nested }) => path.ident_text(),
    }
}

/// What is wrong with an item of a rule annotation of the field `field`, if
/// anything is. An item is in order if it is the bare name of a rule of the
/// registry. A literal and a name of several segments are flaws; any other
/// item names a rule that is not known.
pub open spec fn item_problem(field: Seq<char>, item: NestedMeta) -> Option<Problem> {
    match item {
        NestedMeta::Lit(_) => Some(Problem::Malformed { field, flaw: Flaw::Literal }),
        NestedMeta::Meta(meta) => match item_name(item) {
            None => Some(Problem::Malformed { field, flaw: Flaw::QualifiedName }),
            Some(name) => if meta is Path && rule_named(name) is Some {
                None
            } else {
                Some(Problem::UnknownRule { field, rule: name })
            },
        },
    }
}

/// The rule that an item of a rule annotation asks for, where the item is in
/// order.
pub open spec fn item_rule(item: NestedMeta) -> ValidationType {
    rule_named(item_name(item)->0)->0
}

/// The problem of the first item from `from` on that has one.
pub open spec fn first_item_problem(
    field: Seq<char>,
    items: Seq<NestedMeta>,
    from: int,
) -> Option<Problem>
    decreases items.len() - from,
{
    if from < 0 || from >= items.len() {
        None
    } else {
        match item_problem(field, items[from]) {
            Some(p) => Some(p),
            None => first_item_problem(field, items, from + 1),
        }
    }
}

/// The rules that the items of a rule annotation ask for, in their order.
pub open spec fn item_rules(items: Seq<NestedMeta>) -> Seq<ValidationType> {
    Seq::new(items.len(), |k: int| item_rule(items[k]))
}

/// The values of a sequence of rule requests, in their order.
pub open spec fn request_views(requests: Seq<FieldValidation>) -> Seq<RuleRequest> {
    Seq::new(requests.len(), |i: int| requests[i]@)
}

/// The requests, as the registry describes them, for a sequence of rules.
pub open spec fn requests_for(rules: Seq<ValidationType>) -> Seq<RuleRequest> {
    Seq::new(rules.len(), |i: int| request_for(rules[i]))
}

/// Reads the rule that one item of a rule annotation of the field asks for.
pub fn read_rule(field: &String, item: &NestedMeta) -> (r: Result<ValidationType, Diagnostic>)
    ensures
        match r {
            Ok(rule) => item_problem(field@, *item) is None && rule == item_rule(*item),
            Err(d) => item_problem(field@, *item) == Some(d@),
        },
{
    match item {
        NestedMeta::Meta(meta) => match meta {
            Meta::Path(name) => match name.get_ident() {
                None => Err(Diagnostic::Malformed { field: field.clone(), flaw: Flaw::QualifiedName }),
                Some(ident) => match ValidationType::lookup(ident.as_str()) {
                    Some(rule) => Ok(rule),
                    None => Err(
                        Diagnostic::UnknownRule { field: field.clone(), rule: ident.clone() },
                    ),
                },
            },
            Meta::NameValue { path, lit } => match path.get_ident() {
                None => Err(Diagnostic::Malformed { field: field.clone(), flaw: Flaw::QualifiedName }),
                Some(ident) => Err(
                    Diagnostic::UnknownRule { field: field.clone(), rule: ident.clone() },
                ),
            },
            Meta::List { path, nested } => match path.get_ident() {
                None => Err(Diagnostic::Malformed { field: field.clone(), flaw: Flaw::QualifiedName }),
                Some(ident) => Err(
                    Diagnostic::UnknownRule { field: field.clone(), rule: ident.clone() },
                ),
            },
        },
        NestedMeta::Lit(_) => Err(
            Diagnostic::Malformed { field: field.clone(), flaw: Flaw::Literal },
        ),
    }
}

/// What is wrong with an annotation of the field `field`, if anything is.
/// An annotation of neither family is not looked at. One of either family
/// must hold a list. The items of a rename annotation must give a new name
/// without a flaw; those of a rule annotation must each name a rule of the
/// registry, and there must be at least one.
pub open spec fn attr_problem(field: Seq<char>, attr: Attribute) -> Option<Problem> {
    if attr.family_of() == Family::Other {
        None
    } else {
        match attr.meta {
            None => Some(Problem::Malformed { field, flaw: Flaw::NotAMeta }),
            Some(Meta::Path(_)) => Some(Problem::UnexpectedPath { field }),
            Some(Meta::NameValue { path, lit }) => Some(Problem::UnexpectedNameValue { field }),
            Some(Meta::List { path, nested }) => if attr.family_of() == Family::Rename {
                match original_name(nested@) {
                    Err(flaw) => Some(Problem::Malformed { field, flaw }),
                    Ok(_) => None,
                }
            } else {
                match first_item_problem(field, nested@, 0) {
                    Some(p) => Some(p),
                    None => if nested@.len() == 0 {
                        Some(Problem::NoRules { field })
                    } else {
                        None
                    },
                }
            },
        }
    }
}

/// The rules that an annotation asks for: those of its items if it is a rule
/// annotation, and none otherwise.
pub open spec fn attr_rules(attr: Attribute) -> Seq<ValidationType> {
    match attr.meta {
        Some(Meta::List { path, nested }) => if attr.family_of() == Family::Rule {
            item_rules(nested@)
        } else {
            Seq::empty()
        },
        _ => Seq::empty(),
    }
}

/// The new name that an annotation gives to its field: that of its items if
/// it is a rename annotation, and none otherwise.
pub open spec fn attr_rename(attr: Attribute) -> Option<Seq<char>> {
    match attr.meta {
        Some(Meta::List { path, nested }) => if attr.family_of() == Family::Rename {
            match original_name(nested@) {
                Ok(name) => name,
                Err(_) => None,
            }
        } else {
            None
        },
        _ => None,
    }
}

/// The problem of the first annotation from `from` on that has one.
pub open spec fn first_attr_problem(
    field: Seq<char>,
    attrs: Seq<Attribute>,
    from: int,
) -> Option<Problem>
    decreases attrs.len() - from,
{
    if from < 0 || from >= attrs.len() {
        None
    } else {
        match attr_problem(field, attrs[from]) {
            Some(p) => Some(p),
            None => first_attr_problem(field, attrs, from + 1),
        }
    }
}

/// The rules that the annotations of a field ask for: those of each
/// annotation, in the order of the annotations.
pub open spec fn requested_rules(attrs: Seq<Attribute>) -> Seq<ValidationType>
    decreases attrs.len(),
{
    if attrs.len() == 0 {
        Seq::empty()
    } else {
        requested_rules(attrs.drop_last()) + attr_rules(attrs.last())
    }
}

/// The name that a field is known by outside: the new name of the last of
/// its annotations that gives one, and the name it is declared under if none
/// does.
pub open spec fn external_name(ident: Seq<char>, attrs: Seq<Attribute>) -> Seq<char>
    decreases attrs.len(),
{
    if attrs.len() == 0 {
        ident
    } else {
        match attr_rename(attrs.last()) {
            Some(name) => name,
            None => external_name(ident, attrs.drop_last()),
        }
    }
}

/// What is wrong with the annotations of a field, if anything is: the field
/// has no name, or one of its annotations has a problem, of which the first
/// is reported.
pub open spec fn annotation_problem(field: Field) -> Option<Problem> {
    match field.ident {
        None => Some(Problem::UnnamedFields),
        Some(ident) => first_attr_problem(ident@, field.attrs@, 0),
    }
}

/// Reads the rules that the items of one rule annotation of the field ask
/// for, and adds a request for each to `validators`.
pub fn read_rules(
    field: &String,
    items: &Vec<NestedMeta>,
    validators: &mut Vec<FieldValidation>,
) -> (r: Result<(), Diagnostic>)
    ensures
        match r {
            Ok(_) => first_item_problem(field@, items@, 0) is None && request_views(
                final(validators)@,
            ) == request_views(old(validators)@) + requests_for(item_rules(items@)),
            Err(d) => first_item_problem(field@, items@, 0) == Some(d@),
        },
{
    let n: usize = items.len();
    let mut k: usize = 0;
    assert(request_views(validators@) =~= request_views(old(validators)@) + requests_for(
        item_rules(items@).take(0),
    ));
    while k < n
        invariant
            n == items@.len(),
            k <= n,
            first_item_problem(field@, items@, 0) == first_item_problem(field@, items@, k as int),
            request_views(validators@) == request_views(old(validators)@) + requests_for(
                item_rules(items@).take(k as int),
            ),
        decreases n - k,
    {
        match read_rule(field, &items[k]) {
            Err(d) => {
                return Err(d);
            },
            Ok(rule) => {
                let ghost before = request_views(validators@);
                let request = FieldValidation::new(rule);
                validators.push(request);
                assert(request_views(validators@) =~= before.push(request_for(rule)));
                assert(requests_for(item_rules(items@).take(k + 1)) =~= requests_for(
                    item_rules(items@).take(k as int),
                ).push(request_for(rule)));
                assert(request_views(validators@) =~= request_views(old(validators)@)
                    + requests_for(item_rules(items@).take(k + 1)));
            },
        }
        k += 1;
    }
    assert(item_rules(items@).take(n as int) =~= item_rules(items@));
    Ok(())
}

/// Finds what the annotations of a field say: the name that the field is
/// known by outside, and the rules that are requested for it, in the order in
/// which they are written.
pub fn find_validations_for_field(field: &Field) -> (r: Result<
    (String, Vec<FieldValidation>),
    Diagnostic,
>)
    ensures
        match r {
            Ok((name, validators)) => annotation_problem(*field) is None && name@
                == external_name(text_of(field.ident)->0, field.attrs@) && request_views(
                validators@,
            ) == requests_for(requested_rules(field.attrs@)),
            Err(d) => annotation_problem(*field) == Some(d@),
        },
{
    let rust_identity: &String = match &field.ident {
        Some(ident) => ident,
        None => {
            return Err(Diagnostic::UnnamedFields);
        },
    };
    let mut field_identity: String = rust_identity.clone();
    let mut validators: Vec<FieldValidation> = Vec::new();
    let n: usize = field.attrs.len();
    let mut i: usize = 0;
    assert(field.attrs@.take(0) =~= Seq::<Attribute>::empty());
    assert(request_views(validators@) =~= requests_for(requested_rules(field.attrs@.take(0))));
    while i < n
        invariant
            n == field.attrs@.len(),
            i <= n,
            field.ident == Some(*rust_identity),
            first_attr_problem(rust_identity@, field.attrs@, 0) == first_attr_problem(
                rust_identity@,
                field.attrs@,
                i as int,
            ),
            field_identity@ == external_name(rust_identity@, field.attrs@.take(i as int)),
            request_views(validators@) == requests_for(
                requested_rules(field.attrs@.take(i as int)),
            ),
        decreases n - i,
    {
        let attr = &field.attrs[i];
        proof {
            assert(field.attrs@.take(i + 1).drop_last() =~= field.attrs@.take(i as int));
            assert(field.attrs@.take(i + 1).last() == *attr);
        }
        let ghost rules_before = requested_rules(field.attrs@.take(i as int));
        match attr.family() {
            Family::Other => {
                assert(rules_before + attr_rules(*attr) =~= rules_before);
            },
            Family::Rename => match &attr.meta {
                None => {
                    return Err(
                        Diagnostic::Malformed {
                            field: rust_identity.clone(),
                            flaw: Flaw::NotAMeta,
                        },
                    );
                },
                Some(Meta::Path(_)) => {
                    return Err(Diagnostic::UnexpectedPath { field: rust_identity.clone() });
                },
                Some(Meta::NameValue { path, lit }) => {
                    return Err(Diagnostic::UnexpectedNameValue { field: rust_identity.clone() });
                },
                Some(Meta::List { path, nested }) => {
                    match find_original_name(nested) {
                        Err(flaw) => {
                            return Err(
                                Diagnostic::Malformed { field: rust_identity.clone(), flaw },
                            );
                        },
                        Ok(Some(name)) => {
                            field_identity = name;
                        },
                        Ok(None) => {},
                    }
                    assert(rules_before + attr_rules(*attr) =~= rules_before);
                },
            },
            Family::Rule => match &attr.meta {
                None => {
                    return Err(
                        Diagnostic::Malformed {
                            field: rust_identity.clone(),
                            flaw: Flaw::NotAMeta,
                        },
                    );
                },
                Some(Meta::Path(_)) => {
                    return Err(Diagnostic::UnexpectedPath { field: rust_identity.clone() });
                },
                Some(Meta::NameValue { path, lit }) => {
                    return Err(Diagnostic::UnexpectedNameValue { field: rust_identity.clone() });
                },
                Some(Meta::List { path, nested }) => {
                    match read_rules(rust_identity, nested, &mut validators) {
                        Err(d) => {
                            return Err(d);
                        },
                        Ok(_) => {},
                    }
                    if nested.len() == 0 {
                        return Err(Diagnostic::NoRules { field: rust_identity.clone() });
                    }
                    assert(request_views(validators@) =~= requests_for(
                        rules_before + attr_rules(*attr),
                    ));
                },
            },
        }
        i += 1;
    }
    assert(field.attrs@.take(n as int) =~= field.attrs@);
    Ok((field_identity, validators))
}

/// The names of the fields and the descriptors of their types, one entry for
/// each field.
pub open spec fn type_entries(fields: Seq<Field>) -> Seq<(Seq<char>, Seq<char>)> {
    Seq::new(fields.len(), |i: int| type_entry(fields[i]))
}

/// What the checks of a field are written from, given the types of the
/// fields of the struct.
pub open spec fn quoter_of(field: Field, types: Seq<(Seq<char>, Seq<char>)>) -> QuoterView {
    let ident = text_of(field.ident)->0;
    QuoterView {
        ident,
        name: external_name(ident, field.attrs@),
        ty: latest_type(types, ident)->0,
    }
}

/// The checks of a field, given the types of the fields of the struct: one
/// for each rule that its annotations ask for, in their order. Each looks at
/// the field under the name that it is declared with.
pub open spec fn field_checks(field: Field, types: Seq<(Seq<char>, Seq<char>)>) -> Seq<
    CheckView,
> {
    let rules = requested_rules(field.attrs@);
    Seq::new(rules.len(), |k: int| check_for(quoter_of(field, types), request_for(rules[k])))
}

/// The checks of a sequence of fields, given the types of the fields of the
/// struct: those of each field, in the order of the fields.
pub open spec fn checks_of(fields: Seq<Field>, types: Seq<(Seq<char>, Seq<char>)>) -> Seq<
    CheckView,
>
    decreases fields.len(),
{
    if fields.len() == 0 {
        Seq::empty()
    } else {
        checks_of(fields.drop_last(), types) + field_checks(fields.last(), types)
    }
}

/// The annotation problem of the first field from `from` on that has one.
pub open spec fn first_annotation_problem(fields: Seq<Field>, from: int) -> Option<Problem>
    decreases fields.len() - from,
{
    if from < 0 || from >= fields.len() {
        None
    } else {
        match annotation_problem(fields[from]) {
            Some(p) => Some(p),
            None => first_annotation_problem(fields, from + 1),
        }
    }
}

/// Whether one of the fields has no name.
pub open spec fn has_unnamed(fields: Seq<Field>) -> bool {
    exists|i: int| 0 <= i < fields.len() && (#[trigger] fields[i]).ident is None
}

/// Why a definition has no validation routine, if it has none. Only a struct
/// has one, and only if each of its fields has a name. Then the types of all
/// fields are looked at before any annotation, and the first problem found
/// is the one reported.
pub open spec fn diagnosis(input: DeriveInput) -> Option<Problem> {
    match input.data {
        Data::Struct(fields) => if has_unnamed(fields@) {
            Some(Problem::UnnamedFields)
        } else {
            match first_type_problem(fields@, 0) {
                Some(p) => Some(p),
                None => first_annotation_problem(fields@, 0),
            }
        },
        _ => Some(Problem::NotAStruct),
    }
}

/// The fields of a definition; none for what is no struct.
pub open spec fn fields_of(input: DeriveInput) -> Seq<Field> {
    match input.data {
        Data::Struct(fields) => fields@,
        _ => Seq::empty(),
    }
}

/// The validation routine of a definition that has one.
pub open spec fn routine_of(input: DeriveInput) -> RoutineView {
    RoutineView {
        target: input.ident@,
        impl_generics: input.impl_generics@,
        type_generics: input.type_generics@,
        where_clause: input.where_clause@,
        checks: checks_of(fields_of(input), type_entries(fields_of(input))),
    }
}

/// Whether one of the fields has no name.
pub fn any_unnamed(fields: &Vec<Field>) -> (r: bool)
    ensures
        r == has_unnamed(fields@),
{
    let n: usize = fields.len();
    let mut i: usize = 0;
    while i < n
        invariant
            n == fields@.len(),
            i <= n,
            forall|k: int| 0 <= k < i ==> (#[trigger] fields@[k]).ident is Some,
        decreases n - i,
    {
        if fields[i].ident.is_none() {
            return true;
        }
        i += 1;
    }
    false
}

/// Compiles the validation routine of a definition: for each field in the
/// order of the fields, and for each rule that the field's annotations ask
/// for in the order in which they are written, one check.
///
/// A definition that is no struct, or a struct with a field that has no
/// name, is rejected; so is one with a field whose type is not supported or
/// whose annotations have a problem. Nothing is compiled for a definition
/// that is rejected.
pub fn impl_field_validation(syntax: &DeriveInput) -> (r: Result<ValidationRoutine, Diagnostic>)
    ensures
        match r {
            Ok(routine) => diagnosis(*syntax) is None && routine@ == routine_of(*syntax),
            Err(d) => diagnosis(*syntax) == Some(d@),
        },
        !(syntax.data is Struct) ==> r is Err && r->Err_0@ == Problem::NotAStruct,
        has_unnamed(fields_of(*syntax)) ==> r is Err && r->Err_0@ == Problem::UnnamedFields,
{
    let fields: &Vec<Field> = match &syntax.data {
        Data::Struct(fields) => {
            if any_unnamed(fields) {
                return Err(Diagnostic::UnnamedFields);
            }
            fields
        },
        _ => {
            return Err(Diagnostic::NotAStruct);
        },
    };
    let mut validation_rules: Vec<CompiledCheck> = Vec::new();
    let field_types = match get_field_types(fields) {
        Ok(types) => types,
        Err(d) => {
            return Err(d);
        },
    };
    let n: usize = fields.len();
    let mut i: usize = 0;
    assert(fields@.take(0) =~= Seq::<Field>::empty());
    let ghost types = type_entries(fields@);
    assert(check_views(validation_rules@) =~= checks_of(fields@.take(0), types));
    while i < n
        invariant
            n == fields@.len(),
            i <= n,
            !has_unnamed(fields@),
            syntax.data is Struct,
            fields_of(*syntax) == fields@,
            first_type_problem(fields@, 0) is None,
            types == type_entries(fields@),
            entry_views(field_types@) == types,
            first_annotation_problem(fields@, 0) == first_annotation_problem(fields@, i as int),
            check_views(validation_rules@) == checks_of(fields@.take(i as int), types),
        decreases n - i,
    {
        let field = &fields[i];
        proof {
            assert(fields@.take(i + 1).drop_last() =~= fields@.take(i as int));
            assert(fields@.take(i + 1).last() == *field);
            assert(fields@[i as int].ident is Some);
        }
        let field_identity: String = field.ident.as_ref().unwrap().clone();
        let (name, validations) = match find_validations_for_field(field) {
            Ok(found) => found,
            Err(d) => {
                return Err(d);
            },
        };
        proof {
            lemma_latest_type_exists(entry_views(field_types@), i as int);
        }
        let field_type: String = field_type(&field_types, field_identity.as_str()).unwrap().clone();
        let field_quoter = FieldQuoter::new(field_identity, name, field_type);
        let ghost before = check_views(validation_rules@);
        let ghost wanted = field_checks(*field, types);
        let m: usize = validations.len();
        let mut k: usize = 0;
        assert(wanted.len() == request_views(validations@).len());
        assert(check_views(validation_rules@) =~= before + wanted.take(0));
        while k < m
            invariant
                m == validations@.len(),
                m == wanted.len(),
                k <= m,
                field.ident is Some,
                field_quoter@ == quoter_of(*field, types),
                request_views(validations@) == requests_for(requested_rules(field.attrs@)),
                wanted == field_checks(*field, types),
                check_views(validation_rules@) == before + wanted.take(k as int),
            decreases m - k,
        {
            let ghost sofar = check_views(validation_rules@);
            let validation = &validations[k];
            create_field_validation(&field_quoter, validation, &mut validation_rules);
            proof {
                assert(request_views(validations@)[k as int] == validation@);
                assert(validation_rules@.last()@ == wanted[k as int]);
                assert(check_views(validation_rules@) =~= sofar.push(wanted[k as int]));
                assert(wanted.take(k + 1) =~= wanted.take(k as int).push(wanted[k as int]));
            }
            k += 1;
        }
        assert(wanted.take(m as int) =~= wanted);
        i += 1;
    }
    assert(fields@.take(n as int) =~= fields@);
    Ok(
        ValidationRoutine {
            target: syntax.ident.clone(),
            impl_generics: syntax.impl_generics.clone(),
            type_generics: syntax.type_generics.clone(),
            where_clause: syntax.where_clause.clone(),
            checks: validation_rules,
        },
    )
}

/// Derives the field validation of a definition: the source text of its
/// validation routine, or the report of why it has none.
pub fn derive_field_validation(input: &DeriveInput) -> (r: Result<String, Diagnostic>)
    ensures
        match r {
            Ok(text) => diagnosis(*input) is None && text@ == routine_of(*input).source(),
            Err(d) => diagnosis(*input) == Some(d@),
        },
{
    match impl_field_validation(input) {
        Ok(routine) => Ok(routine.emit()),
        Err(d) => Err(d),
    }
}

} // verus!

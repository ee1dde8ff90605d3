//! What holds of the compiler and of the routines that it compiles, for every
//! definition and every object.
use crate::compiler::{
    annotation_problem, attr_problem, attr_rules, checks_of, diagnosis, external_name,
    field_checks, fields_of, first_annotation_problem, first_attr_problem, first_item_problem,
    first_type_problem, has_unnamed, item_name, item_problem, quoter_of, requested_rules,
    routine_of, type_descriptor, type_entries,
};
use crate::field_validation::request_for;
use crate::quotation::{check_for, parameter_text, PassingConvention, TypeClass};
use crate::diagnostic::Problem;
use crate::error::{Failure, ValidationError, ValidationErrorResponse};
use crate::routine::{passes_all, CheckView, ObjectInstance};
use crate::syntax::{text_of, Attribute, DeriveInput, Family, Field, Meta, NestedMeta};
use crate::types::{rule_named, ValidationType};
use vstd::prelude::*;
use vstd::std_specs::convert::FromSpec;

verus! {

/// The response to a validation failure carries the message of the failure
/// and the status code of its kind: 400 for a field mismatch, 422 for an
/// invalid state. No failure is answered with any other code.
pub proof fn lemma_response_of_failure(e: ValidationError)
    ensures
        ValidationErrorResponse::from_spec(e).error_code == e@.status(),
        ValidationErrorResponse::from_spec(e).error_message@ == e@.text(),
        e is FieldMismatch <==> ValidationErrorResponse::from_spec(e).error_code == 400,
        e is InvalidState <==> ValidationErrorResponse::from_spec(e).error_code == 422,
{
}

/// The expression that hands a field to a check follows the convention of
/// the field's type: it borrows the field exactly where the convention is by
/// reference, and is the field itself under every other convention.
pub proof fn lemma_parameter_follows_convention(ident: Seq<char>, class: TypeClass)
    ensures
        class.convention_of() == PassingConvention::ByReference ==> "&self."@.is_prefix_of(
            parameter_text(ident, class),
        ),
        class.convention_of() != PassingConvention::ByReference ==> parameter_text(ident, class)
            == "self."@ + ident,
{
    if class.convention_of() == PassingConvention::ByReference {
        let text = parameter_text(ident, class);
        assert(text.subrange(0, "&self."@.len() as int) =~= "&self."@);
    }
}

/// Whether the annotations of a field ask for the rule `NotNull`.
pub open spec fn annotated_not_null(field: Field) -> bool {
    requested_rules(field.attrs@).contains(ValidationType::NotNull)
}

/// Whether an object holds a value in every one of the fields that is
/// annotated with the rule `NotNull`.
pub open spec fn holds_all_required<V>(fields: Seq<Field>, object: ObjectInstance<V>) -> bool {
    forall|i: int|
        0 <= i < fields.len() && annotated_not_null(#[trigger] fields[i]) ==> object.holds(
            text_of(fields[i].ident)->0,
        )
}

/// An object passes the checks of a field exactly if the field is not
/// annotated with `NotNull` or holds a value.
proof fn lemma_field_checks_pass<V>(
    field: Field,
    types: Seq<(Seq<char>, Seq<char>)>,
    object: ObjectInstance<V>,
)
    ensures
        passes_all(field_checks(field, types), object) <==> (annotated_not_null(field)
            ==> object.holds(text_of(field.ident)->0)),
{
    let ident = text_of(field.ident)->0;
    let rules = requested_rules(field.attrs@);
    let checks = field_checks(field, types);
    if annotated_not_null(field) {
        let k = choose|k: int| 0 <= k < rules.len() && rules[k] == ValidationType::NotNull;
        assert(checks[k].satisfied_by(object) == object.holds(ident));
        if object.holds(ident) {
            assert forall|m: int| 0 <= m < checks.len() implies (#[trigger] checks[m]).satisfied_by(
                object,
            ) by {
                assert(checks[m] == check_for(quoter_of(field, types), request_for(rules[m])));
            }
        }
    } else {
        if rules.len() > 0 {
            assert(rules[0] == ValidationType::NotNull);
            assert(rules.contains(ValidationType::NotNull));
        }
    }
}

/// An object passes the checks of a sequence of fields exactly if it holds a
/// value in each of the fields that is annotated with `NotNull`.
proof fn lemma_checks_pass<V>(
    fields: Seq<Field>,
    types: Seq<(Seq<char>, Seq<char>)>,
    object: ObjectInstance<V>,
)
    ensures
        passes_all(checks_of(fields, types), object) <==> holds_all_required(fields, object),
    decreases fields.len(),
{
    if fields.len() > 0 {
        let init = fields.drop_last();
        let last = fields.last();
        lemma_checks_pass(init, types, object);
        lemma_field_checks_pass(last, types, object);
        let a = checks_of(init, types);
        let b = field_checks(last, types);
        assert(checks_of(fields, types) == a + b);
        if passes_all(a + b, object) {
            assert forall|k: int| 0 <= k < a.len() implies (#[trigger] a[k]).satisfied_by(
                object,
            ) by {
                assert((a + b)[k] == a[k]);
            }
            assert forall|k: int| 0 <= k < b.len() implies (#[trigger] b[k]).satisfied_by(
                object,
            ) by {
                assert((a + b)[a.len() + k] == b[k]);
            }
            assert forall|i: int|
                0 <= i < fields.len() && annotated_not_null(
                    #[trigger] fields[i],
                ) implies object.holds(text_of(fields[i].ident)->0) by {
                if i < init.len() {
                    assert(init[i] == fields[i]);
                }
            }
        }
        if holds_all_required(fields, object) {
            assert forall|i: int|
                0 <= i < init.len() && annotated_not_null(#[trigger] init[i]) implies object.holds(
                text_of(init[i].ident)->0,
            ) by {
                assert(init[i] == fields[i]);
            }
            assert(annotated_not_null(fields[fields.len() - 1]) ==> object.holds(
                text_of(last.ident)->0,
            ));
            assert forall|k: int| 0 <= k < (a + b).len() implies (#[trigger] (a + b)[k]).satisfied_by(
                object,
            ) by {
                if k < a.len() {
                    assert((a + b)[k] == a[k]);
                } else {
                    assert((a + b)[k] == b[k - a.len()]);
                }
            }
        }
    }
}

/// The routine of a struct reports success exactly if the object holds a
/// value in every field that is annotated with `NotNull`. If one or more of
/// them hold none, it reports a field mismatch under the code `not_null`,
/// the same however many they are.
pub proof fn lemma_not_null_decides<V>(input: DeriveInput, object: ObjectInstance<V>)
    requires
        diagnosis(input) is None,
    ensures
        routine_of(input).verdict(object) is None <==> holds_all_required(
            fields_of(input),
            object,
        ),
        !holds_all_required(fields_of(input), object) <==> routine_of(input).verdict(object)
            == Some(Failure::FieldMismatch("not_null"@)),
{
    lemma_checks_pass(fields_of(input), type_entries(fields_of(input)), object);
}

/// The rule annotations among the annotations of a field.
pub open spec fn rule_annotations(attrs: Seq<Attribute>) -> Seq<Attribute> {
    attrs.filter(|a: Attribute| a.family_of() == Family::Rule)
}

/// Whether two fields are declared under the same name, with types of the
/// same descriptor, and carry the same rule annotations. Their other
/// annotations, those that rename them among them, are free to differ.
pub open spec fn same_rules(a: Field, b: Field) -> bool {
    &&& text_of(a.ident) == text_of(b.ident)
    &&& type_descriptor(a.ty) == type_descriptor(b.ty)
    &&& rule_annotations(a.attrs@) == rule_annotations(b.attrs@)
}

/// Whether two checks look at the same field for the same rule, by the same
/// convention, and are reported and emitted alike. The name that the field is
/// known by outside is free to differ.
pub open spec fn same_check(a: CheckView, b: CheckView) -> bool {
    &&& a.ident == b.ident
    &&& a.convention == b.convention
    &&& a.validator == b.validator
    &&& a.code == b.code
    &&& a.source == b.source
}

/// Whether two sequences of checks are of one length and alike at each place.
pub open spec fn same_checks(a: Seq<CheckView>, b: Seq<CheckView>) -> bool {
    a.len() == b.len() && forall|k: int| 0 <= k < a.len() ==> same_check(#[trigger] a[k], b[k])
}

/// The rules that the annotations of a field ask for are those that its rule
/// annotations ask for.
pub proof fn lemma_rules_from_rule_annotations(attrs: Seq<Attribute>)
    ensures
        requested_rules(attrs) == requested_rules(rule_annotations(attrs)),
    decreases attrs.len(),
{
    reveal(Seq::filter);
    if attrs.len() > 0 {
        let init = attrs.drop_last();
        let last = attrs.last();
        lemma_rules_from_rule_annotations(init);
        let kept = rule_annotations(init);
        if last.family_of() == Family::Rule {
            assert(rule_annotations(attrs) == kept.push(last));
            assert(kept.push(last).drop_last() =~= kept);
            assert(kept.push(last).last() == last);
        } else {
            assert(rule_annotations(attrs) == kept);
            assert(attr_rules(last) =~= Seq::<ValidationType>::empty());
            assert(requested_rules(init) + attr_rules(last) =~= requested_rules(init));
        }
    } else {
        assert(rule_annotations(attrs) =~= attrs);
    }
}

/// Fields with the same rules have checks that are alike.
proof fn lemma_same_rules_same_checks(
    a: Seq<Field>,
    b: Seq<Field>,
    types: Seq<(Seq<char>, Seq<char>)>,
)
    requires
        a.len() == b.len(),
        forall|i: int| 0 <= i < a.len() ==> same_rules(#[trigger] a[i], b[i]),
    ensures
        same_checks(checks_of(a, types), checks_of(b, types)),
    decreases a.len(),
{
    if a.len() > 0 {
        assert forall|i: int| 0 <= i < a.drop_last().len() implies same_rules(
            #[trigger] a.drop_last()[i],
            b.drop_last()[i],
        ) by {
            assert(same_rules(a[i], b[i]));
        }
        lemma_same_rules_same_checks(a.drop_last(), b.drop_last(), types);
        assert(same_rules(a[a.len() - 1], b[a.len() - 1]));
        lemma_rules_from_rule_annotations(a.last().attrs@);
        lemma_rules_from_rule_annotations(b.last().attrs@);
        let x = checks_of(a.drop_last(), types);
        let y = checks_of(b.drop_last(), types);
        let p = field_checks(a.last(), types);
        let q = field_checks(b.last(), types);
        assert(p.len() == q.len());
        assert forall|k: int| 0 <= k < (x + p).len() implies same_check(
            #[trigger] (x + p)[k],
            (y + q)[k],
        ) by {
            if k < x.len() {
                assert(same_check(x[k], y[k]));
            } else {
                assert((x + p)[k] == p[k - x.len()]);
                assert((y + q)[k] == q[k - x.len()]);
            }
        }
    }
}

/// Checks that are alike are passed by the same objects.
proof fn lemma_same_checks_same_passes<V>(
    a: Seq<CheckView>,
    b: Seq<CheckView>,
    object: ObjectInstance<V>,
)
    requires
        same_checks(a, b),
    ensures
        passes_all(a, object) == passes_all(b, object),
{
    if passes_all(a, object) {
        assert forall|k: int| 0 <= k < b.len() implies (#[trigger] b[k]).satisfied_by(object) by {
            assert(same_check(a[k], b[k]));
            assert(a[k].satisfied_by(object));
        }
    }
    if passes_all(b, object) {
        assert forall|k: int| 0 <= k < a.len() implies (#[trigger] a[k]).satisfied_by(object) by {
            assert(same_check(a[k], b[k]));
            assert(b[k].satisfied_by(object));
        }
    }
}

/// Renaming a field changes neither which field is checked nor what comes
/// of the check. Of two structs whose fields are declared under the same
/// names, with the same types, and carry the same rule annotations, whatever
/// their rename annotations are, the routines hold the same checks but for
/// the names that the fields are known by outside, and they report the same
/// of every object.
pub proof fn lemma_rename_changes_no_check<V>(
    a: DeriveInput,
    b: DeriveInput,
    object: ObjectInstance<V>,
)
    requires
        diagnosis(a) is None,
        diagnosis(b) is None,
        fields_of(a).len() == fields_of(b).len(),
        forall|i: int|
            0 <= i < fields_of(a).len() ==> same_rules(#[trigger] fields_of(a)[i], fields_of(b)[i]),
    ensures
        same_checks(routine_of(a).checks, routine_of(b).checks),
        routine_of(a).verdict(object) == routine_of(b).verdict(object),
{
    assert(type_entries(fields_of(a)) =~= type_entries(fields_of(b))) by {
        assert forall|i: int| 0 <= i < fields_of(a).len() implies type_entries(fields_of(a))[i]
            == type_entries(fields_of(b))[i] by {
            assert(same_rules(fields_of(a)[i], fields_of(b)[i]));
        }
    }
    lemma_same_rules_same_checks(fields_of(a), fields_of(b), type_entries(fields_of(a)));
    lemma_same_checks_same_passes(routine_of(a).checks, routine_of(b).checks, object);
}

/// Every check of a field looks at the field under the name that it is
/// declared with, and carries the name that the field is known by outside.
pub proof fn lemma_check_keeps_declared_name(
    field: Field,
    types: Seq<(Seq<char>, Seq<char>)>,
    k: int,
)
    requires
        0 <= k < field_checks(field, types).len(),
    ensures
        field_checks(field, types)[k].ident == text_of(field.ident)->0,
        field_checks(field, types)[k].name == external_name(
            text_of(field.ident)->0,
            field.attrs@,
        ),
{
}

/// Every check of a routine is a check of one of the fields of the struct,
/// for a rule of the registry, under the code of that rule.
pub proof fn lemma_check_refers_to_field(
    fields: Seq<Field>,
    types: Seq<(Seq<char>, Seq<char>)>,
    k: int,
)
    requires
        0 <= k < checks_of(fields, types).len(),
    ensures
        exists|i: int|
            0 <= i < fields.len() && (#[trigger] field_checks(fields[i], types)).contains(
                checks_of(fields, types)[k],
            ),
        rule_named(checks_of(fields, types)[k].code) == Some(
            checks_of(fields, types)[k].validator,
        ),
    decreases fields.len(),
{
    let init = fields.drop_last();
    let last = fields.last();
    let a = checks_of(init, types);
    let b = field_checks(last, types);
    assert(checks_of(fields, types) == a + b);
    if k < a.len() {
        lemma_check_refers_to_field(init, types, k);
        let i = choose|i: int|
            0 <= i < init.len() && (#[trigger] field_checks(init[i], types)).contains(a[k]);
        assert(init[i] == fields[i]);
        assert(field_checks(fields[i], types).contains(checks_of(fields, types)[k]));
    } else {
        assert((a + b)[k] == b[k - a.len()]);
        assert(field_checks(fields[fields.len() - 1], types).contains(
            checks_of(fields, types)[k],
        ));
    }
}

/// A struct with a field that has no name is rejected by the compiler, so
/// that no routine is ever run for it.
pub proof fn lemma_unnamed_fields_rejected(input: DeriveInput)
    requires
        input.data is Struct,
        has_unnamed(fields_of(input)),
    ensures
        diagnosis(input) == Some(Problem::UnnamedFields),
{
}

/// If an item has a problem, the items have one; and if no item before it
/// has one, its problem is the one reported.
proof fn lemma_item_problem_found(field: Seq<char>, items: Seq<NestedMeta>, from: int, k: int)
    requires
        0 <= from <= k < items.len(),
        item_problem(field, items[k]) is Some,
    ensures
        first_item_problem(field, items, from) is Some,
        (forall|m: int| from <= m < k ==> item_problem(field, #[trigger] items[m]) is None)
            ==> first_item_problem(field, items, from) == item_problem(field, items[k]),
    decreases k - from,
{
    if from < k {
        lemma_item_problem_found(field, items, from + 1, k);
    }
}

/// If an annotation has a problem, the annotations have one; and if no
/// annotation before it has one, its problem is the one reported.
proof fn lemma_attr_problem_found(field: Seq<char>, attrs: Seq<Attribute>, from: int, j: int)
    requires
        0 <= from <= j < attrs.len(),
        attr_problem(field, attrs[j]) is Some,
    ensures
        first_attr_problem(field, attrs, from) is Some,
        (forall|m: int| from <= m < j ==> attr_problem(field, #[trigger] attrs[m]) is None)
            ==> first_attr_problem(field, attrs, from) == attr_problem(field, attrs[j]),
    decreases j - from,
{
    if from < j {
        lemma_attr_problem_found(field, attrs, from + 1, j);
    }
}

/// If the annotations of a field have a problem, those of the fields have
/// one; and if those of no field before it have one, its problem is the one
/// reported.
proof fn lemma_annotation_problem_found(fields: Seq<Field>, from: int, i: int)
    requires
        0 <= from <= i < fields.len(),
        annotation_problem(fields[i]) is Some,
    ensures
        first_annotation_problem(fields, from) is Some,
        (forall|m: int| from <= m < i ==> annotation_problem(#[trigger] fields[m]) is None)
            ==> first_annotation_problem(fields, from) == annotation_problem(fields[i]),
    decreases i - from,
{
    if from < i {
        lemma_annotation_problem_found(fields, from + 1, i);
    }
}

/// Whether the item `k` of the rule annotation `j` of the field `i` of a
/// struct is the bare name `rule`, and no rule is registered under that name.
pub open spec fn names_unknown_rule(
    input: DeriveInput,
    i: int,
    j: int,
    k: int,
    rule: Seq<char>,
) -> bool {
    let fields = fields_of(input);
    &&& input.data is Struct
    &&& 0 <= i < fields.len()
    &&& fields[i].ident is Some
    &&& 0 <= j < fields[i].attrs@.len()
    &&& fields[i].attrs@[j].family_of() == Family::Rule
    &&& fields[i].attrs@[j].meta matches Some(Meta::List { path, nested })
    &&& 0 <= k < nested@.len()
    &&& nested@[k] is Meta
    &&& item_name(nested@[k]) == Some(rule)
    &&& rule_named(rule) is None
}

/// Whether nothing stands before the item `k` of the annotation `j` of the
/// field `i` that the compiler would report: every field has a name and a
/// type that is supported, and no field before `i`, no annotation of it before
/// `j` and no item of that before `k` has a problem.
pub open spec fn nothing_reported_before(input: DeriveInput, i: int, j: int, k: int) -> bool {
    let fields = fields_of(input);
    let field = text_of(fields[i].ident)->0;
    &&& !has_unnamed(fields)
    &&& first_type_problem(fields, 0) is None
    &&& forall|m: int| 0 <= m < i ==> annotation_problem(#[trigger] fields[m]) is None
    &&& forall|m: int| 0 <= m < j ==> attr_problem(field, #[trigger] fields[i].attrs@[m]) is None
    &&& fields[i].attrs@[j].meta matches Some(Meta::List { path, nested })
    &&& forall|m: int| 0 <= m < k ==> item_problem(field, #[trigger] nested@[m]) is None
}

/// A struct with a rule annotation that names a rule which is not registered
/// is rejected by the compiler. Where nothing before that name is reported,
/// the report is that of the unknown rule, and it holds the name of the rule
/// and that of the field.
pub proof fn lemma_unknown_rule_rejected(
    input: DeriveInput,
    i: int,
    j: int,
    k: int,
    rule: Seq<char>,
)
    requires
        names_unknown_rule(input, i, j, k, rule),
    ensures
        diagnosis(input) is Some,
        nothing_reported_before(input, i, j, k) ==> diagnosis(input) == Some(
            Problem::UnknownRule { field: text_of(fields_of(input)[i].ident)->0, rule },
        ),
{
    let fields = fields_of(input);
    let field = text_of(fields[i].ident)->0;
    let attrs = fields[i].attrs@;
    match attrs[j].meta {
        Some(Meta::List { path, nested }) => {
            lemma_item_problem_found(field, nested@, 0, k);
            lemma_attr_problem_found(field, attrs, 0, j);
            lemma_annotation_problem_found(fields, 0, i);
        },
        _ => {},
    }
}

} // verus!

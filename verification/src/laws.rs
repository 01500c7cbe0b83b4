//! What holds of every plan and of every generation, proved from the
//! definitions that the contracts of the library use.

use crate::classify::{is_optional_container, payload_of, ShapeMismatch};
use crate::declaration::{
    carries, directive_of, AnnotationView, DeclarationBodyView, DirectiveKind,
    FieldDeclarationView, TypeDeclaration, TypeDeclarationView,
};
use crate::error::{GenerationError, GenerationErrorView};
use crate::generate::{generation_result, outcome_view};
use crate::plan::{
    constructor_param_of, constructor_params, default_filled_fields, defaulted_field_of,
    invalid_target, is_first_invalid, is_required, lemma_first_invalid_exists, plan_of,
    plan_result, rejection_of, setter_of, setter_specs, setters_of, ConstructorParamView,
    DefaultedFieldView, GenerationPlanView, SetterSpecView,
};
use crate::synth::{
    constructor_text, setter_text, target_text, unit_text, GeneratedUnit, GeneratedUnitView,
};
use crate::text::{
    argument_texts, global_prefix, join, segment_text, segment_texts, type_text,
};
use vstd::prelude::*;

verus! {

/// The names of the fields, in order.
pub open spec fn field_names(fields: Seq<FieldDeclarationView>) -> Seq<Seq<char>> {
    fields.map_values(|f: FieldDeclarationView| f.name)
}

/// The names of the constructor's parameters, in order.
pub open spec fn param_names(params: Seq<ConstructorParamView>) -> Seq<Seq<char>> {
    params.map_values(|p: ConstructorParamView| p.name)
}

/// The names of the defaulted fields, in order.
pub open spec fn default_names(defaults: Seq<DefaultedFieldView>) -> Seq<Seq<char>> {
    defaults.map_values(|d: DefaultedFieldView| d.name)
}

/// The names of the fields that the constructor initialises: its
/// parameters, then the defaulted fields.
pub open spec fn initialised_names(fields: Seq<FieldDeclarationView>) -> Seq<Seq<char>> {
    param_names(constructor_params(fields)) + default_names(default_filled_fields(fields))
}

/// Whether the positions ascend strictly.
pub open spec fn ascending(at: Seq<int>) -> bool {
    forall|k: int, l: int| 0 <= k < l < at.len() ==> at[k] < at[l]
}

/// Whether `selected` holds the elements of `all` at the positions `at`,
/// which ascend.
pub open spec fn selects_in_order<A>(selected: Seq<A>, all: Seq<A>, at: Seq<int>) -> bool {
    &&& at.len() == selected.len()
    &&& ascending(at)
    &&& forall|k: int|
        0 <= k < at.len() ==> 0 <= #[trigger] at[k] < all.len() && selected[k] == all[at[k]]
}

/// Whether `selected` is made of elements of `all` in the order in which
/// they stand there.
pub open spec fn preserves_order<A>(selected: Seq<A>, all: Seq<A>) -> bool {
    exists|at: Seq<int>| selects_in_order(selected, all, at)
}

/// Every field is initialised exactly once: the names of the constructor's
/// parameters and of the defaulted fields are, taken together, the names
/// of the fields, each as often as it is declared. Where no name is
/// declared twice, none is initialised twice.
pub proof fn lemma_partition_complete(fields: Seq<FieldDeclarationView>)
    ensures
        initialised_names(fields).to_multiset() == field_names(fields).to_multiset(),
        initialised_names(fields).len() == fields.len(),
        field_names(fields).no_duplicates() ==> initialised_names(fields).no_duplicates(),
{
    lemma_partition_multiset(fields);
    let initialised = initialised_names(fields);
    let names = field_names(fields);
    initialised.to_multiset_ensures();
    names.to_multiset_ensures();
    if names.no_duplicates() {
        names.lemma_multiset_has_no_duplicates();
        initialised.lemma_multiset_has_no_duplicates_conv();
    }
}

proof fn lemma_partition_multiset(fields: Seq<FieldDeclarationView>)
    ensures
        initialised_names(fields).to_multiset() == field_names(fields).to_multiset(),
    decreases fields.len(),
{
    broadcast use vstd::multiset::group_multiset_axioms;

    if fields.len() == 0 {
        assert(initialised_names(fields) =~= field_names(fields));
    } else {
        let rest = fields.drop_last();
        let last = fields.last();
        lemma_partition_multiset(rest);
        let params = param_names(constructor_params(rest));
        let defaults = default_names(default_filled_fields(rest));
        assert(field_names(fields) =~= field_names(rest).push(last.name));
        vstd::seq_lib::to_multiset_build(field_names(rest), last.name);
        vstd::seq_lib::lemma_multiset_commutative(params, defaults);
        if is_required(last) {
            assert(param_names(constructor_params(fields)) =~= params.push(last.name));
            assert(default_names(default_filled_fields(fields)) =~= defaults);
            vstd::seq_lib::to_multiset_build(params, last.name);
            vstd::seq_lib::lemma_multiset_commutative(params.push(last.name), defaults);
            assert(initialised_names(fields).to_multiset() =~= field_names(fields).to_multiset());
        } else {
            assert(param_names(constructor_params(fields)) =~= params);
            assert(default_names(default_filled_fields(fields)) =~= defaults.push(last.name));
            assert(initialised_names(fields) =~= (params + defaults).push(last.name));
            vstd::seq_lib::to_multiset_build(params + defaults, last.name);
        }
    }
}

/// The positions of the elements that a filtering map keeps, in order.
proof fn lemma_kept_positions<A, B>(s: Seq<A>, f: spec_fn(A) -> Option<B>) -> (at: Seq<int>)
    ensures
        at.len() == s.filter_map(f).len(),
        ascending(at),
        forall|k: int|
            0 <= k < at.len() ==> 0 <= #[trigger] at[k] < s.len() && f(s[at[k]]) == Some(
                s.filter_map(f)[k],
            ),
    decreases s.len(),
{
    if s.len() == 0 {
        Seq::empty()
    } else {
        let before = lemma_kept_positions(s.drop_last(), f);
        match f(s.last()) {
            Some(_) => before.push(s.len() - 1),
            None => before,
        }
    }
}

/// The constructor's parameters and the defaulted fields each stand in the
/// order in which their fields are declared.
pub proof fn lemma_order_preserved(fields: Seq<FieldDeclarationView>)
    ensures
        preserves_order(param_names(constructor_params(fields)), field_names(fields)),
        preserves_order(default_names(default_filled_fields(fields)), field_names(fields)),
{
    let required_at = lemma_kept_positions(
        fields,
        |f: FieldDeclarationView| constructor_param_of(f),
    );
    assert(selects_in_order(
        param_names(constructor_params(fields)),
        field_names(fields),
        required_at,
    ));
    let defaulted_at = lemma_kept_positions(
        fields,
        |f: FieldDeclarationView| defaulted_field_of(f),
    );
    assert(selects_in_order(
        default_names(default_filled_fields(fields)),
        field_names(fields),
        defaulted_at,
    ));
}

/// What a filtering map makes of an element is among what it makes of the
/// sequence.
proof fn lemma_kept_is_contained<A, B>(s: Seq<A>, f: spec_fn(A) -> Option<B>, k: int)
    requires
        0 <= k < s.len(),
        f(s[k]) is Some,
    ensures
        s.filter_map(f).contains(f(s[k])->Some_0),
    decreases s.len(),
{
    let kept = s.filter_map(f);
    if k == s.len() - 1 {
        assert(kept[kept.len() - 1] == f(s[k])->Some_0);
    } else {
        let rest = s.drop_last();
        lemma_kept_is_contained(rest, f, k);
        let at = choose|at: int|
            0 <= at < rest.filter_map(f).len() && rest.filter_map(f)[at] == f(s[k])->Some_0;
        assert(kept[at] == f(s[k])->Some_0);
    }
}

/// The setters of a field are among the setters of all fields.
proof fn lemma_field_setters_contained(
    fields: Seq<FieldDeclarationView>,
    i: int,
    setter: SetterSpecView,
)
    requires
        0 <= i < fields.len(),
        setters_of(fields[i]).contains(setter),
    ensures
        setter_specs(fields).contains(setter),
    decreases fields.len(),
{
    let rest = fields.drop_last();
    let last = fields.last();
    let each = |f: FieldDeclarationView| setters_of(f);
    assert(fields =~= rest.push(last));
    rest.lemma_flat_map_push(each, last);
    let all = setter_specs(fields);
    assert(all =~= setter_specs(rest) + setters_of(last));
    if i == fields.len() - 1 {
        let at = choose|at: int| 0 <= at < setters_of(last).len() && setters_of(last)[at] == setter;
        assert(all[setter_specs(rest).len() + at] == setter);
    } else {
        lemma_field_setters_contained(rest, i, setter);
        let at = choose|at: int| 0 <= at < setter_specs(rest).len() && setter_specs(rest)[at] == setter;
        assert(all[at] == setter);
    }
}

/// Setters do not depend on how a field is initialised. Each setter
/// directive of a field gives its setter, whether the field is required or
/// not; and the field is a parameter of the constructor where it is
/// required, and defaulted where it is not, whether it has setters or not.
pub proof fn lemma_setters_independent(fields: Seq<FieldDeclarationView>, i: int, k: int)
    requires
        0 <= i < fields.len(),
        0 <= k < fields[i].annotations.len(),
        setter_of(fields[i], fields[i].annotations[k]) is Some,
    ensures
        setter_specs(fields).contains(setter_of(fields[i], fields[i].annotations[k])->Some_0),
        is_required(fields[i]) ==> constructor_params(fields).contains(
            constructor_param_of(fields[i])->Some_0,
        ),
        !is_required(fields[i]) ==> default_filled_fields(fields).contains(
            defaulted_field_of(fields[i])->Some_0,
        ),
{
    let field = fields[i];
    lemma_kept_is_contained(field.annotations, |a: AnnotationView| setter_of(field, a), k);
    lemma_field_setters_contained(fields, i, setter_of(field, field.annotations[k])->Some_0);
    if is_required(field) {
        lemma_kept_is_contained(fields, |f: FieldDeclarationView| constructor_param_of(f), i);
    } else {
        lemma_kept_is_contained(fields, |f: FieldDeclarationView| defaulted_field_of(f), i);
    }
}

/// The payload of an optional container: the one type between the angle
/// brackets of its one segment.
pub open spec fn container_payload(f: FieldDeclarationView) -> Seq<char>
    recommends
        is_optional_container(f.declared_type),
{
    f.declared_type->Path_0.segments[0].arguments->AngleBracketed_0[0]->Type_0
}

/// The optional setter of a field whose type is an optional container
/// takes the payload type, exactly as it is written between the angle
/// brackets, and assigns the field its argument wrapped in `Some`.
pub proof fn lemma_optional_setter_unwraps(f: FieldDeclarationView, a: AnnotationView)
    requires
        directive_of(a) == Some(DirectiveKind::OptionalSetter),
        is_optional_container(f.declared_type),
    ensures
        type_text(f.declared_type) == global_prefix(f.declared_type->Path_0.global)
            + f.declared_type->Path_0.segments[0].name + "<"@ + container_payload(f) + ">"@,
        setter_of(f, a) == Some(
            SetterSpecView { field: f.name, param_type: container_payload(f), wrap: true },
        ),
        setter_text(setter_of(f, a)->Some_0) == "    pub fn "@ + f.name + "(mut self, "@ + f.name
            + ": "@ + container_payload(f) + ") -> Self {\n        self."@ + f.name + " = "@ + (
            "Some("@ + f.name + ")"@) + ";\n        self\n    }\n"@,
{
    let path = f.declared_type->Path_0;
    let segment = path.segments[0];
    let arg_texts = argument_texts(segment.arguments->AngleBracketed_0);
    assert(arg_texts.len() == 1);
    assert(join(arg_texts, ", "@) == container_payload(f));
    let seg_texts = segment_texts(path.segments);
    assert(seg_texts.len() == 1);
    assert(join(seg_texts, "::"@) == segment_text(segment));
    assert(type_text(f.declared_type) =~= global_prefix(path.global) + segment.name + "<"@
        + container_payload(f) + ">"@);
}

/// A type has a payload exactly where it is an optional container.
pub proof fn lemma_payload_iff_container(f: FieldDeclarationView)
    ensures
        payload_of(f.declared_type) is Ok <==> is_optional_container(f.declared_type),
        is_optional_container(f.declared_type) ==> payload_of(f.declared_type) == Ok::<
            Seq<char>,
            ShapeMismatch,
        >(container_payload(f)),
{
}

/// The optional-setter directive on a field whose type is no optional
/// container is always rejected: generation ends with the error for such a
/// field, and nothing is generated.
pub proof fn lemma_invalid_target_rejected(decl: TypeDeclarationView, i: int)
    requires
        decl.body is NamedRecord,
        0 <= i < decl.body->NamedRecord_0.len(),
        carries(decl.body->NamedRecord_0[i].annotations, DirectiveKind::OptionalSetter),
        !is_optional_container(decl.body->NamedRecord_0[i].declared_type),
    ensures
        generation_result(decl) is Err,
        generation_result(decl)->Err_0 is InvalidOptionalSetterTarget,
        exists|k: int|
            is_first_invalid(decl.body->NamedRecord_0, k) && k <= i && generation_result(decl)
                == Err::<GeneratedUnitView, GenerationErrorView>(
                rejection_of(decl.body->NamedRecord_0[k]),
            ),
{
    let fields = decl.body->NamedRecord_0;
    lemma_payload_iff_container(fields[i]);
    assert(invalid_target(fields[i]));
    lemma_first_invalid_exists(fields, i);
    let first = choose|k: int| is_first_invalid(fields, k) && k <= i;
    let chosen = choose|k: int| is_first_invalid(fields, k);
    assert(chosen == first);
    assert(decl.body == DeclarationBodyView::NamedRecord(fields));
    assert(plan_result(fields) == Err::<GenerationPlanView, GenerationErrorView>(
        rejection_of(fields[first]),
    ));
}

/// A type that is no record with named fields is always rejected, whatever
/// else it holds.
pub proof fn lemma_unsupported_shape_rejected(decl: TypeDeclarationView)
    requires
        !(decl.body is NamedRecord),
    ensures
        generation_result(decl) == Err::<GeneratedUnitView, GenerationErrorView>(
            GenerationErrorView::UnsupportedTypeShape,
        ),
{
}

/// Generation is a function of the declaration: two runs on declarations
/// that hold the same give the same outcome, and, where they succeed, the
/// same text, character for character.
pub proof fn lemma_generation_deterministic(
    first: TypeDeclaration,
    second: TypeDeclaration,
    first_outcome: Result<GeneratedUnit, GenerationError>,
    second_outcome: Result<GeneratedUnit, GenerationError>,
)
    requires
        first@ == second@,
        outcome_view(first_outcome) == generation_result(first@),
        outcome_view(second_outcome) == generation_result(second@),
    ensures
        outcome_view(first_outcome) == outcome_view(second_outcome),
        first_outcome is Ok <==> second_outcome is Ok,
        first_outcome is Ok ==> unit_text(first_outcome->Ok_0@) == unit_text(
            second_outcome->Ok_0@,
        ),
{
}

/// A generated unit stands on the declared name and generic parameters and
/// follows the plan of the declared fields: it holds the plan's
/// constructor and one setter for each planned setter, in the plan's
/// order. No field of its declaration asks for an optional setter that its
/// type does not allow.
pub proof fn lemma_unit_follows_plan(decl: TypeDeclarationView)
    requires
        generation_result(decl) is Ok,
    ensures
        decl.body is NamedRecord,
        generation_result(decl)->Ok_0.target == target_text(decl.name, decl.generic_parameters),
        generation_result(decl)->Ok_0.constructor == constructor_text(
            plan_of(decl.body->NamedRecord_0),
        ),
        generation_result(decl)->Ok_0.setters.len() == setter_specs(
            decl.body->NamedRecord_0,
        ).len(),
        forall|k: int|
            0 <= k < setter_specs(decl.body->NamedRecord_0).len() ==> generation_result(
                decl,
            )->Ok_0.setters[k] == setter_text(#[trigger] setter_specs(decl.body->NamedRecord_0)[k]),
        forall|i: int|
            0 <= i < decl.body->NamedRecord_0.len() ==> !invalid_target(
                #[trigger] decl.body->NamedRecord_0[i],
            ),
{
    let fields = decl.body->NamedRecord_0;
    assert forall|i: int| 0 <= i < fields.len() implies !invalid_target(#[trigger] fields[i]) by {
        if invalid_target(fields[i]) {
            lemma_first_invalid_exists(fields, i);
        }
    }
}

} // verus!

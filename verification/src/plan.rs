//! The field planner: sorts the fields of a record into the three
//! generation plans.
//!
//! Every field is initialised by the constructor in exactly one of two
//! ways: from a parameter, where the field is required, or from its default
//! value. Setters are planned apart from that, one for each setter
//! directive, in the order of the fields and, within a field, of its
//! annotations.

use crate::classify::{optional_payload, payload_of};
use crate::declaration::{
    carries, directive_of, field_views, AnnotationView, DirectiveKind, FieldDeclaration,
    FieldDeclarationView,
};
use crate::error::{GenerationError, GenerationErrorView};
use crate::text::type_text;
use vstd::prelude::*;

verus! {

/// A parameter of the constructor: a required field and its type.
#[derive(Clone, Debug, PartialEq, Eq)]
pub struct ConstructorParam {
    pub name: String,
    /// The field's declared type, as it stands in code.
    pub param_type: String,
}

/// What a [`ConstructorParam`] holds, as a mathematical value.
pub struct ConstructorParamView {
    pub name: Seq<char>,
    pub param_type: Seq<char>,
}

impl View for ConstructorParam {
    type V = ConstructorParamView;

    open spec fn view(&self) -> ConstructorParamView {
        ConstructorParamView { name: self.name@, param_type: self.param_type@ }
    }
}

/// A field that the constructor fills with its default value.
#[derive(Clone, Debug, PartialEq, Eq)]
pub struct DefaultedField {
    pub name: String,
    /// The expression that gives the field's default value.
    pub value: String,
}

/// What a [`DefaultedField`] holds, as a mathematical value.
pub struct DefaultedFieldView {
    pub name: Seq<char>,
    pub value: Seq<char>,
}

impl View for DefaultedField {
    type V = DefaultedFieldView;

    open spec fn view(&self) -> DefaultedFieldView {
        DefaultedFieldView { name: self.name@, value: self.value@ }
    }
}

/// A setter to generate.
#[derive(Clone, Debug, PartialEq, Eq)]
pub struct SetterSpec {
    /// The name of the field that the setter assigns.
    pub field: String,
    /// The type of the setter's parameter, as it stands in code.
    pub param_type: String,
    /// Whether the setter wraps its argument in the optional container
    /// before it assigns it.
    pub wrap: bool,
}

/// What a [`SetterSpec`] holds, as a mathematical value.
pub struct SetterSpecView {
    pub field: Seq<char>,
    pub param_type: Seq<char>,
    pub wrap: bool,
}

impl View for SetterSpec {
    type V = SetterSpecView;

    open spec fn view(&self) -> SetterSpecView {
        SetterSpecView { field: self.field@, param_type: self.param_type@, wrap: self.wrap }
    }
}

/// The three plans from which the code is rendered.
#[derive(Clone, Debug, PartialEq, Eq)]
pub struct GenerationPlan {
    /// The required fields, in source order.
    pub constructor_params: Vec<ConstructorParam>,
    /// The fields that are not required, in source order.
    pub default_filled_fields: Vec<DefaultedField>,
    /// One entry for each setter directive.
    pub setter_specs: Vec<SetterSpec>,
}

/// What a [`GenerationPlan`] holds, as a mathematical value.
pub struct GenerationPlanView {
    pub constructor_params: Seq<ConstructorParamView>,
    pub default_filled_fields: Seq<DefaultedFieldView>,
    pub setter_specs: Seq<SetterSpecView>,
}

/// The views of the parameters, in order.
pub open spec fn param_views(s: Seq<ConstructorParam>) -> Seq<ConstructorParamView> {
    s.map_values(|p: ConstructorParam| p@)
}

/// The views of the defaulted fields, in order.
pub open spec fn default_views(s: Seq<DefaultedField>) -> Seq<DefaultedFieldView> {
    s.map_values(|d: DefaultedField| d@)
}

/// The views of the setters, in order.
pub open spec fn setter_views(s: Seq<SetterSpec>) -> Seq<SetterSpecView> {
    s.map_values(|t: SetterSpec| t@)
}

impl View for GenerationPlan {
    type V = GenerationPlanView;

    open spec fn view(&self) -> GenerationPlanView {
        GenerationPlanView {
            constructor_params: param_views(self.constructor_params@),
            default_filled_fields: default_views(self.default_filled_fields@),
            setter_specs: setter_views(self.setter_specs@),
        }
    }
}

/// The expression that gives a field its default value. It is the same for
/// every type: the type's own default.
pub open spec fn default_expression() -> Seq<char> {
    "Default::default()"@
}

/// Whether the field is required: it carries the directive at least once.
pub open spec fn is_required(f: FieldDeclarationView) -> bool {
    carries(f.annotations, DirectiveKind::Required)
}

/// The constructor parameter that a field gives, if it is required.
pub open spec fn constructor_param_of(f: FieldDeclarationView) -> Option<ConstructorParamView> {
    if is_required(f) {
        Some(ConstructorParamView { name: f.name, param_type: type_text(f.declared_type) })
    } else {
        None
    }
}

/// The default initialisation that a field gives, if it is not required.
pub open spec fn defaulted_field_of(f: FieldDeclarationView) -> Option<DefaultedFieldView> {
    if is_required(f) {
        None
    } else {
        Some(DefaultedFieldView { name: f.name, value: default_expression() })
    }
}

/// The setter that one annotation of a field gives, if it gives one. A
/// direct setter takes the field's declared type; an optional setter takes
/// the payload of the field's optional container and wraps it.
pub open spec fn setter_of(f: FieldDeclarationView, a: AnnotationView) -> Option<SetterSpecView> {
    match directive_of(a) {
        Some(DirectiveKind::DirectSetter) => Some(
            SetterSpecView { field: f.name, param_type: type_text(f.declared_type), wrap: false },
        ),
        Some(DirectiveKind::OptionalSetter) => match payload_of(f.declared_type) {
            Ok(inner) => Some(SetterSpecView { field: f.name, param_type: inner, wrap: true }),
            Err(_) => None,
        },
        _ => None,
    }
}

/// The setters that the given annotations give for a field, in order.
pub open spec fn setters_among(
    f: FieldDeclarationView,
    annotations: Seq<AnnotationView>,
) -> Seq<SetterSpecView> {
    annotations.filter_map(|a: AnnotationView| setter_of(f, a))
}

/// The setters of a field, in the order of its annotations.
pub open spec fn setters_of(f: FieldDeclarationView) -> Seq<SetterSpecView> {
    setters_among(f, f.annotations)
}

/// The constructor's parameters: the required fields, in source order.
pub open spec fn constructor_params(fields: Seq<FieldDeclarationView>) -> Seq<
    ConstructorParamView,
> {
    fields.filter_map(|f: FieldDeclarationView| constructor_param_of(f))
}

/// The defaulted fields: those that are not required, in source order.
pub open spec fn default_filled_fields(fields: Seq<FieldDeclarationView>) -> Seq<
    DefaultedFieldView,
> {
    fields.filter_map(|f: FieldDeclarationView| defaulted_field_of(f))
}

/// The setters of all fields, field by field in source order.
pub open spec fn setter_specs(fields: Seq<FieldDeclarationView>) -> Seq<SetterSpecView> {
    fields.flat_map(|f: FieldDeclarationView| setters_of(f))
}

/// The plan for a sequence of fields.
pub open spec fn plan_of(fields: Seq<FieldDeclarationView>) -> GenerationPlanView {
    GenerationPlanView {
        constructor_params: constructor_params(fields),
        default_filled_fields: default_filled_fields(fields),
        setter_specs: setter_specs(fields),
    }
}

/// Whether a field asks for an optional setter that its type does not
/// allow.
pub open spec fn invalid_target(f: FieldDeclarationView) -> bool {
    carries(f.annotations, DirectiveKind::OptionalSetter) && payload_of(f.declared_type) is Err
}

/// Whether `i` is the first field that asks for an optional setter that
/// its type does not allow.
pub open spec fn is_first_invalid(fields: Seq<FieldDeclarationView>, i: int) -> bool {
    &&& 0 <= i < fields.len()
    &&& invalid_target(fields[i])
    &&& forall|j: int| 0 <= j < i ==> !invalid_target(#[trigger] fields[j])
}

/// The error that a field with an invalid optional setter gives.
pub open spec fn rejection_of(f: FieldDeclarationView) -> GenerationErrorView {
    GenerationErrorView::InvalidOptionalSetterTarget {
        field: f.name,
        reason: payload_of(f.declared_type)->Err_0,
    }
}

/// What planning gives for a sequence of fields: the plan, where no field
/// asks for an optional setter that its type does not allow, and else the
/// rejection of the first field that does.
pub open spec fn plan_result(fields: Seq<FieldDeclarationView>) -> Result<
    GenerationPlanView,
    GenerationErrorView,
> {
    if exists|i: int| is_first_invalid(fields, i) {
        Err(rejection_of(fields[choose|i: int| is_first_invalid(fields, i)]))
    } else {
        Ok(plan_of(fields))
    }
}

/// Where some field is an invalid target, one of them is the first.
pub proof fn lemma_first_invalid_exists(fields: Seq<FieldDeclarationView>, i: int)
    requires
        0 <= i < fields.len(),
        invalid_target(fields[i]),
    ensures
        exists|k: int| is_first_invalid(fields, k) && k <= i,
    decreases i,
{
    if exists|j: int| 0 <= j < i && invalid_target(fields[j]) {
        let j = choose|j: int| 0 <= j < i && invalid_target(fields[j]);
        lemma_first_invalid_exists(fields, j);
    } else {
        assert(is_first_invalid(fields, i));
    }
}

/// Plans the setters of one field and appends them to `setters`, in the
/// order of the field's annotations. Fails, with `setters` in an unspecified
/// state, where the field carries the optional-setter directive and its
/// type is no optional container.
fn plan_setters(field: &FieldDeclaration, setters: &mut Vec<SetterSpec>) -> (done: Result<
    (),
    GenerationError,
>)
    ensures
        done is Err <==> invalid_target(field@),
        done is Ok ==> setter_views(final(setters)@) == setter_views(old(setters)@) + setters_of(
            field@,
        ),
        done matches Err(e) ==> e@ == rejection_of(field@),
{
    let ghost before = setter_views(setters@);
    let ghost annotations = field@.annotations;
    let mut k: usize = 0;
    while k < field.annotations.len()
        invariant
            k <= field.annotations.len(),
            annotations == field@.annotations,
            setter_views(setters@) == before + setters_among(field@, annotations.take(k as int)),
            forall|j: int|
                0 <= j < k && #[trigger] directive_of(annotations[j]) == Some(
                    DirectiveKind::OptionalSetter,
                ) ==> payload_of(field@.declared_type) is Ok,
        decreases field.annotations.len() - k,
    {
        proof {
            annotations.lemma_filter_map_take_succ(
                |a: AnnotationView| setter_of(field@, a),
                k as int,
            );
        }
        let ghost so_far = setter_views(setters@);
        match field.annotations[k].directive() {
            Some(DirectiveKind::DirectSetter) => {
                let entry = SetterSpec {
                    field: field.name.clone(),
                    param_type: field.declared_type.text(),
                    wrap: false,
                };
                setters.push(entry);
                assert(setter_views(setters@) =~= so_far.push(entry@));
            },
            Some(DirectiveKind::OptionalSetter) => {
                match optional_payload(&field.declared_type) {
                    Ok(inner) => {
                        let entry = SetterSpec {
                            field: field.name.clone(),
                            param_type: inner,
                            wrap: true,
                        };
                        setters.push(entry);
                        assert(setter_views(setters@) =~= so_far.push(entry@));
                    },
                    Err(reason) => {
                        assert(directive_of(annotations[k as int]) == Some(
                            DirectiveKind::OptionalSetter,
                        ));
                        return Err(
                            GenerationError::InvalidOptionalSetterTarget {
                                field: field.name.clone(),
                                reason,
                            },
                        );
                    },
                }
            },
            _ => {},
        }
        k += 1;
    }
    assert(annotations.take(k as int) =~= annotations);
    Ok(())
}

/// An outcome of planning, by the views of what it holds.
pub open spec fn planned_view(planned: Result<GenerationPlan, GenerationError>) -> Result<
    GenerationPlanView,
    GenerationErrorView,
> {
    match planned {
        Ok(plan) => Ok(plan@),
        Err(e) => Err(e@),
    }
}

/// Plans the generation for the fields of a record, which it only reads.
///
/// Returns the plan, or the rejection of the first field that carries the
/// optional-setter directive on a type that is no optional container.
pub fn plan_fields(fields: &Vec<FieldDeclaration>) -> (planned: Result<
    GenerationPlan,
    GenerationError,
>)
    ensures
        planned_view(planned) == plan_result(field_views(fields@)),
        planned is Err <==> exists|i: int|
            0 <= i < fields.len() && invalid_target(#[trigger] field_views(fields@)[i]),
{
    let ghost all = field_views(fields@);
    let mut params: Vec<ConstructorParam> = Vec::new();
    let mut defaults: Vec<DefaultedField> = Vec::new();
    let mut setters: Vec<SetterSpec> = Vec::new();
    let mut i: usize = 0;
    while i < fields.len()
        invariant
            i <= fields.len(),
            all == field_views(fields@),
            param_views(params@) == constructor_params(all.take(i as int)),
            default_views(defaults@) == default_filled_fields(all.take(i as int)),
            setter_views(setters@) == setter_specs(all.take(i as int)),
            forall|j: int| 0 <= j < i ==> !invalid_target(#[trigger] all[j]),
        decreases fields.len() - i,
    {
        let field = &fields[i];
        proof {
            all.lemma_filter_map_take_succ(
                |f: FieldDeclarationView| constructor_param_of(f),
                i as int,
            );
            all.lemma_filter_map_take_succ(
                |f: FieldDeclarationView| defaulted_field_of(f),
                i as int,
            );
            all.lemma_flat_map_take_append(|f: FieldDeclarationView| setters_of(f), i as int);
        }
        let ghost params_so_far = param_views(params@);
        let ghost defaults_so_far = default_views(defaults@);
        if field.carries(DirectiveKind::Required) {
            let entry = ConstructorParam {
                name: field.name.clone(),
                param_type: field.declared_type.text(),
            };
            params.push(entry);
            assert(param_views(params@) =~= params_so_far.push(entry@));
        } else {
            let entry = DefaultedField {
                name: field.name.clone(),
                value: "Default::default()".to_owned(),
            };
            defaults.push(entry);
            assert(default_views(defaults@) =~= defaults_so_far.push(entry@));
        }
        match plan_setters(field, &mut setters) {
            Ok(()) => {},
            Err(e) => {
                proof {
                    assert(is_first_invalid(all, i as int));
                    let k = choose|k: int| is_first_invalid(all, k);
                    assert(k == i);
                }
                return Err(e);
            },
        }
        i += 1;
    }
    proof {
        assert(all.take(i as int) =~= all);
        assert(forall|k: int| !is_first_invalid(all, k));
    }
    Ok(
        GenerationPlan {
            constructor_params: params,
            default_filled_fields: defaults,
            setter_specs: setters,
        },
    )
}

} // verus!

//! The code synthesizer: renders the plans as one block of code on the
//! declared type.
//!
//! The block holds one constructor, `new`, and one consuming setter for
//! each planned setter. The name of the type and its generic parameters
//! stand in it as they were declared.

use crate::plan::{
    ConstructorParam, ConstructorParamView, DefaultedField, DefaultedFieldView, GenerationPlan,
    GenerationPlanView, SetterSpec, SetterSpecView,
};
use crate::text::{concat_text, join, join_text, texts};
use vstd::prelude::*;
use vstd::string::*;

verus! {

/// The generated code: one block on the declared type.
#[derive(Clone, Debug, PartialEq, Eq)]
pub struct GeneratedUnit {
    /// The head of the block: `impl`, the generic parameters, and the type
    /// with its parameters.
    pub target: String,
    /// The constructor.
    pub constructor: String,
    /// The setters, in the order of the plan.
    pub setters: Vec<String>,
}

/// What a [`GeneratedUnit`] holds, as a mathematical value.
pub struct GeneratedUnitView {
    pub target: Seq<char>,
    pub constructor: Seq<char>,
    pub setters: Seq<Seq<char>>,
}

impl View for GeneratedUnit {
    type V = GeneratedUnitView;

    open spec fn view(&self) -> GeneratedUnitView {
        GeneratedUnitView {
            target: self.target@,
            constructor: self.constructor@,
            setters: texts(self.setters@),
        }
    }
}

/// The generic parameters between angle brackets, as declared, or nothing
/// where there are none.
pub open spec fn generics_text(parameters: Seq<Seq<char>>) -> Seq<char> {
    if parameters.len() == 0 {
        Seq::empty()
    } else {
        "<"@ + join(parameters, ", "@) + ">"@
    }
}

/// The head of the block. The parameters stand in it twice, unchanged:
/// behind `impl` and behind the name.
pub open spec fn target_text(name: Seq<char>, parameters: Seq<Seq<char>>) -> Seq<char> {
    "impl"@ + generics_text(parameters) + " "@ + name + generics_text(parameters)
}

/// A parameter in the constructor's parameter list: its name, its type,
/// and a comma behind it, behind the last one too.
pub open spec fn param_text(p: ConstructorParamView) -> Seq<char> {
    p.name + ": "@ + p.param_type + ","@
}

/// The line that binds a required field to the parameter of its name.
pub open spec fn param_init_text(p: ConstructorParamView) -> Seq<char> {
    "            "@ + p.name + ",\n"@
}

/// The line that binds a field to its default value.
pub open spec fn default_init_text(d: DefaultedFieldView) -> Seq<char> {
    "            "@ + d.name + ": "@ + d.value + ",\n"@
}

/// The constructor: its parameters are the required fields, and its body
/// binds every planned field once, the required fields first.
pub open spec fn constructor_text(plan: GenerationPlanView) -> Seq<char> {
    "    pub fn new("@ + join(
        plan.constructor_params.map_values(|p: ConstructorParamView| param_text(p)),
        " "@,
    ) + ") -> Self {\n        Self {\n"@ + plan.constructor_params.map_values(
        |p: ConstructorParamView| param_init_text(p),
    ).flatten() + plan.default_filled_fields.map_values(
        |d: DefaultedFieldView| default_init_text(d),
    ).flatten() + "        }\n    }\n"@
}

/// What a setter assigns: its argument, wrapped where the plan says so.
pub open spec fn setter_value_text(s: SetterSpecView) -> Seq<char> {
    if s.wrap {
        "Some("@ + s.field + ")"@
    } else {
        s.field
    }
}

/// A setter: it has the field's name, takes the instance and one argument
/// of the planned type, assigns the field and hands the instance back.
pub open spec fn setter_text(s: SetterSpecView) -> Seq<char> {
    "    pub fn "@ + s.field + "(mut self, "@ + s.field + ": "@ + s.param_type
        + ") -> Self {\n        self."@ + s.field + " = "@ + setter_value_text(s)
        + ";\n        self\n    }\n"@
}

/// The unit that is generated from a plan for a type of the given name and
/// generic parameters.
pub open spec fn unit_of(
    name: Seq<char>,
    parameters: Seq<Seq<char>>,
    plan: GenerationPlanView,
) -> GeneratedUnitView {
    GeneratedUnitView {
        target: target_text(name, parameters),
        constructor: constructor_text(plan),
        setters: plan.setter_specs.map_values(|s: SetterSpecView| setter_text(s)),
    }
}

/// The whole block as text.
pub open spec fn unit_text(unit: GeneratedUnitView) -> Seq<char> {
    unit.target + " {\n"@ + unit.constructor + unit.setters.flatten() + "}\n"@
}

fn render_generics(parameters: &Vec<String>) -> (out: String)
    ensures
        out@ == generics_text(texts(parameters@)),
{
    if parameters.len() == 0 {
        String::new()
    } else {
        let mut out = "<".to_owned();
        let inner = join_text(parameters, ", ");
        out.append(inner.as_str());
        out.append(">");
        out
    }
}

fn render_target(name: &str, parameters: &Vec<String>) -> (out: String)
    ensures
        out@ == target_text(name@, texts(parameters@)),
{
    let generics = render_generics(parameters);
    let mut out = "impl".to_owned();
    out.append(generics.as_str());
    out.append(" ");
    out.append(name);
    out.append(generics.as_str());
    out
}

impl ConstructorParam {
    /// The parameter as it stands in the constructor's parameter list.
    fn render(&self) -> (out: String)
        ensures
            out@ == param_text(self@),
    {
        let mut out = self.name.clone();
        out.append(": ");
        out.append(self.param_type.as_str());
        out.append(",");
        out
    }

    /// The line of the constructor's body that binds the field.
    fn render_init(&self) -> (out: String)
        ensures
            out@ == param_init_text(self@),
    {
        let mut out = "            ".to_owned();
        out.append(self.name.as_str());
        out.append(",\n");
        out
    }
}

impl DefaultedField {
    /// The line of the constructor's body that binds the field.
    fn render_init(&self) -> (out: String)
        ensures
            out@ == default_init_text(self@),
    {
        let mut out = "            ".to_owned();
        out.append(self.name.as_str());
        out.append(": ");
        out.append(self.value.as_str());
        out.append(",\n");
        out
    }
}

impl SetterSpec {
    /// The setter as code.
    pub fn render(&self) -> (out: String)
        ensures
            out@ == setter_text(self@),
    {
        let mut out = "    pub fn ".to_owned();
        out.append(self.field.as_str());
        out.append("(mut self, ");
        out.append(self.field.as_str());
        out.append(": ");
        out.append(self.param_type.as_str());
        out.append(") -> Self {\n        self.");
        out.append(self.field.as_str());
        out.append(" = ");
        if self.wrap {
            out.append("Some(");
            out.append(self.field.as_str());
            out.append(")");
        } else {
            out.append(self.field.as_str());
        }
        out.append(";\n        self\n    }\n");
        assert(out@ =~= setter_text(self@));
        out
    }
}

impl GenerationPlan {
    /// The constructor as code.
    pub fn render_constructor(&self) -> (out: String)
        ensures
            out@ == constructor_text(self@),
    {
        let mut list: Vec<String> = Vec::new();
        let mut inits: Vec<String> = Vec::new();
        let ghost params = self@.constructor_params;
        let ghost list_all = params.map_values(|p: ConstructorParamView| param_text(p));
        let ghost inits_all = params.map_values(|p: ConstructorParamView| param_init_text(p));
        let mut i: usize = 0;
        while i < self.constructor_params.len()
            invariant
                i <= self.constructor_params.len(),
                params == self@.constructor_params,
                list_all == params.map_values(|p: ConstructorParamView| param_text(p)),
                inits_all == params.map_values(|p: ConstructorParamView| param_init_text(p)),
                texts(list@) == list_all.take(i as int),
                texts(inits@) == inits_all.take(i as int),
            decreases self.constructor_params.len() - i,
        {
            let piece = self.constructor_params[i].render();
            let line = self.constructor_params[i].render_init();
            proof {
                assert(list_all.take(i as int + 1) =~= list_all.take(i as int).push(
                    list_all[i as int],
                ));
                assert(inits_all.take(i as int + 1) =~= inits_all.take(i as int).push(
                    inits_all[i as int],
                ));
                assert(texts(list@.push(piece)) =~= texts(list@).push(piece@));
                assert(texts(inits@.push(line)) =~= texts(inits@).push(line@));
            }
            list.push(piece);
            inits.push(line);
            i += 1;
        }
        proof {
            assert(list_all.take(i as int) =~= list_all);
            assert(inits_all.take(i as int) =~= inits_all);
        }
        let mut fills: Vec<String> = Vec::new();
        let ghost defaults = self@.default_filled_fields;
        let ghost fills_all = defaults.map_values(|d: DefaultedFieldView| default_init_text(d));
        let mut j: usize = 0;
        while j < self.default_filled_fields.len()
            invariant
                j <= self.default_filled_fields.len(),
                defaults == self@.default_filled_fields,
                fills_all == defaults.map_values(|d: DefaultedFieldView| default_init_text(d)),
                texts(fills@) == fills_all.take(j as int),
            decreases self.default_filled_fields.len() - j,
        {
            let line = self.default_filled_fields[j].render_init();
            proof {
                assert(fills_all.take(j as int + 1) =~= fills_all.take(j as int).push(
                    fills_all[j as int],
                ));
                assert(texts(fills@.push(line)) =~= texts(fills@).push(line@));
            }
            fills.push(line);
            j += 1;
        }
        proof {
            assert(fills_all.take(j as int) =~= fills_all);
        }
        let mut out = "    pub fn new(".to_owned();
        let parameters = join_text(&list, " ");
        out.append(parameters.as_str());
        out.append(") -> Self {\n        Self {\n");
        let bound = concat_text(&inits);
        out.append(bound.as_str());
        let filled = concat_text(&fills);
        out.append(filled.as_str());
        out.append("        }\n    }\n");
        out
    }
}

/// Renders the plans as one block of code on the type of the given name
/// and generic parameters. The block holds one constructor, and one setter
/// for each planned setter, in the plan's order.
pub fn synthesize(name: &str, parameters: &Vec<String>, plan: &GenerationPlan) -> (unit:
    GeneratedUnit)
    ensures
        unit@ == unit_of(name@, texts(parameters@), plan@),
{
    let target = render_target(name, parameters);
    let constructor = plan.render_constructor();
    let mut setters: Vec<String> = Vec::new();
    let ghost specs = plan@.setter_specs;
    let ghost all = specs.map_values(|s: SetterSpecView| setter_text(s));
    let mut i: usize = 0;
    while i < plan.setter_specs.len()
        invariant
            i <= plan.setter_specs.len(),
            specs == plan@.setter_specs,
            all == specs.map_values(|s: SetterSpecView| setter_text(s)),
            texts(setters@) == all.take(i as int),
        decreases plan.setter_specs.len() - i,
    {
        let piece = plan.setter_specs[i].render();
        proof {
            assert(all.take(i as int + 1) =~= all.take(i as int).push(all[i as int]));
            assert(texts(setters@.push(piece)) =~= texts(setters@).push(piece@));
        }
        setters.push(piece);
        i += 1;
    }
    proof {
        assert(all.take(i as int) =~= all);
    }
    GeneratedUnit { target, constructor, setters }
}

impl GeneratedUnit {
    /// The whole block as text: the head, the constructor and the setters
    /// between braces.
    pub fn text(&self) -> (out: String)
        ensures
            out@ == unit_text(self@),
    {
        let mut out = self.target.clone();
        out.append(" {\n");
        out.append(self.constructor.as_str());
        let setters = concat_text(&self.setters);
        out.append(setters.as_str());
        out.append("}\n");
        out
    }
}

} // verus!

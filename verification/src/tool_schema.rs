//! The parameter schema of a tool, as it is offered to the model: one entry
//! per parameter, with its JSON type, description, allowed values, bounds,
//! default and whether it is required.

use vstd::prelude::*;

verus! {

/// The JSON type of a parameter.
#[derive(Debug, Clone, Copy, PartialEq, Eq, Structural)]
pub enum ParamKind {
    String,
    Integer,
}

/// The default value of a parameter.
#[derive(Debug, Clone, Copy)]
pub enum ParamDefault {
    Text(&'static str),
    Number(i64),
}

/// A default value, as the specifications see it.
pub enum DefaultView {
    Text(Seq<char>),
    Number(i64),
}

impl View for ParamDefault {
    type V = DefaultView;

    open spec fn view(&self) -> DefaultView {
        match *self {
            ParamDefault::Text(t) => DefaultView::Text(t@),
            ParamDefault::Number(n) => DefaultView::Number(n),
        }
    }
}

/// One parameter of a tool.
#[derive(Debug, Clone)]
pub struct ToolParameter {
    pub name: &'static str,
    pub kind: ParamKind,
    pub description: &'static str,
    /// The values allowed, where the parameter is an enumeration.
    pub choices: Vec<&'static str>,
    pub minimum: Option<i64>,
    pub maximum: Option<i64>,
    pub default: Option<ParamDefault>,
    pub required: bool,
}

/// A parameter, as the specifications see it.
pub struct ParamView {
    pub name: Seq<char>,
    pub kind: ParamKind,
    pub description: Seq<char>,
    pub choices: Seq<Seq<char>>,
    pub minimum: Option<i64>,
    pub maximum: Option<i64>,
    pub default: Option<DefaultView>,
    pub required: bool,
}

impl View for ToolParameter {
    type V = ParamView;

    open spec fn view(&self) -> ParamView {
        ParamView {
            name: self.name@,
            kind: self.kind,
            description: self.description@,
            choices: self.choices@.map_values(|c: &'static str| c@),
            minimum: self.minimum,
            maximum: self.maximum,
            default: match self.default {
                Some(d) => Some(d@),
                None => None,
            },
            required: self.required,
        }
    }
}

/// A parameter with no allowed values, bounds or default.
pub open spec fn plain_param(name: Seq<char>, kind: ParamKind, description: Seq<char>, required: bool) -> ParamView {
    ParamView {
        name,
        kind,
        description,
        choices: Seq::empty(),
        minimum: None,
        maximum: None,
        default: None,
        required,
    }
}

/// The views of a list of parameters.
pub open spec fn params_view(ps: Seq<ToolParameter>) -> Seq<ParamView> {
    ps.map_values(|p: ToolParameter| p@)
}

/// Builds a parameter with no allowed values, bounds or default.
pub fn plain(name: &'static str, kind: ParamKind, description: &'static str, required: bool) -> (p: ToolParameter)
    ensures
        p@ == plain_param(name@, kind, description@, required),
{
    let p = ToolParameter {
        name,
        kind,
        description,
        choices: Vec::new(),
        minimum: None,
        maximum: None,
        default: None,
        required,
    };
    assert(p@.choices =~= Seq::<Seq<char>>::empty());
    p
}

/// The parameter with its allowed values replaced.
pub fn with_choices(p: ToolParameter, choices: Vec<&'static str>) -> (r: ToolParameter)
    ensures
        r@ == (ParamView { choices: choices@.map_values(|c: &'static str| c@), ..p@ }),
{
    ToolParameter { choices, ..p }
}

/// The parameter with its bounds replaced.
pub fn with_bounds(p: ToolParameter, minimum: i64, maximum: i64) -> (r: ToolParameter)
    ensures
        r@ == (ParamView { minimum: Some(minimum), maximum: Some(maximum), ..p@ }),
{
    ToolParameter { minimum: Some(minimum), maximum: Some(maximum), ..p }
}

/// The parameter with its default replaced.
pub fn with_default(p: ToolParameter, default: ParamDefault) -> (r: ToolParameter)
    ensures
        r@ == (ParamView { default: Some(default@), ..p@ }),
{
    ToolParameter { default: Some(default), ..p }
}

} // verus!

//! What the interface tells of its own parameters: the parameters of
//! paging, and those by which the rows of a table are filtered.

use crate::models::query::views;
use crate::text::joined;
use vstd::prelude::*;

verus! {

/// The type of a parameter.
#[derive(Debug, Clone, Copy, PartialEq, Eq)]
pub enum ParameterType {
    String,
    Integer,
    Boolean,
    Array,
    Object,
    Number,
}

/// What is told of one parameter.
#[derive(Debug, PartialEq, Eq)]
pub struct ParameterDoc {
    pub name: String,
    pub parameter_type: ParameterType,
    pub description: String,
    pub required: bool,
    pub default_value: Option<String>,
    pub enum_values: Vec<String>,
    pub example: Option<String>,
}

/// What a `ParameterDoc` stands for.
pub struct Parameter {
    pub name: Seq<char>,
    pub parameter_type: ParameterType,
    pub description: Seq<char>,
    pub required: bool,
    pub default_value: Option<Seq<char>>,
    pub enum_values: Seq<Seq<char>>,
    pub example: Option<Seq<char>>,
}

impl View for ParameterDoc {
    type V = Parameter;

    open spec fn view(&self) -> Parameter {
        Parameter {
            name: self.name@,
            parameter_type: self.parameter_type,
            description: self.description@,
            required: self.required,
            default_value: match self.default_value {
                Some(text) => Some(text@),
                None => None,
            },
            enum_values: views(self.enum_values@),
            example: match self.example {
                Some(text) => Some(text@),
                None => None,
            },
        }
    }
}

/// The parameter that is only named, typed and described.
pub open spec fn plain_parameter(
    name: Seq<char>,
    parameter_type: ParameterType,
    description: Seq<char>,
    required: bool,
) -> Parameter {
    Parameter {
        name: name,
        parameter_type: parameter_type,
        description: description,
        required: required,
        default_value: None,
        enum_values: Seq::empty(),
        example: None,
    }
}

impl ParameterDoc {
    /// The parameter `name`, without a default, without chosen values and
    /// without an example.
    pub fn new(name: &str, param_type: ParameterType, description: &str, required: bool) -> (doc:
        ParameterDoc)
        ensures
            doc@ == plain_parameter(name@, param_type, description@, required),
    {
        let doc = ParameterDoc {
            name: name.to_owned(),
            parameter_type: param_type,
            description: description.to_owned(),
            required,
            default_value: None,
            enum_values: Vec::new(),
            example: None,
        };
        assert(views(doc.enum_values@) =~= Seq::<Seq<char>>::empty());
        doc
    }

    /// The parameter with the default `default`; nothing else changes.
    pub fn with_default(self, default: &str) -> (doc: ParameterDoc)
        ensures
            doc@ == (Parameter { default_value: Some(default@), ..self@ }),
    {
        let mut doc = self;
        doc.default_value = Some(default.to_owned());
        doc
    }

    /// The parameter with `values` as the values it may take; nothing else
    /// changes.
    pub fn with_enum_values(self, values: Vec<String>) -> (doc: ParameterDoc)
        ensures
            doc@ == (Parameter { enum_values: views(values@), ..self@ }),
    {
        let mut doc = self;
        doc.enum_values = values;
        doc
    }

    /// The parameter with the example `example`; nothing else changes.
    pub fn with_example(self, example: &str) -> (doc: ParameterDoc)
        ensures
            doc@ == (Parameter { example: Some(example@), ..self@ }),
    {
        let mut doc = self;
        doc.example = Some(example.to_owned());
        doc
    }
}

/// The parameters of paging: the page and its size, with the defaults of a
/// listing.
pub open spec fn paging_parameters() -> Seq<Parameter> {
    seq![
        Parameter {
            default_value: Some("1"@),
            example: Some("2"@),
            ..plain_parameter("page"@, ParameterType::Integer, "Page number"@, false)
        },
        Parameter {
            default_value: Some("10"@),
            example: Some("25"@),
            ..plain_parameter("per_page"@, ParameterType::Integer, "Items per page"@, false)
        },
    ]
}

/// The parameters of paging.
pub fn pagination_parameters() -> (parameters: Vec<ParameterDoc>)
    ensures
        views(parameters@) == paging_parameters(),
{
    let mut parameters: Vec<ParameterDoc> = Vec::new();
    parameters.push(
        ParameterDoc::new("page", ParameterType::Integer, "Page number", false).with_default(
            "1",
        ).with_example("2"),
    );
    parameters.push(
        ParameterDoc::new("per_page", ParameterType::Integer, "Items per page", false).with_default(
            "10",
        ).with_example("25"),
    );
    assert(views(parameters@) =~= paging_parameters());
    parameters
}

/// The first `n` texts, separated by commas.
pub open spec fn comma_list(texts: Seq<Seq<char>>, n: int) -> Seq<char>
    decreases n,
{
    if n <= 0 {
        Seq::empty()
    } else if n == 1 {
        texts[0]
    } else {
        comma_list(texts, n - 1) + ","@ + texts[n - 1]
    }
}

/// How many fields the example of a projection names: the first three, or
/// all where there are fewer.
pub open spec fn example_length(fields: Seq<Seq<char>>) -> int {
    if fields.len() < 3 {
        fields.len() as int
    } else {
        3
    }
}

/// The parameter that names the projection, with the first fields as its
/// example.
pub open spec fn columns_parameter(fields: Seq<Seq<char>>) -> Parameter {
    Parameter {
        example: Some(comma_list(fields, example_length(fields))),
        ..plain_parameter(
            "columns"@,
            ParameterType::String,
            "Comma-separated list of columns to return"@,
            false,
        )
    }
}

/// The parameter that filters by `field` under the suffix `suffix`, which is
/// described by the words `before` and `after` around the field.
pub open spec fn filter_parameter(
    field: Seq<char>,
    suffix: Seq<char>,
    before: Seq<char>,
    after: Seq<char>,
) -> Parameter {
    plain_parameter(field + suffix, ParameterType::String, before + field + after, false)
}

/// The parameters that filter by one field: by its exact value, and under
/// each suffix that is told of.
pub open spec fn field_parameters(field: Seq<char>) -> Seq<Parameter> {
    seq![
        filter_parameter(field, ""@, "Filter by exact "@, " value"@),
        filter_parameter(field, "_like"@, "Filter "@, " with LIKE pattern"@),
        filter_parameter(field, "_gt"@, "Filter "@, " greater than value"@),
        filter_parameter(field, "_lt"@, "Filter "@, " less than value"@),
        filter_parameter(field, "_ne"@, "Filter "@, " not equal to value"@),
    ]
}

/// The parameters of filtering by the first `n` fields: the projection, then
/// the parameters of each field, in order.
pub open spec fn filter_parameters(fields: Seq<Seq<char>>, n: int) -> Seq<Parameter>
    decreases n,
{
    if n <= 0 {
        seq![columns_parameter(fields)]
    } else {
        filter_parameters(fields, n - 1) + field_parameters(fields[n - 1])
    }
}

fn filter_doc(field: &str, suffix: &str, before: &str, after: &str) -> (doc: ParameterDoc)
    ensures
        doc@ == filter_parameter(field@, suffix@, before@, after@),
{
    let name = joined(field, suffix);
    let mut description = joined(before, field);
    description.append(after);
    ParameterDoc::new(name.as_str(), ParameterType::String, description.as_str(), false)
}

/// The parameters of filtering the rows of a table with the columns
/// `available_fields`: the projection, whose example names the first three
/// columns, or all where there are fewer; then, for each column, the filter
/// by its exact value and the filters under `_like`, `_gt`, `_lt` and `_ne`.
pub fn filtering_parameters(available_fields: &[&str]) -> (parameters: Vec<ParameterDoc>)
    ensures
        views(parameters@) == filter_parameters(
            views(available_fields@),
            available_fields@.len() as int,
        ),
{
    let ghost fields = views(available_fields@);
    let shown: usize = if available_fields.len() < 3 {
        available_fields.len()
    } else {
        3
    };
    let mut example = String::new();
    let mut k: usize = 0;
    assert(example@ =~= comma_list(fields, 0));
    while k < shown
        invariant
            k <= shown <= available_fields.len(),
            fields == views(available_fields@),
            example@ == comma_list(fields, k as int),
        decreases shown - k,
    {
        if k > 0 {
            example.append(",");
        }
        example.append(available_fields[k]);
        proof {
            assert(fields[k as int] == available_fields@[k as int]@);
            if k == 0 {
                assert(example@ =~= fields[0]);
            }
        }
        k += 1;
    }
    let mut parameters: Vec<ParameterDoc> = Vec::new();
    parameters.push(
        ParameterDoc::new(
            "columns",
            ParameterType::String,
            "Comma-separated list of columns to return",
            false,
        ).with_example(example.as_str()),
    );
    assert(views(parameters@) =~= filter_parameters(fields, 0));
    let mut i: usize = 0;
    while i < available_fields.len()
        invariant
            i <= available_fields.len(),
            fields == views(available_fields@),
            views(parameters@) == filter_parameters(fields, i as int),
        decreases available_fields.len() - i,
    {
        let field = available_fields[i];
        let ghost before = views(parameters@);
        assert(fields[i as int] == field@);
        parameters.push(filter_doc(field, "", "Filter by exact ", " value"));
        parameters.push(filter_doc(field, "_like", "Filter ", " with LIKE pattern"));
        parameters.push(filter_doc(field, "_gt", "Filter ", " greater than value"));
        parameters.push(filter_doc(field, "_lt", "Filter ", " less than value"));
        parameters.push(filter_doc(field, "_ne", "Filter ", " not equal to value"));
        assert(views(parameters@) =~= before + field_parameters(field@));
        i += 1;
    }
    parameters
}

} // verus!

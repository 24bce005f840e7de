//! The filter compiler: three client-facing filter syntaxes, each compiled to
//! an ordered list of predicates.
//!
//! - flat filters: `field=value` pairs, with a suffix on the field for the
//!   operator;
//! - the legacy form: an array of criteria;
//! - the structured form: an object keyed by column.

use crate::json::{
    find_member, item_trees, json_document, json_error_message, json_pretty_text, json_text,
    lemma_array_view, lemma_object_view, member_trees, parse_json, tree_member,
    write_json, write_json_pretty, JsonTree, JsonValue,
};
use crate::models::query::{views, Condition, QueryValue, SqlValue, WhereCondition};
use crate::text::{
    contains_text, decimal_digits, ends_with, escape_literal, escaped_literal, has_prefix,
    has_suffix, is_float, is_float_text, is_word_of, joined, parse_bool, parse_i64, parsed_bool,
    parsed_i64, same_text, strip_suffix, texts, u64_to_text, without_suffix,
};
use crate::errors::{parse_error, ErrorKind, Failure};
use vstd::prelude::*;

pub mod guarantees;

verus! {

/// The value that a text denotes: an integer where it reads as one, else a
/// floating-point number, else a truth value, else the text itself.
pub open spec fn typed_value(text: Seq<char>) -> SqlValue {
    match parsed_i64(text) {
        Some(i) => SqlValue::Integer(i as int),
        None => if is_float_text(text) {
            SqlValue::Float(text)
        } else {
            match parsed_bool(text) {
                Some(b) => SqlValue::Boolean(b),
                None => SqlValue::Text(text),
            }
        },
    }
}

/// `text` between two percent signs: the pattern of a `LIKE` that finds it
/// anywhere.
pub open spec fn like_pattern(text: Seq<char>) -> Seq<char> {
    "%"@ + text + "%"@
}

/// The value of a criterion: as `typed_value`, but a text under `LIKE`
/// becomes a pattern.
pub open spec fn operand_value(text: Seq<char>, operator: Seq<char>) -> SqlValue {
    match typed_value(text) {
        SqlValue::Text(t) => if operator == "LIKE"@ {
            SqlValue::Text(like_pattern(t))
        } else {
            SqlValue::Text(t)
        },
        other => other,
    }
}

/// The value of a flat filter: `NULL` for an empty value and for the
/// literal `null`; a pattern under `LIKE`; else as `typed_value`.
pub open spec fn filter_value(text: Seq<char>, operator: Seq<char>) -> SqlValue {
    if text.len() == 0 || text == "null"@ {
        SqlValue::Null
    } else if operator == "LIKE"@ {
        SqlValue::Text(like_pattern(text))
    } else {
        typed_value(text)
    }
}

/// The operator that the suffix of a flat filter's key selects.
pub open spec fn filter_operator(key: Seq<char>) -> Seq<char> {
    if has_suffix(key, "_like"@) {
        "LIKE"@
    } else if has_suffix(key, "_gt"@) {
        ">"@
    } else if has_suffix(key, "_gte"@) {
        ">="@
    } else if has_suffix(key, "_lt"@) {
        "<"@
    } else if has_suffix(key, "_lte"@) {
        "<="@
    } else if has_suffix(key, "_ne"@) {
        "!="@
    } else {
        "="@
    }
}

/// The column that a flat filter's key names: the key without its suffix,
/// which is taken off once.
pub open spec fn filter_column(key: Seq<char>) -> Seq<char> {
    if has_suffix(key, "_like"@) {
        without_suffix(key, "_like"@)
    } else if has_suffix(key, "_gt"@) {
        without_suffix(key, "_gt"@)
    } else if has_suffix(key, "_gte"@) {
        without_suffix(key, "_gte"@)
    } else if has_suffix(key, "_lt"@) {
        without_suffix(key, "_lt"@)
    } else if has_suffix(key, "_lte"@) {
        without_suffix(key, "_lte"@)
    } else if has_suffix(key, "_ne"@) {
        without_suffix(key, "_ne"@)
    } else {
        key
    }
}

/// The predicate of one flat filter.
pub open spec fn filter_condition(key: Seq<char>, value: Seq<char>) -> Condition {
    Condition {
        column: filter_column(key),
        operator: filter_operator(key),
        value: filter_value(value, filter_operator(key)),
        logical_operator: None,
    }
}

/// The keys that are no filters: they page and shape the result.
pub open spec fn default_excluded() -> Seq<Seq<char>> {
    seq!["page"@, "per_page"@, "columns"@, "search"@]
}

/// The predicates of the flat filters, in their order: one for each filter
/// whose key is not excluded.
pub open spec fn simple_conditions(filters: Seq<(String, String)>, excluded: Seq<Seq<char>>) -> Seq<
    Condition,
>
    decreases filters.len(),
{
    if filters.len() == 0 {
        Seq::empty()
    } else {
        let before = simple_conditions(filters.drop_last(), excluded);
        if excluded.contains(filters.last().0@) {
            before
        } else {
            before.push(filter_condition(filters.last().0@, filters.last().1@))
        }
    }
}

/// How a criterion is joined to the one before it.
#[derive(Debug, Clone, Copy, PartialEq, Eq)]
pub enum LogicalOperator {
    And,
    Or,
}

/// One criterion of the legacy form: a comparison of `column` with `term`.
/// Without `comparison_operator` the comparison is `=`; without `operator`
/// the criterion is joined by `AND`.
#[derive(Debug, PartialEq, Eq)]
pub struct SearchCriterion {
    pub column: String,
    pub term: String,
    pub operator: Option<LogicalOperator>,
    pub comparison_operator: Option<String>,
}

/// What a `SearchCriterion` stands for.
pub struct Criterion {
    pub column: Seq<char>,
    pub term: Seq<char>,
    pub operator: Option<LogicalOperator>,
    pub comparison_operator: Option<Seq<char>>,
}

impl View for SearchCriterion {
    type V = Criterion;

    open spec fn view(&self) -> Criterion {
        Criterion {
            column: self.column@,
            term: self.term@,
            operator: self.operator,
            comparison_operator: match self.comparison_operator {
                Some(operator) => Some(operator@),
                None => None,
            },
        }
    }
}

/// One comparison of a column with a value, and the word that joins it to
/// the other comparisons of that column.
#[derive(Debug, PartialEq, Eq)]
pub struct Operation {
    pub value: String,
    pub comparison: String,
    pub logical: String,
}

/// What an `Operation` stands for.
pub struct Comparison {
    pub value: Seq<char>,
    pub operator: Seq<char>,
    pub logical: Seq<char>,
}

impl View for Operation {
    type V = Comparison;

    open spec fn view(&self) -> Comparison {
        Comparison { value: self.value@, operator: self.comparison@, logical: self.logical@ }
    }
}

/// The word of a logical operator; `AND` where none is given.
pub open spec fn logical_word(operator: Option<LogicalOperator>) -> Seq<char> {
    match operator {
        Some(LogicalOperator::Or) => "OR"@,
        _ => "AND"@,
    }
}

/// The comparison operator of a criterion; `=` where none is given.
pub open spec fn comparison_of(criterion: Criterion) -> Seq<char> {
    match criterion.comparison_operator {
        Some(operator) => operator,
        None => "="@,
    }
}

/// The comparison that a criterion asks for.
pub open spec fn criterion_comparison(criterion: Criterion) -> Comparison {
    Comparison {
        value: criterion.term,
        operator: comparison_of(criterion),
        logical: logical_word(criterion.operator),
    }
}

/// The connector of a predicate that stands for a column: none for the first
/// column, `AND` for every later one.
pub open spec fn lead(first: bool) -> Option<Seq<char>> {
    if first {
        None
    } else {
        Some("AND"@)
    }
}

/// The values of the comparisons as quoted literals, separated by a comma and
/// a space.
pub open spec fn quoted_values(comparisons: Seq<Comparison>) -> Seq<char>
    decreases comparisons.len(),
{
    if comparisons.len() == 0 {
        Seq::empty()
    } else {
        let before = quoted_values(comparisons.drop_last());
        let separated = if comparisons.len() > 1 {
            before + ", "@
        } else {
            before
        };
        separated + "'"@ + escaped_literal(comparisons.last().value) + "'"@
    }
}

/// The list of an `IN`: the quoted values in parentheses.
pub open spec fn in_list(comparisons: Seq<Comparison>) -> Seq<char> {
    "("@ + quoted_values(comparisons) + ")"@
}

/// The value of a comparison as it stands inside a quoted literal: quotes
/// and backslashes doubled, and under `LIKE` between percent signs.
pub open spec fn literal(comparison: Comparison) -> Seq<char> {
    if comparison.operator == "LIKE"@ {
        like_pattern(escaped_literal(comparison.value))
    } else {
        escaped_literal(comparison.value)
    }
}

/// One comparison written out: the column in back quotes, the operator, the
/// value as a quoted literal.
pub open spec fn comparison_text(column: Seq<char>, comparison: Comparison) -> Seq<char> {
    "`"@ + column + "` "@ + comparison.operator + " '"@ + literal(comparison) + "'"@
}

/// The comparisons written out and joined by `connector`.
pub open spec fn joined_comparisons(
    column: Seq<char>,
    comparisons: Seq<Comparison>,
    connector: Seq<char>,
) -> Seq<char>
    decreases comparisons.len(),
{
    if comparisons.len() == 0 {
        Seq::empty()
    } else {
        let before = joined_comparisons(column, comparisons.drop_last(), connector);
        let separated = if comparisons.len() > 1 {
            before + " "@ + connector + " "@
        } else {
            before
        };
        separated + comparison_text(column, comparisons.last())
    }
}

/// The fragment of a raw predicate: the joined comparisons in parentheses.
pub open spec fn raw_group(column: Seq<char>, comparisons: Seq<Comparison>, connector: Seq<char>) -> Seq<
    char,
> {
    "("@ + joined_comparisons(column, comparisons, connector) + ")"@
}

/// Whether every comparison is an equality joined by `OR`.
pub open spec fn all_equal_with_or(comparisons: Seq<Comparison>) -> bool {
    forall|i: int|
        0 <= i < comparisons.len() ==> (#[trigger] comparisons[i]).operator == "="@
            && comparisons[i].logical == "OR"@
}

/// The one predicate that stands for all comparisons of a column.
///
/// - A single comparison is the predicate itself, its value typed.
/// - Equalities joined by `OR` collapse into one `IN` with the list of their
///   values.
/// - Anything else becomes one raw predicate, which holds the comparisons
///   written out, joined by `connector`.
pub open spec fn group_condition(
    column: Seq<char>,
    comparisons: Seq<Comparison>,
    connector: Seq<char>,
    first: bool,
) -> Condition {
    if comparisons.len() == 1 {
        Condition {
            column: column,
            operator: comparisons[0].operator,
            value: operand_value(comparisons[0].value, comparisons[0].operator),
            logical_operator: lead(first),
        }
    } else if all_equal_with_or(comparisons) {
        Condition {
            column: column,
            operator: "IN"@,
            value: SqlValue::Text(in_list(comparisons)),
            logical_operator: lead(first),
        }
    } else {
        Condition {
            column: "RAW_SQL"@,
            operator: "RAW"@,
            value: SqlValue::Text(raw_group(column, comparisons, connector)),
            logical_operator: lead(first),
        }
    }
}

/// The columns that the criteria name, each once, in the order in which they
/// first occur.
pub open spec fn criterion_columns(criteria: Seq<Criterion>) -> Seq<Seq<char>>
    decreases criteria.len(),
{
    if criteria.len() == 0 {
        Seq::empty()
    } else {
        let before = criterion_columns(criteria.drop_last());
        if before.contains(criteria.last().column) {
            before
        } else {
            before.push(criteria.last().column)
        }
    }
}

/// The comparisons that the criteria ask of `column`, in the criteria's order.
pub open spec fn column_comparisons(criteria: Seq<Criterion>, column: Seq<char>) -> Seq<
    Comparison,
>
    decreases criteria.len(),
{
    if criteria.len() == 0 {
        Seq::empty()
    } else {
        let before = column_comparisons(criteria.drop_last(), column);
        if criteria.last().column == column {
            before.push(criterion_comparison(criteria.last()))
        } else {
            before
        }
    }
}

/// The predicates of the legacy form: one for each column that the criteria
/// name, in the order in which the columns first occur. Within a raw
/// predicate the comparisons are joined by `OR`.
pub open spec fn grouped_conditions(criteria: Seq<Criterion>) -> Seq<Condition> {
    let columns = criterion_columns(criteria);
    Seq::new(
        columns.len(),
        |g: int| group_condition(columns[g], column_comparisons(criteria, columns[g]), "OR"@, g == 0),
    )
}

/// The comparison operators that a criterion may carry.
pub open spec fn valid_operators() -> Seq<Seq<char>> {
    seq!["="@, "!="@, ">"@, "<"@, ">="@, "<="@, "LIKE"@, "NOT LIKE"@]
}

/// What is wrong with the criterion at `index`, if anything: an empty column,
/// an empty term, or a comparison operator that is not among the valid ones.
pub open spec fn criterion_fault(criterion: Criterion, index: nat) -> Option<Seq<char>> {
    if criterion.column.len() == 0 {
        Some("Search criterion "@ + decimal_digits(index) + " has empty column name"@)
    } else if criterion.term.len() == 0 {
        Some("Search criterion "@ + decimal_digits(index) + " has empty search term"@)
    } else {
        match criterion.comparison_operator {
            Some(operator) => if valid_operators().contains(operator) {
                None
            } else {
                Some(
                    "Search criterion "@ + decimal_digits(index)
                        + " has invalid comparison operator '"@ + operator
                        + "'. Valid operators: [\"=\", \"!=\", \">\", \"<\", \">=\", \"<=\", \"LIKE\", \"NOT LIKE\"]"@,
                )
            },
            None => None,
        }
    }
}

/// The fault of the first criterion that has one.
pub open spec fn first_fault(criteria: Seq<Criterion>) -> Option<Seq<char>>
    decreases criteria.len(),
{
    if criteria.len() == 0 {
        None
    } else {
        match first_fault(criteria.drop_last()) {
            Some(message) => Some(message),
            None => criterion_fault(criteria.last(), (criteria.len() - 1) as nat),
        }
    }
}

/// What is asked of one value of a column in the structured form: the word
/// that joins it to the other values, with or without a comparison operator
/// (`=` where there is none).
#[derive(Debug, PartialEq, Eq)]
pub enum ColumnOperation {
    Simple(String),
    WithComparison { comparison_operator: Option<String>, logical_operator: String },
}

/// What is asked of one column in the structured form: equality with one
/// value, or an operation for each of several values. A value that stands
/// twice is compared twice.
#[derive(Debug, PartialEq, Eq)]
pub enum ColumnCriteria {
    Simple(String),
    Complex(Vec<(String, ColumnOperation)>),
}

/// The structured form: what is asked of each column, in the order in which
/// the columns are compiled. A column that stands twice gives two
/// predicates, one for each place; nothing is merged and nothing dropped.
#[derive(Debug, PartialEq, Eq)]
pub struct StructuredSearch {
    pub columns: Vec<(String, ColumnCriteria)>,
}

/// A column and the comparisons that are asked of it.
pub struct ColumnGroup {
    pub column: Seq<char>,
    pub comparisons: Seq<Comparison>,
}

/// The comparison that an operation asks of `value`.
pub open spec fn operation_comparison(value: Seq<char>, operation: ColumnOperation) -> Comparison {
    match operation {
        ColumnOperation::Simple(logical) => Comparison {
            value: value,
            operator: "="@,
            logical: logical@,
        },
        ColumnOperation::WithComparison { comparison_operator, logical_operator } => Comparison {
            value: value,
            operator: match comparison_operator {
                Some(operator) => operator@,
                None => "="@,
            },
            logical: logical_operator@,
        },
    }
}

/// The comparisons that are asked of a column.
pub open spec fn criteria_comparisons(criteria: ColumnCriteria) -> Seq<Comparison> {
    match criteria {
        ColumnCriteria::Simple(value) => seq![
            Comparison { value: value@, operator: "="@, logical: "AND"@ },
        ],
        ColumnCriteria::Complex(operations) => Seq::new(
            operations@.len(),
            |i: int| operation_comparison(operations@[i].0@, operations@[i].1),
        ),
    }
}

/// The groups that a list of columns stands for.
pub open spec fn column_groups(columns: Seq<(String, ColumnCriteria)>) -> Seq<ColumnGroup> {
    Seq::new(
        columns.len(),
        |g: int| ColumnGroup { column: columns[g].0@, comparisons: criteria_comparisons(columns[g].1) },
    )
}

impl View for StructuredSearch {
    type V = Seq<ColumnGroup>;

    open spec fn view(&self) -> Seq<ColumnGroup> {
        column_groups(self.columns@)
    }
}

/// The predicates of the structured form: one for each column, in order.
/// Within a raw predicate the comparisons are joined by `OR`, whatever word
/// the values carry: the word of a value only decides whether equalities
/// collapse into an `IN`.
pub open spec fn group_conditions(groups: Seq<ColumnGroup>) -> Seq<Condition> {
    Seq::new(
        groups.len(),
        |g: int| group_condition(groups[g].column, groups[g].comparisons, "OR"@, g == 0),
    )
}

/// Whether every group asks at least one comparison.
pub open spec fn no_empty_group(groups: Seq<ColumnGroup>) -> bool {
    forall|g: int| 0 <= g < groups.len() ==> (#[trigger] groups[g]).comparisons.len() > 0
}

/// The message for a comparison of the structured form whose operator is
/// not among the valid ones.
pub open spec fn operator_fault(column: Seq<char>, operator: Seq<char>) -> Seq<char> {
    "Invalid structured search format: column '"@ + column
        + "' has invalid comparison operator '"@ + operator
        + "'. Valid operators: [\"=\", \"!=\", \">\", \"<\", \">=\", \"<=\", \"LIKE\", \"NOT LIKE\"]"@
}

/// The operator of the first of the first `n` comparisons whose operator is
/// not among the valid ones.
pub open spec fn first_invalid_operator(comparisons: Seq<Comparison>, n: int) -> Option<Seq<char>>
    decreases n,
{
    if n <= 0 {
        None
    } else {
        match first_invalid_operator(comparisons, n - 1) {
            Some(operator) => Some(operator),
            None => if valid_operators().contains(comparisons[n - 1].operator) {
                None
            } else {
                Some(comparisons[n - 1].operator)
            },
        }
    }
}

/// What is wrong with a column of the structured form, if anything: it asks
/// no comparison, or it asks one under an operator that is not among the
/// valid ones; of several such operators the first is named.
pub open spec fn group_fault(group: ColumnGroup) -> Option<Seq<char>> {
    if group.comparisons.len() == 0 {
        Some(column_fault(group.column))
    } else {
        match first_invalid_operator(group.comparisons, group.comparisons.len() as int) {
            Some(operator) => Some(operator_fault(group.column, operator)),
            None => None,
        }
    }
}

/// The fault of the first of the first `n` columns that has one.
pub open spec fn first_group_fault(groups: Seq<ColumnGroup>, n: int) -> Option<Seq<char>>
    decreases n,
{
    if n <= 0 {
        None
    } else {
        match first_group_fault(groups, n - 1) {
            Some(message) => Some(message),
            None => group_fault(groups[n - 1]),
        }
    }
}

/// What the structured form compiles to. A column that asks no comparison is
/// refused, and so is a comparison under an operator that is not among the
/// valid ones, as in the legacy form: the failure names the first such
/// column and, where it is the operator, the operator. Otherwise every
/// column gives its predicate.
pub open spec fn compiled_groups(groups: Seq<ColumnGroup>) -> Result<Seq<Condition>, Seq<char>> {
    match first_group_fault(groups, groups.len() as int) {
        Some(message) => Err(message),
        None => Ok(group_conditions(groups)),
    }
}

/// An optional text member of a JSON object: absent and `null` are no text;
/// anything but a text is malformed (`None`).
pub open spec fn optional_text(found: Option<JsonTree>) -> Option<Option<Seq<char>>> {
    match found {
        None => Some(None),
        Some(JsonTree::Null) => Some(None),
        Some(JsonTree::Text(text)) => Some(Some(text)),
        Some(_) => None,
    }
}

/// The comparison that a JSON value asks of `value` in the structured form:
/// a text is the logical word alone; an object holds the logical word under
/// `logical` and may hold the comparison operator under `op`.
pub open spec fn operation_of_json(value: Seq<char>, json: JsonTree) -> Option<Comparison> {
    match json {
        JsonTree::Text(logical) => Some(
            Comparison { value: value, operator: "="@, logical: logical },
        ),
        JsonTree::Object(fields) => match tree_member(fields, "logical"@) {
            Some(JsonTree::Text(logical)) => match optional_text(tree_member(fields, "op"@)) {
                Some(Some(operator)) => Some(
                    Comparison { value: value, operator: operator, logical: logical },
                ),
                Some(None) => Some(Comparison { value: value, operator: "="@, logical: logical }),
                None => None,
            },
            _ => None,
        },
        _ => None,
    }
}

/// The comparisons that the members of a JSON object ask for, where every
/// member is well formed.
pub open spec fn operations_of_json(entries: Seq<(Seq<char>, JsonTree)>) -> Option<Seq<Comparison>>
    decreases entries.len(),
{
    if entries.len() == 0 {
        Some(Seq::empty())
    } else {
        match operations_of_json(entries.drop_last()) {
            Some(before) => match operation_of_json(entries.last().0, entries.last().1) {
                Some(comparison) => Some(before.push(comparison)),
                None => None,
            },
            None => None,
        }
    }
}

/// The comparisons that a JSON value asks of a column: a text asks for
/// equality with it, an object for an operation on each of its values. An
/// object without members asks nothing and is malformed.
pub open spec fn comparisons_of_json(json: JsonTree) -> Option<Seq<Comparison>> {
    match json {
        JsonTree::Text(value) => Some(
            seq![Comparison { value: value, operator: "="@, logical: "AND"@ }],
        ),
        JsonTree::Object(entries) => if entries.len() == 0 {
            None
        } else {
            operations_of_json(entries)
        },
        _ => None,
    }
}

/// The message for a column of the structured form that is malformed.
pub open spec fn column_fault(column: Seq<char>) -> Seq<char> {
    "Invalid structured search format: column '"@ + column
        + "' holds neither a value nor a map from one or more values to operations"@
}

/// The groups that the members of a JSON object stand for, or the fault of
/// the first member that is malformed.
pub open spec fn groups_of_json(columns: Seq<(Seq<char>, JsonTree)>) -> Result<
    Seq<ColumnGroup>,
    Seq<char>,
>
    decreases columns.len(),
{
    if columns.len() == 0 {
        Ok(Seq::empty())
    } else {
        match groups_of_json(columns.drop_last()) {
            Ok(before) => match comparisons_of_json(columns.last().1) {
                Some(comparisons) => Ok(
                    before.push(ColumnGroup { column: columns.last().0, comparisons: comparisons }),
                ),
                None => Err(column_fault(columns.last().0)),
            },
            Err(message) => Err(message),
        }
    }
}

/// The structured search that a JSON document stands for: an object keyed by
/// column name.
pub open spec fn search_of_json(json: JsonTree) -> Result<Seq<ColumnGroup>, Seq<char>> {
    match json {
        JsonTree::Object(columns) => groups_of_json(columns),
        _ => Err("Invalid structured search format: expected an object keyed by column name"@),
    }
}

/// What the structured form of a JSON document compiles to.
pub open spec fn structured_outcome(json: JsonTree) -> Result<Seq<Condition>, Seq<char>> {
    match search_of_json(json) {
        Ok(groups) => compiled_groups(groups),
        Err(message) => Err(message),
    }
}

/// The logical operator under `operator` in a criterion: absent and `null`
/// are none; `AND` and `OR` are read in any case; anything else is malformed
/// (`None`).
pub open spec fn logical_of_json(found: Option<JsonTree>) -> Option<Option<LogicalOperator>> {
    match found {
        None => Some(None),
        Some(JsonTree::Null) => Some(None),
        Some(JsonTree::Text(word)) => if crate::text::is_word(word, "and"@) {
            Some(Some(LogicalOperator::And))
        } else if crate::text::is_word(word, "or"@) {
            Some(Some(LogicalOperator::Or))
        } else {
            None
        },
        Some(_) => None,
    }
}

/// The criterion that a JSON value stands for: an object with the texts
/// `column` and `term`, and optionally `operator` and `comparisonOperator`.
pub open spec fn criterion_of_json(json: JsonTree) -> Option<Criterion> {
    match json {
        JsonTree::Object(fields) => match tree_member(fields, "column"@) {
            Some(JsonTree::Text(column)) => match tree_member(fields, "term"@) {
                Some(JsonTree::Text(term)) => match logical_of_json(
                    tree_member(fields, "operator"@),
                ) {
                    Some(operator) => match optional_text(
                        tree_member(fields, "comparisonOperator"@),
                    ) {
                        Some(comparison) => Some(
                            Criterion {
                                column: column,
                                term: term,
                                operator: operator,
                                comparison_operator: comparison,
                            },
                        ),
                        None => None,
                    },
                    None => None,
                },
                _ => None,
            },
            _ => None,
        },
        _ => None,
    }
}

/// The message for an item of the legacy form that is no criterion.
pub open spec fn item_fault(index: nat) -> Seq<char> {
    "Invalid search criteria format: item "@ + decimal_digits(index)
        + " is not an object with a column, a term and known operators"@
}

/// The criteria that the items of a JSON array stand for, or the fault of the
/// first item that is no criterion.
pub open spec fn criteria_of_items(items: Seq<JsonTree>) -> Result<Seq<Criterion>, Seq<char>>
    decreases items.len(),
{
    if items.len() == 0 {
        Ok(Seq::empty())
    } else {
        match criteria_of_items(items.drop_last()) {
            Ok(before) => match criterion_of_json(items.last()) {
                Some(criterion) => Ok(before.push(criterion)),
                None => Err(item_fault((items.len() - 1) as nat)),
            },
            Err(message) => Err(message),
        }
    }
}

/// The criteria that a JSON document stands for in the legacy form: an array
/// of criteria.
pub open spec fn criteria_of_json(json: JsonTree) -> Result<Seq<Criterion>, Seq<char>> {
    match json {
        JsonTree::Array(items) => criteria_of_items(items),
        _ => Err("Invalid search criteria format: expected an array of criteria"@),
    }
}

/// What the legacy form of a JSON document compiles to: the criteria are
/// read, then checked, then grouped.
pub open spec fn complex_outcome(json: JsonTree) -> Result<Seq<Condition>, Seq<char>> {
    match criteria_of_json(json) {
        Ok(criteria) => match first_fault(criteria) {
            Some(message) => Err(message),
            None => Ok(grouped_conditions(criteria)),
        },
        Err(message) => Err(message),
    }
}

/// What a search document compiles to. The document says itself which of
/// the two forms it is: an object is read as the structured form, and
/// anything else as the legacy form, so that a failure names what is wrong
/// with the form that was sent.
pub open spec fn document_outcome(json: JsonTree) -> Result<Seq<Condition>, Seq<char>> {
    match json {
        JsonTree::Object(_) => structured_outcome(json),
        _ => complex_outcome(json),
    }
}

/// What a request with a search document compiles to: the predicates of the
/// document, then those of the flat filters `flat`. No flat filter is
/// dropped because a document is there. A flat filter carries no connector
/// of its own, so behind the predicates of a document it is joined by
/// `AND`, as every predicate without a connector is.
pub open spec fn mixed_outcome(json: JsonTree, flat: Seq<Condition>) -> Result<
    Seq<Condition>,
    Seq<char>,
> {
    match document_outcome(json) {
        Ok(conditions) => Ok(conditions + flat),
        Err(message) => Err(message),
    }
}

/// A compiled list of predicates, or the message of the failure. Every
/// failure of the compiler is a parse error.
pub open spec fn outcome(result: Result<Vec<WhereCondition>, Failure>) -> Result<
    Seq<Condition>,
    Seq<char>,
> {
    match result {
        Ok(conditions) => Ok(views(conditions@)),
        Err(failure) => Err(failure.message@),
    }
}

/// Compiles filter syntaxes into predicates.
pub struct SearchQueryBuilder;

impl SearchQueryBuilder {
    /// The typed value of `value`.
    pub fn parse_value_type(value: &str) -> (typed: QueryValue)
        ensures
            typed@ == typed_value(value@),
    {
        match parse_i64(value) {
            Some(i) => QueryValue::Integer(i),
            None => {
                if is_float(value) {
                    QueryValue::Float(value.to_owned())
                } else {
                    match parse_bool(value) {
                        Some(b) => QueryValue::Boolean(b),
                        None => QueryValue::String(value.to_owned()),
                    }
                }
            },
        }
    }

    /// The typed value of `value` as an operand of `operator`.
    pub fn parse_value_type_with_operator(value: &str, operator: &str) -> (typed: QueryValue)
        ensures
            typed@ == operand_value(value@, operator@),
    {
        match Self::parse_value_type(value) {
            QueryValue::String(text) => {
                if same_text(operator, "LIKE") {
                    QueryValue::String(Self::pattern(text.as_str()))
                } else {
                    QueryValue::String(text)
                }
            },
            other => other,
        }
    }

    /// The typed value of a criterion's term.
    pub fn parse_criterion_value(term: &str, operator: &str) -> (typed: QueryValue)
        ensures
            typed@ == operand_value(term@, operator@),
    {
        Self::parse_value_type_with_operator(term, operator)
    }

    /// The typed value of a flat filter.
    pub fn parse_filter_value(value: &str, operator: &str) -> (typed: QueryValue)
        ensures
            typed@ == filter_value(value@, operator@),
    {
        if value.is_empty() || same_text(value, "null") {
            QueryValue::Null
        } else if same_text(operator, "LIKE") {
            QueryValue::String(Self::pattern(value))
        } else {
            Self::parse_value_type(value)
        }
    }

    /// `text` between two percent signs.
    fn pattern(text: &str) -> (pattern: String)
        ensures
            pattern@ == like_pattern(text@),
    {
        let mut pattern = joined("%", text);
        pattern.append("%");
        pattern
    }

    /// The column and the operator that the key of a flat filter names.
    pub fn parse_filter_key(key: &str) -> (parsed: (String, &'static str))
        ensures
            parsed.0@ == filter_column(key@),
            parsed.1@ == filter_operator(key@),
    {
        if ends_with(key, "_like") {
            (strip_suffix(key, "_like"), "LIKE")
        } else if ends_with(key, "_gt") {
            (strip_suffix(key, "_gt"), ">")
        } else if ends_with(key, "_gte") {
            (strip_suffix(key, "_gte"), ">=")
        } else if ends_with(key, "_lt") {
            (strip_suffix(key, "_lt"), "<")
        } else if ends_with(key, "_lte") {
            (strip_suffix(key, "_lte"), "<=")
        } else if ends_with(key, "_ne") {
            (strip_suffix(key, "_ne"), "!=")
        } else {
            (key.to_owned(), "=")
        }
    }

    /// The predicates of the flat filters: every filter whose key is not in
    /// `excluded_keys` gives one, in the filters' order. Without
    /// `excluded_keys` the keys `page`, `per_page`, `columns` and `search` are
    /// left out.
    pub fn build_simple_conditions(
        filters: &Vec<(String, String)>,
        excluded_keys: Option<&Vec<String>>,
    ) -> (conditions: Vec<WhereCondition>)
        ensures
            views(conditions@) == simple_conditions(
                filters@,
                match excluded_keys {
                    Some(keys) => texts(keys@),
                    None => default_excluded(),
                },
            ),
    {
        let mut default_keys: Vec<String> = Vec::new();
        default_keys.push("page".to_owned());
        default_keys.push("per_page".to_owned());
        default_keys.push("columns".to_owned());
        default_keys.push("search".to_owned());
        assert(texts(default_keys@) =~= default_excluded());
        let excluded: &Vec<String> = match excluded_keys {
            Some(keys) => keys,
            None => &default_keys,
        };
        let mut conditions: Vec<WhereCondition> = Vec::new();
        let mut i: usize = 0;
        assert(filters@.take(0) =~= Seq::<(String, String)>::empty());
        assert(views(conditions@) =~= Seq::<Condition>::empty());
        while i < filters.len()
            invariant
                i <= filters.len(),
                views(conditions@) == simple_conditions(filters@.take(i as int), texts(excluded@)),
            decreases filters.len() - i,
        {
            assert(filters@.take(i + 1).drop_last() =~= filters@.take(i as int));
            let key = filters[i].0.as_str();
            if !contains_text(excluded, key) {
                let (column, operator) = Self::parse_filter_key(key);
                let value = Self::parse_filter_value(filters[i].1.as_str(), operator);
                let condition = WhereCondition {
                    column,
                    operator: operator.to_owned(),
                    value,
                    logical_operator: None,
                };
                let ghost before = conditions@;
                conditions.push(condition);
                assert(views(conditions@) =~= views(before).push(condition@));
            }
            i += 1;
        }
        assert(filters@.take(filters.len() as int) =~= filters@);
        conditions
    }

    /// The predicate of a single criterion, joined as the criterion says.
    pub fn build_where_condition(criterion: &SearchCriterion) -> (condition: WhereCondition)
        ensures
            condition@ == (Condition {
                column: criterion.column@,
                operator: comparison_of(criterion@),
                value: operand_value(criterion.term@, comparison_of(criterion@)),
                logical_operator: match criterion.operator {
                    Some(operator) => Some(logical_word(Some(operator))),
                    None => None,
                },
            }),
    {
        let operator: String = match &criterion.comparison_operator {
            Some(operator) => operator.clone(),
            None => "=".to_owned(),
        };
        let value = Self::parse_criterion_value(criterion.term.as_str(), operator.as_str());
        WhereCondition {
            column: criterion.column.clone(),
            operator,
            value,
            logical_operator: match criterion.operator {
                Some(LogicalOperator::And) => Some("AND".to_owned()),
                Some(LogicalOperator::Or) => Some("OR".to_owned()),
                None => None,
            },
        }
    }

    /// The comparison that a criterion asks for.
    fn criterion_operation(criterion: &SearchCriterion) -> (operation: Operation)
        ensures
            operation@ == criterion_comparison(criterion@),
    {
        Operation {
            value: criterion.term.clone(),
            comparison: match &criterion.comparison_operator {
                Some(operator) => operator.clone(),
                None => "=".to_owned(),
            },
            logical: match criterion.operator {
                Some(LogicalOperator::Or) => "OR".to_owned(),
                _ => "AND".to_owned(),
            },
        }
    }

    /// The connector of a column's predicate.
    fn lead_of(first: bool) -> (word: Option<String>)
        ensures
            match word {
                Some(w) => Some(w@),
                None => None,
            } == lead(first),
    {
        if first {
            None
        } else {
            Some("AND".to_owned())
        }
    }

    /// Whether every comparison is an equality joined by `OR`.
    fn collapses(operations: &Vec<Operation>) -> (all: bool)
        ensures
            all == all_equal_with_or(views(operations@)),
    {
        let mut i: usize = 0;
        while i < operations.len()
            invariant
                i <= operations.len(),
                forall|j: int|
                    0 <= j < i ==> (#[trigger] views(operations@)[j]).operator == "="@ && views(
                        operations@,
                    )[j].logical == "OR"@,
            decreases operations.len() - i,
        {
            if !(same_text(operations[i].comparison.as_str(), "=") && same_text(
                operations[i].logical.as_str(),
                "OR",
            )) {
                assert(!(views(operations@)[i as int].operator == "="@ && views(
                    operations@,
                )[i as int].logical == "OR"@));
                return false;
            }
            i += 1;
        }
        true
    }

    /// The list of an `IN` over the values of `operations`.
    fn value_list(operations: &Vec<Operation>) -> (list: String)
        ensures
            list@ == in_list(views(operations@)),
    {
        let ghost comparisons = views(operations@);
        let mut values = String::new();
        let mut i: usize = 0;
        assert(comparisons.take(0) =~= Seq::<Comparison>::empty());
        while i < operations.len()
            invariant
                i <= operations.len(),
                comparisons == views(operations@),
                values@ == quoted_values(comparisons.take(i as int)),
            decreases operations.len() - i,
        {
            assert(comparisons.take(i + 1).drop_last() =~= comparisons.take(i as int));
            if i > 0 {
                values.append(", ");
            }
            let doubled = escape_literal(operations[i].value.as_str());
            values.append("'");
            values.append(doubled.as_str());
            values.append("'");
            i += 1;
        }
        assert(comparisons.take(operations.len() as int) =~= comparisons);
        let mut list = joined("(", values.as_str());
        list.append(")");
        list
    }

    /// One comparison written out.
    fn comparison_sql(column: &str, operation: &Operation) -> (sql: String)
        ensures
            sql@ == comparison_text(column@, operation@),
    {
        let doubled = escape_literal(operation.value.as_str());
        let inner = if same_text(operation.comparison.as_str(), "LIKE") {
            Self::pattern(doubled.as_str())
        } else {
            doubled
        };
        let mut sql = joined("`", column);
        sql.append("` ");
        sql.append(operation.comparison.as_str());
        sql.append(" '");
        sql.append(inner.as_str());
        sql.append("'");
        sql
    }

    /// The fragment of a raw predicate over `operations`.
    fn raw_sql(column: &str, operations: &Vec<Operation>, connector: &str) -> (sql: String)
        ensures
            sql@ == raw_group(column@, views(operations@), connector@),
    {
        let ghost comparisons = views(operations@);
        let mut parts = String::new();
        let mut i: usize = 0;
        assert(comparisons.take(0) =~= Seq::<Comparison>::empty());
        while i < operations.len()
            invariant
                i <= operations.len(),
                comparisons == views(operations@),
                parts@ == joined_comparisons(column@, comparisons.take(i as int), connector@),
            decreases operations.len() - i,
        {
            assert(comparisons.take(i + 1).drop_last() =~= comparisons.take(i as int));
            if i > 0 {
                parts.append(" ");
                parts.append(connector);
                parts.append(" ");
            }
            let part = Self::comparison_sql(column, &operations[i]);
            parts.append(part.as_str());
            i += 1;
        }
        assert(comparisons.take(operations.len() as int) =~= comparisons);
        let mut sql = joined("(", parts.as_str());
        sql.append(")");
        sql
    }

    /// The one predicate that stands for all comparisons of `column`.
    fn build_group_condition(
        column: &str,
        operations: &Vec<Operation>,
        connector: &str,
        first: bool,
    ) -> (condition: WhereCondition)
        ensures
            condition@ == group_condition(column@, views(operations@), connector@, first),
    {
        if operations.len() == 1 {
            let operation = &operations[0];
            assert(views(operations@)[0] == operation@);
            WhereCondition {
                column: column.to_owned(),
                operator: operation.comparison.clone(),
                value: Self::parse_value_type_with_operator(
                    operation.value.as_str(),
                    operation.comparison.as_str(),
                ),
                logical_operator: Self::lead_of(first),
            }
        } else if Self::collapses(operations) {
            WhereCondition {
                column: column.to_owned(),
                operator: "IN".to_owned(),
                value: QueryValue::String(Self::value_list(operations)),
                logical_operator: Self::lead_of(first),
            }
        } else {
            WhereCondition {
                column: "RAW_SQL".to_owned(),
                operator: "RAW".to_owned(),
                value: QueryValue::String(Self::raw_sql(column, operations, connector)),
                logical_operator: Self::lead_of(first),
            }
        }
    }

    /// The columns that the criteria name, each once, in the order in which
    /// they first occur.
    fn columns_of(criteria: &Vec<SearchCriterion>) -> (columns: Vec<String>)
        ensures
            texts(columns@) == criterion_columns(views(criteria@)),
    {
        let ghost all = views(criteria@);
        let mut columns: Vec<String> = Vec::new();
        let mut i: usize = 0;
        assert(all.take(0) =~= Seq::<Criterion>::empty());
        assert(texts(columns@) =~= Seq::<Seq<char>>::empty());
        while i < criteria.len()
            invariant
                i <= criteria.len(),
                all == views(criteria@),
                texts(columns@) == criterion_columns(all.take(i as int)),
            decreases criteria.len() - i,
        {
            assert(all.take(i + 1).drop_last() =~= all.take(i as int));
            assert(all.take(i + 1).last() == criteria@[i as int]@);
            if !contains_text(&columns, criteria[i].column.as_str()) {
                let ghost before = columns@;
                columns.push(criteria[i].column.clone());
                assert(texts(columns@) =~= texts(before).push(criteria@[i as int].column@));
            }
            i += 1;
        }
        assert(all.take(criteria.len() as int) =~= all);
        columns
    }

    /// The comparisons that the criteria ask of `column`.
    fn operations_of(criteria: &Vec<SearchCriterion>, column: &str) -> (operations: Vec<Operation>)
        ensures
            views(operations@) == column_comparisons(views(criteria@), column@),
    {
        let ghost all = views(criteria@);
        let mut operations: Vec<Operation> = Vec::new();
        let mut i: usize = 0;
        assert(all.take(0) =~= Seq::<Criterion>::empty());
        assert(views(operations@) =~= Seq::<Comparison>::empty());
        while i < criteria.len()
            invariant
                i <= criteria.len(),
                all == views(criteria@),
                views(operations@) == column_comparisons(all.take(i as int), column@),
            decreases criteria.len() - i,
        {
            assert(all.take(i + 1).drop_last() =~= all.take(i as int));
            assert(all.take(i + 1).last() == criteria@[i as int]@);
            if same_text(criteria[i].column.as_str(), column) {
                let operation = Self::criterion_operation(&criteria[i]);
                let ghost before = operations@;
                operations.push(operation);
                assert(views(operations@) =~= views(before).push(operation@));
            }
            i += 1;
        }
        assert(all.take(criteria.len() as int) =~= all);
        operations
    }

    /// The predicates of the legacy form: the criteria are grouped by column,
    /// and each column gives one predicate.
    pub fn build_grouped_conditions(search_criteria: &Vec<SearchCriterion>) -> (conditions: Vec<
        WhereCondition,
    >)
        ensures
            views(conditions@) == grouped_conditions(views(search_criteria@)),
    {
        let columns = Self::columns_of(search_criteria);
        let mut conditions: Vec<WhereCondition> = Vec::new();
        let mut g: usize = 0;
        while g < columns.len()
            invariant
                g <= columns.len(),
                texts(columns@) == criterion_columns(views(search_criteria@)),
                conditions.len() == g,
                forall|j: int|
                    0 <= j < g ==> conditions@[j]@ == group_condition(
                        texts(columns@)[j],
                        column_comparisons(views(search_criteria@), texts(columns@)[j]),
                        "OR"@,
                        j == 0,
                    ),
            decreases columns.len() - g,
        {
            let column = columns[g].as_str();
            assert(texts(columns@)[g as int] == column@);
            let operations = Self::operations_of(search_criteria, column);
            let condition = Self::build_group_condition(column, &operations, "OR", g == 0);
            conditions.push(condition);
            g += 1;
        }
        assert(views(conditions@) =~= grouped_conditions(views(search_criteria@)));
        conditions
    }

    /// Checks the criteria one by one and reports the first fault.
    pub fn validate_search_criteria(search_criteria: &Vec<SearchCriterion>) -> (checked: Result<
        (),
        Failure,
    >)
        ensures
            match first_fault(views(search_criteria@)) {
                Some(message) => checked is Err && checked->Err_0@ == parse_error(message),
                None => checked is Ok,
            },
    {
        let ghost all = views(search_criteria@);
        let mut i: usize = 0;
        assert(all.take(0) =~= Seq::<Criterion>::empty());
        while i < search_criteria.len()
            invariant
                i <= search_criteria.len(),
                all == views(search_criteria@),
                first_fault(all.take(i as int)) is None,
            decreases search_criteria.len() - i,
        {
            assert(all.take(i + 1).drop_last() =~= all.take(i as int));
            assert(all.take(i + 1).last() == search_criteria@[i as int]@);
            match Self::check_criterion(&search_criteria[i], i) {
                Some(message) => {
                    proof {
                        lemma_first_fault_stays(all, i + 1);
                    }
                    return Err(Failure::parse(message));
                },
                None => {},
            }
            i += 1;
        }
        assert(all.take(search_criteria.len() as int) =~= all);
        Ok(())
    }

    /// Whether `operator` is among the valid comparison operators.
    pub fn is_valid_operator(operator: &str) -> (valid: bool)
        ensures
            valid == valid_operators().contains(operator@),
    {
        let op = operator;
        let valid = same_text(op, "=") || same_text(op, "!=") || same_text(op, ">") || same_text(
            op,
            "<",
        ) || same_text(op, ">=") || same_text(op, "<=") || same_text(op, "LIKE") || same_text(
            op,
            "NOT LIKE",
        );
        proof {
            let list = valid_operators();
            if valid {
                if op@ == "="@ {
                    assert(list[0] == op@);
                } else if op@ == "!="@ {
                    assert(list[1] == op@);
                } else if op@ == ">"@ {
                    assert(list[2] == op@);
                } else if op@ == "<"@ {
                    assert(list[3] == op@);
                } else if op@ == ">="@ {
                    assert(list[4] == op@);
                } else if op@ == "<="@ {
                    assert(list[5] == op@);
                } else if op@ == "LIKE"@ {
                    assert(list[6] == op@);
                } else {
                    assert(list[7] == op@);
                }
            }
        }
        valid
    }

    /// The operator of the first comparison whose operator is not among the
    /// valid ones.
    fn invalid_operator(operations: &Vec<Operation>) -> (found: Option<String>)
        ensures
            match first_invalid_operator(views(operations@), operations.len() as int) {
                Some(operator) => found is Some && found->0@ == operator,
                None => found is None,
            },
    {
        let mut c: usize = 0;
        while c < operations.len()
            invariant
                c <= operations.len(),
                first_invalid_operator(views(operations@), c as int) is None,
            decreases operations.len() - c,
        {
            if !Self::is_valid_operator(operations[c].comparison.as_str()) {
                proof {
                    lemma_invalid_operator_stays(
                        views(operations@),
                        c + 1,
                        operations.len() as int,
                    );
                }
                return Some(operations[c].comparison.clone());
            }
            c += 1;
        }
        None
    }

    /// What is wrong with the criterion at `index`, if anything.
    fn check_criterion(criterion: &SearchCriterion, index: usize) -> (fault: Option<String>)
        ensures
            match criterion_fault(criterion@, index as nat) {
                Some(message) => fault is Some && fault->0@ == message,
                None => fault is None,
            },
    {
        if criterion.column.as_str().is_empty() {
            let mut message = joined("Search criterion ", u64_to_text(index as u64).as_str());
            message.append(" has empty column name");
            return Some(message);
        }
        if criterion.term.as_str().is_empty() {
            let mut message = joined("Search criterion ", u64_to_text(index as u64).as_str());
            message.append(" has empty search term");
            return Some(message);
        }
        match &criterion.comparison_operator {
            Some(operator) => {
                let op = operator.as_str();
                let valid = Self::is_valid_operator(op);
                if valid {
                    None
                } else {
                    let mut message = joined(
                        "Search criterion ",
                        u64_to_text(index as u64).as_str(),
                    );
                    message.append(" has invalid comparison operator '");
                    message.append(op);
                    message.append(
                        "'. Valid operators: [\"=\", \"!=\", \">\", \"<\", \">=\", \"<=\", \"LIKE\", \"NOT LIKE\"]",
                    );
                    Some(message)
                }
            },
            None => None,
        }
    }

    /// The comparison that an operation asks of `value`.
    fn operation_of(value: &str, operation: &ColumnOperation) -> (built: Operation)
        ensures
            built@ == operation_comparison(value@, *operation),
    {
        match operation {
            ColumnOperation::Simple(logical) => Operation {
                value: value.to_owned(),
                comparison: "=".to_owned(),
                logical: logical.clone(),
            },
            ColumnOperation::WithComparison { comparison_operator, logical_operator } => Operation {
                value: value.to_owned(),
                comparison: match comparison_operator {
                    Some(operator) => operator.clone(),
                    None => "=".to_owned(),
                },
                logical: logical_operator.clone(),
            },
        }
    }

    /// The comparisons that are asked of a column.
    fn criteria_operations(criteria: &ColumnCriteria) -> (operations: Vec<Operation>)
        ensures
            views(operations@) == criteria_comparisons(*criteria),
    {
        let mut operations: Vec<Operation> = Vec::new();
        match criteria {
            ColumnCriteria::Simple(value) => {
                operations.push(
                    Operation {
                        value: value.clone(),
                        comparison: "=".to_owned(),
                        logical: "AND".to_owned(),
                    },
                );
                assert(views(operations@) =~= criteria_comparisons(*criteria));
            },
            ColumnCriteria::Complex(entries) => {
                let mut i: usize = 0;
                while i < entries.len()
                    invariant
                        i <= entries.len(),
                        operations.len() == i,
                        forall|j: int|
                            0 <= j < i ==> operations@[j]@ == operation_comparison(
                                entries@[j].0@,
                                entries@[j].1,
                            ),
                    decreases entries.len() - i,
                {
                    operations.push(Self::operation_of(entries[i].0.as_str(), &entries[i].1));
                    i += 1;
                }
                assert(views(operations@) =~= criteria_comparisons(*criteria));
            },
        }
        operations
    }

    /// The predicates of the structured form: each column gives one, in the
    /// order of the columns. A column that asks no comparison is refused, and
    /// so is a comparison under an operator that is not among the valid
    /// ones: no text of the caller's is taken for an operator.
    pub fn build_from_structured(structured_search: &StructuredSearch) -> (result: Result<
        Vec<WhereCondition>,
        Failure,
    >)
        ensures
            result is Err ==> result->Err_0.kind == ErrorKind::Parse,
            outcome(result) == compiled_groups(structured_search@),
    {
        let columns = &structured_search.columns;
        let ghost groups = structured_search@;
        let mut conditions: Vec<WhereCondition> = Vec::new();
        let mut g: usize = 0;
        while g < columns.len()
            invariant
                g <= columns.len(),
                columns == &structured_search.columns,
                groups == structured_search@,
                conditions.len() == g,
                first_group_fault(groups, g as int) is None,
                forall|j: int|
                    0 <= j < g ==> conditions@[j]@ == group_condition(
                        groups[j].column,
                        groups[j].comparisons,
                        "OR"@,
                        j == 0,
                    ),
            decreases columns.len() - g,
        {
            let column = columns[g].0.as_str();
            let operations = Self::criteria_operations(&columns[g].1);
            assert(groups[g as int].comparisons == views(operations@));
            if operations.len() == 0 {
                let mut message = joined("Invalid structured search format: column '", column);
                message.append(
                    "' holds neither a value nor a map from one or more values to operations",
                );
                proof {
                    lemma_group_fault_stays(groups, g + 1, groups.len() as int);
                }
                return Err(Failure::parse(message));
            }
            match Self::invalid_operator(&operations) {
                Some(operator) => {
                    let mut message = joined("Invalid structured search format: column '", column);
                    message.append("' has invalid comparison operator '");
                    message.append(operator.as_str());
                    message.append(
                        "'. Valid operators: [\"=\", \"!=\", \">\", \"<\", \">=\", \"<=\", \"LIKE\", \"NOT LIKE\"]",
                    );
                    proof {
                        lemma_group_fault_stays(groups, g + 1, groups.len() as int);
                    }
                    return Err(Failure::parse(message));
                },
                None => {},
            }
            let condition = Self::build_group_condition(column, &operations, "OR", g == 0);
            conditions.push(condition);
            g += 1;
        }
        assert(views(conditions@) =~= group_conditions(groups));
        Ok(conditions)
    }

    /// An optional text member of a JSON object.
    fn optional_member(members: &Vec<(String, JsonValue)>, name: &str) -> (found: Option<
        Option<String>,
    >)
        ensures
            match optional_text(tree_member(member_trees(members@), name@)) {
                Some(Some(text)) => found is Some && found->0 is Some && found->0->0@ == text,
                Some(None) => found is Some && found->0 is None,
                None => found is None,
            },
    {
        match find_member(members, name) {
            None => Some(None),
            Some(JsonValue::Null) => Some(None),
            Some(JsonValue::Text(text)) => Some(Some(text.clone())),
            Some(_) => None,
        }
    }

    /// The entry of a column's map that a JSON member stands for.
    fn entry_from_json(value: &str, json: &JsonValue) -> (entry: Option<(String, ColumnOperation)>)
        ensures
            match operation_of_json(value@, json@) {
                Some(comparison) => entry matches Some(pair) && pair.0@ == value@
                    && operation_comparison(value@, pair.1) == comparison,
                None => entry is None,
            },
    {
        match json {
            JsonValue::Text(logical) => Some(
                (value.to_owned(), ColumnOperation::Simple(logical.clone())),
            ),
            JsonValue::Object(fields) => {
                proof {
                    lemma_object_view(*fields);
                }
                match find_member(fields, "logical") {
                    Some(JsonValue::Text(logical)) => {
                        match Self::optional_member(fields, "op") {
                            Some(comparison_operator) => Some(
                                (
                                    value.to_owned(),
                                    ColumnOperation::WithComparison {
                                        comparison_operator,
                                        logical_operator: logical.clone(),
                                    },
                                ),
                            ),
                            None => None,
                        }
                    },
                    _ => None,
                }
            },
            _ => None,
        }
    }

    /// What a JSON value asks of a column.
    fn column_from_json(json: &JsonValue) -> (criteria: Option<ColumnCriteria>)
        ensures
            match comparisons_of_json(json@) {
                Some(comparisons) => criteria is Some && criteria_comparisons(criteria->0)
                    == comparisons,
                None => criteria is None,
            },
    {
        match json {
            JsonValue::Text(value) => {
                let criteria = ColumnCriteria::Simple(value.clone());
                assert(criteria_comparisons(criteria) =~= comparisons_of_json(json@)->0);
                Some(criteria)
            },
            JsonValue::Object(entries) => {
                proof {
                    lemma_object_view(*entries);
                }
                if entries.len() == 0 {
                    return None;
                }
                let ghost trees = member_trees(entries@);
                let mut operations: Vec<(String, ColumnOperation)> = Vec::new();
                let mut i: usize = 0;
                assert(trees.take(0) =~= Seq::<(Seq<char>, JsonTree)>::empty());
                while i < entries.len()
                    invariant
                        i <= entries.len(),
                        trees == member_trees(entries@),
                        json@ == JsonTree::Object(trees),
                        operations.len() == i,
                        operations_of_json(trees.take(i as int)) is Some,
                        operations_of_json(trees.take(i as int))->0.len() == i,
                        forall|j: int|
                            0 <= j < i ==> operation_comparison(
                                (#[trigger] operations@[j]).0@,
                                operations@[j].1,
                            ) == operations_of_json(trees.take(i as int))->0[j],
                    decreases entries.len() - i,
                {
                    assert(trees.take(i + 1).drop_last() =~= trees.take(i as int));
                    assert(trees.take(i + 1).last() == (entries@[i as int].0@, entries@[i as int].1@));
                    match Self::entry_from_json(entries[i].0.as_str(), &entries[i].1) {
                        Some(entry) => {
                            operations.push(entry);
                        },
                        None => {
                            proof {
                                lemma_operations_fault_stays(trees, i + 1);
                            }
                            return None;
                        },
                    }
                    i += 1;
                }
                assert(trees.take(entries.len() as int) =~= trees);
                let criteria = ColumnCriteria::Complex(operations);
                assert(criteria_comparisons(criteria) =~= operations_of_json(trees)->0);
                Some(criteria)
            },
            _ => None,
        }
    }

    /// Reads a JSON document as a structured search: an object keyed by column
    /// name, each member a value or a map from values to operations. The
    /// first member that is neither is reported.
    pub fn search_from_json(json: &JsonValue) -> (search: Result<StructuredSearch, Failure>)
        ensures
            match search_of_json(json@) {
                Ok(groups) => search is Ok && search->Ok_0@ == groups,
                Err(message) => search is Err && search->Err_0@ == parse_error(message),
            },
    {
        match json {
            JsonValue::Object(members) => {
                proof {
                    lemma_object_view(*members);
                }
                let ghost trees = member_trees(members@);
                let mut columns: Vec<(String, ColumnCriteria)> = Vec::new();
                let mut i: usize = 0;
                assert(trees.take(0) =~= Seq::<(Seq<char>, JsonTree)>::empty());
                assert(column_groups(columns@) =~= Seq::<ColumnGroup>::empty());
                while i < members.len()
                    invariant
                        i <= members.len(),
                        trees == member_trees(members@),
                        json@ == JsonTree::Object(trees),
                        groups_of_json(trees.take(i as int)) == Ok::<Seq<ColumnGroup>, Seq<char>>(
                            column_groups(columns@),
                        ),
                    decreases members.len() - i,
                {
                    assert(trees.take(i + 1).drop_last() =~= trees.take(i as int));
                    assert(trees.take(i + 1).last() == (members@[i as int].0@, members@[i as int].1@));
                    match Self::column_from_json(&members[i].1) {
                        Some(criteria) => {
                            let ghost before = columns@;
                            let name = members[i].0.clone();
                            columns.push((name, criteria));
                            assert(column_groups(columns@) =~= column_groups(before).push(
                                ColumnGroup {
                                    column: members@[i as int].0@,
                                    comparisons: criteria_comparisons(criteria),
                                },
                            ));
                        },
                        None => {
                            let mut message = joined(
                                "Invalid structured search format: column '",
                                members[i].0.as_str(),
                            );
                            message.append(
                                "' holds neither a value nor a map from one or more values to operations",
                            );
                            proof {
                                lemma_groups_fault_stays(trees, i + 1);
                            }
                            return Err(Failure::parse(message));
                        },
                    }
                    i += 1;
                }
                assert(trees.take(members.len() as int) =~= trees);
                Ok(StructuredSearch { columns })
            },
            _ => Err(
                Failure::parse(
                    "Invalid structured search format: expected an object keyed by column name".to_owned(),
                ),
            ),
        }
    }

    /// Compiles the structured form of a JSON document.
    pub fn structured_conditions_from_json(json: &JsonValue) -> (result: Result<
        Vec<WhereCondition>,
        Failure,
    >)
        ensures
            result is Err ==> result->Err_0.kind == ErrorKind::Parse,
            outcome(result) == structured_outcome(json@),
    {
        match Self::search_from_json(json) {
            Ok(search) => Self::build_from_structured(&search),
            Err(failure) => Err(failure),
        }
    }

    /// Compiles the structured form of `search_json`. A text that is no JSON
    /// fails with the parser's message behind
    /// `Invalid structured search format: `.
    pub fn build_structured_conditions(search_json: &str) -> (result: Result<
        Vec<WhereCondition>,
        Failure,
    >)
        ensures
            result is Err ==> result->Err_0.kind == ErrorKind::Parse,
            match json_document(search_json@) {
                Some(json) => outcome(result) == structured_outcome(json),
                None => result is Err && has_prefix(
                    result->Err_0.message@,
                    "Invalid structured search format: "@,
                ),
            },
    {
        match parse_json(search_json) {
            Ok(json) => Self::structured_conditions_from_json(&json),
            Err(error) => {
                let detail = json_error_message(&error);
                let message = joined("Invalid structured search format: ", detail.as_str());
                assert(message@.take("Invalid structured search format: "@.len() as int)
                    =~= "Invalid structured search format: "@);
                Err(Failure::parse(message))
            },
        }
    }

    /// The logical operator of a criterion in a JSON object.
    fn logical_from_json(fields: &Vec<(String, JsonValue)>) -> (found: Option<
        Option<LogicalOperator>,
    >)
        ensures
            found == logical_of_json(tree_member(member_trees(fields@), "operator"@)),
    {
        match find_member(fields, "operator") {
            None => Some(None),
            Some(JsonValue::Null) => Some(None),
            Some(JsonValue::Text(word)) => {
                if is_word_of(word.as_str(), "and") {
                    Some(Some(LogicalOperator::And))
                } else if is_word_of(word.as_str(), "or") {
                    Some(Some(LogicalOperator::Or))
                } else {
                    None
                }
            },
            Some(_) => None,
        }
    }

    /// The criterion that a JSON value stands for.
    fn criterion_from_json(json: &JsonValue) -> (criterion: Option<SearchCriterion>)
        ensures
            match criterion_of_json(json@) {
                Some(c) => criterion is Some && criterion->0@ == c,
                None => criterion is None,
            },
    {
        match json {
            JsonValue::Object(fields) => {
                proof {
                    lemma_object_view(*fields);
                }
                let column = match find_member(fields, "column") {
                    Some(JsonValue::Text(column)) => column.clone(),
                    _ => { return None; },
                };
                let term = match find_member(fields, "term") {
                    Some(JsonValue::Text(term)) => term.clone(),
                    _ => { return None; },
                };
                let operator = match Self::logical_from_json(fields) {
                    Some(operator) => operator,
                    None => { return None; },
                };
                let comparison_operator = match Self::optional_member(
                    fields,
                    "comparisonOperator",
                ) {
                    Some(comparison) => comparison,
                    None => { return None; },
                };
                Some(SearchCriterion { column, term, operator, comparison_operator })
            },
            _ => None,
        }
    }

    /// Reads a JSON document as a list of criteria. The first item that is no
    /// criterion is reported.
    pub fn criteria_from_json(json: &JsonValue) -> (criteria: Result<Vec<SearchCriterion>, Failure>)
        ensures
            match criteria_of_json(json@) {
                Ok(list) => criteria is Ok && views(criteria->Ok_0@) == list,
                Err(message) => criteria is Err && criteria->Err_0@ == parse_error(message),
            },
    {
        match json {
            JsonValue::Array(items) => {
                proof {
                    lemma_array_view(*items);
                }
                let ghost trees = item_trees(items@);
                let mut criteria: Vec<SearchCriterion> = Vec::new();
                let mut i: usize = 0;
                assert(trees.take(0) =~= Seq::<JsonTree>::empty());
                assert(views(criteria@) =~= Seq::<Criterion>::empty());
                while i < items.len()
                    invariant
                        i <= items.len(),
                        trees == item_trees(items@),
                        json@ == JsonTree::Array(trees),
                        criteria_of_items(trees.take(i as int)) == Ok::<Seq<Criterion>, Seq<char>>(
                            views(criteria@),
                        ),
                    decreases items.len() - i,
                {
                    assert(trees.take(i + 1).drop_last() =~= trees.take(i as int));
                    assert(trees.take(i + 1).last() == items@[i as int]@);
                    match Self::criterion_from_json(&items[i]) {
                        Some(criterion) => {
                            let ghost before = criteria@;
                            criteria.push(criterion);
                            assert(views(criteria@) =~= views(before).push(criterion@));
                        },
                        None => {
                            let mut message = joined(
                                "Invalid search criteria format: item ",
                                u64_to_text(i as u64).as_str(),
                            );
                            message.append(
                                " is not an object with a column, a term and known operators",
                            );
                            proof {
                                lemma_items_fault_stays(trees, i + 1);
                            }
                            return Err(Failure::parse(message));
                        },
                    }
                    i += 1;
                }
                assert(trees.take(items.len() as int) =~= trees);
                Ok(criteria)
            },
            _ => Err(
                Failure::parse(
                    "Invalid search criteria format: expected an array of criteria".to_owned(),
                ),
            ),
        }
    }

    /// Compiles the legacy form of a JSON document: the criteria are read,
    /// checked and grouped by column.
    pub fn complex_conditions_from_json(json: &JsonValue) -> (result: Result<
        Vec<WhereCondition>,
        Failure,
    >)
        ensures
            result is Err ==> result->Err_0.kind == ErrorKind::Parse,
            outcome(result) == complex_outcome(json@),
    {
        match Self::criteria_from_json(json) {
            Ok(criteria) => {
                match Self::validate_search_criteria(&criteria) {
                    Ok(()) => Ok(Self::build_grouped_conditions(&criteria)),
                    Err(failure) => Err(failure),
                }
            },
            Err(failure) => Err(failure),
        }
    }

    /// Compiles the legacy form of `search_json`. A text that is no JSON fails
    /// with the parser's message behind `Invalid search criteria format: `.
    pub fn build_complex_conditions(search_json: &str) -> (result: Result<
        Vec<WhereCondition>,
        Failure,
    >)
        ensures
            result is Err ==> result->Err_0.kind == ErrorKind::Parse,
            match json_document(search_json@) {
                Some(json) => outcome(result) == complex_outcome(json),
                None => result is Err && has_prefix(
                    result->Err_0.message@,
                    "Invalid search criteria format: "@,
                ),
            },
    {
        match parse_json(search_json) {
            Ok(json) => Self::complex_conditions_from_json(&json),
            Err(error) => {
                let detail = json_error_message(&error);
                let message = joined("Invalid search criteria format: ", detail.as_str());
                assert(message@.take("Invalid search criteria format: "@.len() as int)
                    =~= "Invalid search criteria format: "@);
                Err(Failure::parse(message))
            },
        }
    }

    /// Compiles a JSON document: an object as the structured form, anything
    /// else as the legacy form.
    pub fn document_conditions_from_json(json: &JsonValue) -> (result: Result<
        Vec<WhereCondition>,
        Failure,
    >)
        ensures
            result is Err ==> result->Err_0.kind == ErrorKind::Parse,
            outcome(result) == document_outcome(json@),
    {
        match json {
            JsonValue::Object(_) => Self::structured_conditions_from_json(json),
            _ => Self::complex_conditions_from_json(json),
        }
    }

    /// The predicates of a search document, where it compiled, with those of
    /// the flat filters behind them.
    fn with_filters(
        compiled: Result<Vec<WhereCondition>, Failure>,
        filters: &Vec<(String, String)>,
        excluded_keys: Option<&Vec<String>>,
    ) -> (result: Result<Vec<WhereCondition>, Failure>)
        requires
            compiled is Err ==> compiled->Err_0.kind == ErrorKind::Parse,
        ensures
            result is Err ==> result->Err_0.kind == ErrorKind::Parse,
            outcome(result) == (match outcome(compiled) {
                Ok(conditions) => Ok::<Seq<Condition>, Seq<char>>(
                    conditions + simple_conditions(
                        filters@,
                        match excluded_keys {
                            Some(keys) => texts(keys@),
                            None => default_excluded(),
                        },
                    ),
                ),
                Err(message) => Err(message),
            }),
    {
        match compiled {
            Ok(conditions) => {
                let mut all = conditions;
                let mut flat = Self::build_simple_conditions(filters, excluded_keys);
                let ghost first = all@;
                let ghost second = flat@;
                all.append(&mut flat);
                assert(views(all@) =~= views(first) + views(second));
                Ok(all)
            },
            Err(failure) => Err(failure),
        }
    }

    /// Compiles a JSON document and the flat filters of the same request: the
    /// predicates of the document, then those of the filters.
    pub fn mixed_conditions_from_json(
        json: &JsonValue,
        filters: &Vec<(String, String)>,
        excluded_keys: Option<&Vec<String>>,
    ) -> (result: Result<Vec<WhereCondition>, Failure>)
        ensures
            result is Err ==> result->Err_0.kind == ErrorKind::Parse,
            outcome(result) == mixed_outcome(
                json@,
                simple_conditions(
                    filters@,
                    match excluded_keys {
                        Some(keys) => texts(keys@),
                        None => default_excluded(),
                    },
                ),
            ),
    {
        Self::with_filters(Self::document_conditions_from_json(json), filters, excluded_keys)
    }

    /// Compiles what a request carries: the predicates of the search
    /// document, where there is one, and behind them those of the flat
    /// filters. No flat filter is dropped because a document is there; it
    /// carries no connector of its own and is joined by `AND`. A document
    /// that is no JSON fails with the parser's message behind
    /// `Invalid search criteria format: `.
    pub fn build_mixed_conditions(
        search_json: Option<&str>,
        filters: &Vec<(String, String)>,
        excluded_keys: Option<&Vec<String>>,
    ) -> (result: Result<Vec<WhereCondition>, Failure>)
        ensures
            result is Err ==> result->Err_0.kind == ErrorKind::Parse,
            match search_json {
                Some(search) => match json_document(search@) {
                    Some(json) => outcome(result) == mixed_outcome(
                        json,
                        simple_conditions(
                            filters@,
                            match excluded_keys {
                                Some(keys) => texts(keys@),
                                None => default_excluded(),
                            },
                        ),
                    ),
                    None => result is Err && has_prefix(
                        result->Err_0.message@,
                        "Invalid search criteria format: "@,
                    ),
                },
                None => outcome(result) == Ok::<Seq<Condition>, Seq<char>>(
                    simple_conditions(
                        filters@,
                        match excluded_keys {
                            Some(keys) => texts(keys@),
                            None => default_excluded(),
                        },
                    ),
                ),
            },
    {
        match search_json {
            Some(search) => match parse_json(search) {
                Ok(json) => Self::mixed_conditions_from_json(&json, filters, excluded_keys),
                Err(error) => {
                    let detail = json_error_message(&error);
                    let message = joined("Invalid search criteria format: ", detail.as_str());
                    assert(message@.take("Invalid search criteria format: "@.len() as int)
                        =~= "Invalid search criteria format: "@);
                    Err(Failure::parse(message))
                },
            },
            None => Ok(Self::build_simple_conditions(filters, excluded_keys)),
        }
    }

    /// A builder for a structured search, with no column yet.
    pub fn create_structured_search() -> (builder: StructuredSearchBuilder)
        ensures
            builder@ == Seq::<ColumnGroup>::empty(),
    {
        StructuredSearchBuilder::new()
    }

    /// A criterion from its parts.
    pub fn create_criterion(
        column: &str,
        term: &str,
        comparison_operator: Option<&str>,
        logical_operator: Option<LogicalOperator>,
    ) -> (criterion: SearchCriterion)
        ensures
            criterion@ == (Criterion {
                column: column@,
                term: term@,
                operator: logical_operator,
                comparison_operator: match comparison_operator {
                    Some(operator) => Some(operator@),
                    None => None,
                },
            }),
    {
        SearchCriterion {
            column: column.to_owned(),
            term: term.to_owned(),
            comparison_operator: match comparison_operator {
                Some(operator) => Some(operator.to_owned()),
                None => None,
            },
            operator: logical_operator,
        }
    }
}

/// Where `column` first stands among the groups; their number where it does
/// not.
pub open spec fn column_position(groups: Seq<ColumnGroup>, column: Seq<char>) -> int
    decreases groups.len(),
{
    if groups.len() == 0 {
        0
    } else if groups[0].column == column {
        0
    } else {
        1 + column_position(groups.drop_first(), column)
    }
}

/// The groups with `group` in the place of the group of its column, or at
/// the end where its column is new.
pub open spec fn with_group(groups: Seq<ColumnGroup>, group: ColumnGroup) -> Seq<ColumnGroup> {
    let position = column_position(groups, group.column);
    if position < groups.len() {
        groups.update(position, group)
    } else {
        groups.push(group)
    }
}

/// Whether no column stands twice among the groups.
pub open spec fn distinct_columns(groups: Seq<ColumnGroup>) -> bool {
    forall|i: int, j: int|
        0 <= i < j < groups.len() ==> (#[trigger] groups[i]).column != (#[trigger] groups[j]).column
}

/// `column_position` is the least index at which the column stands.
pub proof fn lemma_column_position(groups: Seq<ColumnGroup>, column: Seq<char>)
    ensures
        0 <= column_position(groups, column) <= groups.len(),
        column_position(groups, column) < groups.len() ==> groups[column_position(
            groups,
            column,
        )].column == column,
        forall|j: int|
            0 <= j < column_position(groups, column) ==> (#[trigger] groups[j]).column != column,
    decreases groups.len(),
{
    if groups.len() > 0 && groups[0].column != column {
        let rest = groups.drop_first();
        lemma_column_position(rest, column);
        assert forall|j: int| 0 <= j < column_position(groups, column) implies (
        #[trigger] groups[j]).column != column by {
            if j > 0 {
                assert(rest[j - 1] == groups[j]);
            }
        }
    }
}

/// Putting a group among groups with distinct columns leaves the columns
/// distinct.
pub proof fn lemma_with_group_distinct(groups: Seq<ColumnGroup>, group: ColumnGroup)
    requires
        distinct_columns(groups),
    ensures
        distinct_columns(with_group(groups, group)),
{
    lemma_column_position(groups, group.column);
}

/// What is asked of one value, as a JSON tree: the logical word alone, or an
/// object with the operator under `op` (`null` where there is none) and the
/// word under `logical`.
pub open spec fn operation_tree(operation: ColumnOperation) -> JsonTree {
    match operation {
        ColumnOperation::Simple(logical) => JsonTree::Text(logical@),
        ColumnOperation::WithComparison { comparison_operator, logical_operator } => JsonTree::Object(
            seq![
                (
                    "op"@,
                    match comparison_operator {
                        Some(operator) => JsonTree::Text(operator@),
                        None => JsonTree::Null,
                    },
                ),
                ("logical"@, JsonTree::Text(logical_operator@)),
            ],
        ),
    }
}

/// The members of the object that a column's operations are written as: one
/// for each value.
pub open spec fn operation_members(operations: Seq<(String, ColumnOperation)>) -> Seq<
    (Seq<char>, JsonTree),
> {
    Seq::new(operations.len(), |i: int| (operations[i].0@, operation_tree(operations[i].1)))
}

/// What is asked of one column, as a JSON tree: the value alone, or an
/// object with a member for each value.
pub open spec fn criteria_tree(criteria: ColumnCriteria) -> JsonTree {
    match criteria {
        ColumnCriteria::Simple(value) => JsonTree::Text(value@),
        ColumnCriteria::Complex(operations) => JsonTree::Object(operation_members(operations@)),
    }
}

/// The members of the object that a structured search is written as: one for
/// each column.
pub open spec fn column_members(columns: Seq<(String, ColumnCriteria)>) -> Seq<
    (Seq<char>, JsonTree),
> {
    Seq::new(columns.len(), |g: int| (columns[g].0@, criteria_tree(columns[g].1)))
}

/// A structured search as a JSON tree: an object with a member for each
/// column.
pub open spec fn search_tree(columns: Seq<(String, ColumnCriteria)>) -> JsonTree {
    JsonTree::Object(column_members(columns))
}

/// What is asked of one value reads back from its tree as it was asked.
pub proof fn lemma_operation_reads_back(value: Seq<char>, operation: ColumnOperation)
    ensures
        operation_of_json(value, operation_tree(operation)) == Some(
            operation_comparison(value, operation),
        ),
{
    match operation {
        ColumnOperation::Simple(_) => {},
        ColumnOperation::WithComparison { comparison_operator, logical_operator } => {
            let fields = operation_tree(operation)->Object_0;
            reveal_strlit("op");
            reveal_strlit("logical");
            assert("op"@.len() == 2);
            assert("logical"@.len() == 7);
            let rest = fields.drop_first();
            assert(rest[0] == fields[1]);
            assert(tree_member(rest.drop_first(), "logical"@) is None);
            assert(tree_member(rest, "logical"@) == Some(fields[1].1));
            assert(tree_member(fields, "logical"@) == Some(fields[1].1));
            assert(tree_member(fields, "op"@) == Some(fields[0].1));
        },
    }
}

/// The first `k` operations of a column read back from their members as
/// they were asked.
pub proof fn lemma_operations_read_back(operations: Seq<(String, ColumnOperation)>, k: int)
    requires
        0 <= k <= operations.len(),
    ensures
        operations_of_json(operation_members(operations).take(k)) == Some(
            Seq::new(k as nat, |i: int| operation_comparison(operations[i].0@, operations[i].1)),
        ),
    decreases k,
{
    let members = operation_members(operations);
    if k > 0 {
        lemma_operations_read_back(operations, k - 1);
        assert(members.take(k).drop_last() =~= members.take(k - 1));
        lemma_operation_reads_back(operations[k - 1].0@, operations[k - 1].1);
        assert(operations_of_json(members.take(k))->0 =~= Seq::new(
            k as nat,
            |i: int| operation_comparison(operations[i].0@, operations[i].1),
        ));
    } else {
        assert(operations_of_json(members.take(k))->0 =~= Seq::new(
            k as nat,
            |i: int| operation_comparison(operations[i].0@, operations[i].1),
        ));
    }
}

/// What is asked of a column reads back from its tree as it was asked, as
/// long as the column asks at least one comparison.
pub proof fn lemma_criteria_read_back(criteria: ColumnCriteria)
    requires
        criteria_comparisons(criteria).len() > 0,
    ensures
        comparisons_of_json(criteria_tree(criteria)) == Some(criteria_comparisons(criteria)),
{
    match criteria {
        ColumnCriteria::Simple(_) => {},
        ColumnCriteria::Complex(operations) => {
            let members = operation_members(operations@);
            lemma_operations_read_back(operations@, operations@.len() as int);
            assert(members.take(operations@.len() as int) =~= members);
            assert(operations_of_json(members)->0 =~= criteria_comparisons(criteria));
        },
    }
}

/// The first `k` columns of a structured search read back from their
/// members as the columns, as long as each asks at least one comparison.
pub proof fn lemma_columns_read_back(columns: Seq<(String, ColumnCriteria)>, k: int)
    requires
        0 <= k <= columns.len(),
        no_empty_group(column_groups(columns)),
    ensures
        groups_of_json(column_members(columns).take(k)) == Ok::<Seq<ColumnGroup>, Seq<char>>(
            column_groups(columns).take(k),
        ),
    decreases k,
{
    let members = column_members(columns);
    if k > 0 {
        lemma_columns_read_back(columns, k - 1);
        assert(members.take(k).drop_last() =~= members.take(k - 1));
        assert(column_groups(columns)[k - 1].comparisons.len() > 0);
        lemma_criteria_read_back(columns[k - 1].1);
        assert(groups_of_json(members.take(k))->Ok_0 =~= column_groups(columns).take(k));
    } else {
        assert(groups_of_json(members.take(k))->Ok_0 =~= column_groups(columns).take(k));
    }
}

/// A structured search that is written as a document reads back as the
/// search, as long as every column asks at least one comparison.
pub proof fn lemma_search_reads_back(columns: Seq<(String, ColumnCriteria)>)
    requires
        no_empty_group(column_groups(columns)),
    ensures
        search_of_json(search_tree(columns)) == Ok::<Seq<ColumnGroup>, Seq<char>>(
            column_groups(columns),
        ),
{
    lemma_columns_read_back(columns, columns.len() as int);
    assert(column_members(columns).take(columns.len() as int) =~= column_members(columns));
    assert(column_groups(columns).take(columns.len() as int) =~= column_groups(columns));
}

/// A fault among the first `k` columns is the first fault among the first
/// `n`.
pub proof fn lemma_group_fault_stays(groups: Seq<ColumnGroup>, k: int, n: int)
    requires
        0 <= k <= n,
        first_group_fault(groups, k) is Some,
    ensures
        first_group_fault(groups, n) == first_group_fault(groups, k),
    decreases n - k,
{
    if k < n {
        lemma_group_fault_stays(groups, k, n - 1);
    }
}

/// An operator among the first `k` comparisons that is not valid is the
/// first such operator among the first `n`.
pub proof fn lemma_invalid_operator_stays(comparisons: Seq<Comparison>, k: int, n: int)
    requires
        0 <= k <= n,
        first_invalid_operator(comparisons, k) is Some,
    ensures
        first_invalid_operator(comparisons, n) == first_invalid_operator(comparisons, k),
    decreases n - k,
{
    if k < n {
        lemma_invalid_operator_stays(comparisons, k, n - 1);
    }
}

/// Builds a structured search column by column. A column that is added
/// again takes the place of the earlier one, so no column stands twice.
pub struct StructuredSearchBuilder {
    columns: Vec<(String, ColumnCriteria)>,
}

impl View for StructuredSearchBuilder {
    type V = Seq<ColumnGroup>;

    closed spec fn view(&self) -> Seq<ColumnGroup> {
        column_groups(self.columns@)
    }
}

impl StructuredSearchBuilder {
    #[verifier::type_invariant]
    spec fn columns_are_distinct(self) -> bool {
        distinct_columns(column_groups(self.columns@))
    }

    /// A builder with no column.
    pub fn new() -> (builder: Self)
        ensures
            builder@ == Seq::<ColumnGroup>::empty(),
    {
        let columns: Vec<(String, ColumnCriteria)> = Vec::new();
        assert(column_groups(columns@) =~= Seq::<ColumnGroup>::empty());
        StructuredSearchBuilder { columns }
    }

    /// Asks that `column` equal `value`.
    pub fn add_simple(self, column: &str, value: &str) -> (builder: Self)
        ensures
            builder@ == with_group(
                self@,
                ColumnGroup {
                    column: column@,
                    comparisons: seq![Comparison { value: value@, operator: "="@, logical: "AND"@ }],
                },
            ),
    {
        let criteria = ColumnCriteria::Simple(value.to_owned());
        assert(criteria_comparisons(criteria) =~= seq![
            Comparison { value: value@, operator: "="@, logical: "AND"@ },
        ]);
        self.put(column, criteria)
    }

    /// Asks of `column` one operation for each of several values.
    pub fn add_complex(self, column: &str, value_operations: Vec<(String, ColumnOperation)>) -> (builder:
        Self)
        ensures
            builder@ == with_group(
                self@,
                ColumnGroup {
                    column: column@,
                    comparisons: criteria_comparisons(ColumnCriteria::Complex(value_operations)),
                },
            ),
    {
        self.put(column, ColumnCriteria::Complex(value_operations))
    }

    /// Puts `criteria` in the place of what was asked of `column`, or at the
    /// end where nothing was.
    fn put(self, column: &str, criteria: ColumnCriteria) -> (builder: Self)
        ensures
            builder@ == with_group(
                self@,
                ColumnGroup { column: column@, comparisons: criteria_comparisons(criteria) },
            ),
    {
        proof {
            use_type_invariant(&self);
        }
        let ghost groups = self@;
        let ghost group = ColumnGroup {
            column: column@,
            comparisons: criteria_comparisons(criteria),
        };
        let mut columns = self.columns;
        let mut i: usize = 0;
        while i < columns.len()
            invariant
                i <= columns.len(),
                groups == column_groups(columns@),
                forall|j: int| 0 <= j < i ==> (#[trigger] groups[j]).column != column@,
            ensures
                i <= columns.len(),
                groups == column_groups(columns@),
                forall|j: int| 0 <= j < i ==> (#[trigger] groups[j]).column != column@,
                i < columns.len() ==> groups[i as int].column == column@,
            decreases columns.len() - i,
        {
            if same_text(columns[i].0.as_str(), column) {
                break ;
            }
            i += 1;
        }
        proof {
            lemma_column_position(groups, column@);
            lemma_with_group_distinct(groups, group);
            let position = column_position(groups, column@);
            if position < i {
                assert(groups[position].column == column@);
            }
            if position > i {
                assert(groups[i as int].column != column@);
            }
            assert(position == i);
        }
        if i < columns.len() {
            columns.set(i, (column.to_owned(), criteria));
            assert(column_groups(columns@) =~= groups.update(i as int, group));
        } else {
            columns.push((column.to_owned(), criteria));
            assert(column_groups(columns@) =~= groups.push(group));
        }
        StructuredSearchBuilder { columns }
    }

    /// What is asked of one value, as a JSON value: the logical word alone,
    /// or an object with the operator under `op` and the word under
    /// `logical`.
    fn operation_document(operation: &ColumnOperation) -> (json: JsonValue)
        ensures
            json@ == operation_tree(*operation),
    {
        match operation {
            ColumnOperation::Simple(logical) => JsonValue::Text(logical.clone()),
            ColumnOperation::WithComparison { comparison_operator, logical_operator } => {
                let mut fields: Vec<(String, JsonValue)> = Vec::new();
                fields.push(
                    (
                        "op".to_owned(),
                        match comparison_operator {
                            Some(operator) => JsonValue::Text(operator.clone()),
                            None => JsonValue::Null,
                        },
                    ),
                );
                fields.push(("logical".to_owned(), JsonValue::Text(logical_operator.clone())));
                proof {
                    assert(fields@[1].1@ == JsonTree::Text(logical_operator@));
                    assert(fields@[0].1@ == (match *comparison_operator {
                        Some(operator) => JsonTree::Text(operator@),
                        None => JsonTree::Null,
                    }));
                }
                let json = JsonValue::Object(fields);
                assert(json@->Object_0 =~= operation_tree(*operation)->Object_0);
                json
            },
        }
    }

    /// What is asked of one column, as a JSON value.
    fn criteria_document(criteria: &ColumnCriteria) -> (json: JsonValue)
        ensures
            json@ == criteria_tree(*criteria),
    {
        match criteria {
            ColumnCriteria::Simple(value) => JsonValue::Text(value.clone()),
            ColumnCriteria::Complex(operations) => {
                let mut members: Vec<(String, JsonValue)> = Vec::new();
                let mut i: usize = 0;
                while i < operations.len()
                    invariant
                        i <= operations.len(),
                        members.len() == i,
                        forall|j: int|
                            0 <= j < i ==> (#[trigger] members@[j]).0@ == operations@[j].0@
                                && members@[j].1@ == operation_tree(operations@[j].1),
                    decreases operations.len() - i,
                {
                    let value = operations[i].0.clone();
                    let json = Self::operation_document(&operations[i].1);
                    members.push((value, json));
                    i += 1;
                }
                let json = JsonValue::Object(members);
                assert(json@->Object_0 =~= criteria_tree(*criteria)->Object_0);
                json
            },
        }
    }

    /// The document that the search is written as: an object keyed by
    /// column.
    pub closed spec fn document(&self) -> JsonTree {
        search_tree(self.columns@)
    }

    /// The search as a JSON document: an object keyed by column. Read back,
    /// the document is the search, as long as every column asks at least one
    /// comparison.
    pub fn to_document(&self) -> (json: JsonValue)
        ensures
            json@ == self.document(),
            no_empty_group(self@) ==> search_of_json(json@) == Ok::<Seq<ColumnGroup>, Seq<char>>(
                self@,
            ),
    {
        let mut members: Vec<(String, JsonValue)> = Vec::new();
        let mut i: usize = 0;
        while i < self.columns.len()
            invariant
                i <= self.columns.len(),
                members.len() == i,
                forall|j: int|
                    0 <= j < i ==> (#[trigger] members@[j]).0@ == self.columns@[j].0@
                        && members@[j].1@ == criteria_tree(self.columns@[j].1),
            decreases self.columns.len() - i,
        {
            let name = self.columns[i].0.clone();
            let json = Self::criteria_document(&self.columns[i].1);
            members.push((name, json));
            i += 1;
        }
        let json = JsonValue::Object(members);
        assert(json@->Object_0 =~= search_tree(self.columns@)->Object_0);
        proof {
            if no_empty_group(self@) {
                lemma_search_reads_back(self.columns@);
            }
        }
        json
    }

    /// The search as JSON text on one line: what `serde_json` writes for its
    /// document.
    pub fn to_json(&self) -> (text: Result<String, serde_json::Error>)
        ensures
            text is Ok <==> json_text(self.document()) is Some,
            text is Ok ==> text->Ok_0@ == json_text(self.document())->0,
    {
        let json = self.to_document();
        write_json(&json)
    }

    /// The search as indented JSON text: what `serde_json` writes for its
    /// document.
    pub fn to_json_pretty(&self) -> (text: Result<String, serde_json::Error>)
        ensures
            text is Ok <==> json_pretty_text(self.document()) is Some,
            text is Ok ==> text->Ok_0@ == json_pretty_text(self.document())->0,
    {
        let json = self.to_document();
        write_json_pretty(&json)
    }

    /// The search that was built; no column stands twice in it.
    pub fn build(self) -> (search: StructuredSearch)
        ensures
            search@ == self@,
            distinct_columns(search@),
    {
        proof {
            use_type_invariant(&self);
        }
        StructuredSearch { columns: self.columns }
    }
}

/// A fault among the first `k` criteria is the fault of the whole list.
pub proof fn lemma_first_fault_stays(criteria: Seq<Criterion>, k: int)
    requires
        0 <= k <= criteria.len(),
        first_fault(criteria.take(k)) is Some,
    ensures
        first_fault(criteria) == first_fault(criteria.take(k)),
    decreases criteria.len() - k,
{
    if k < criteria.len() {
        assert(criteria.take(k + 1).drop_last() =~= criteria.take(k));
        lemma_first_fault_stays(criteria, k + 1);
    } else {
        assert(criteria.take(k) =~= criteria);
    }
}

/// A malformed member among the first `k` makes the whole object malformed.
pub proof fn lemma_operations_fault_stays(entries: Seq<(Seq<char>, JsonTree)>, k: int)
    requires
        0 <= k <= entries.len(),
        operations_of_json(entries.take(k)) is None,
    ensures
        operations_of_json(entries) is None,
    decreases entries.len() - k,
{
    if k < entries.len() {
        assert(entries.take(k + 1).drop_last() =~= entries.take(k));
        lemma_operations_fault_stays(entries, k + 1);
    } else {
        assert(entries.take(k) =~= entries);
    }
}

/// A fault among the first `k` columns is the fault of the whole object.
pub proof fn lemma_groups_fault_stays(columns: Seq<(Seq<char>, JsonTree)>, k: int)
    requires
        0 <= k <= columns.len(),
        groups_of_json(columns.take(k)) is Err,
    ensures
        groups_of_json(columns) == groups_of_json(columns.take(k)),
    decreases columns.len() - k,
{
    if k < columns.len() {
        assert(columns.take(k + 1).drop_last() =~= columns.take(k));
        lemma_groups_fault_stays(columns, k + 1);
    } else {
        assert(columns.take(k) =~= columns);
    }
}

/// A fault among the first `k` items is the fault of the whole array.
pub proof fn lemma_items_fault_stays(items: Seq<JsonTree>, k: int)
    requires
        0 <= k <= items.len(),
        criteria_of_items(items.take(k)) is Err,
    ensures
        criteria_of_items(items) == criteria_of_items(items.take(k)),
    decreases items.len() - k,
{
    if k < items.len() {
        assert(items.take(k + 1).drop_last() =~= items.take(k));
        lemma_items_fault_stays(items, k + 1);
    } else {
        assert(items.take(k) =~= items);
    }
}

} // verus!

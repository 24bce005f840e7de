//! What the filter compiler guarantees: no filter and no criterion is
//! dropped on the way to the predicates, every compiled predicate shows in
//! the text of the query, and equalities on one column that are joined by
//! `OR` become a single `IN`. This holds of all three forms: the operator of
//! a flat filter comes from its suffix, and the legacy and the structured
//! form refuse an operator that is not among the valid ones, so no text of
//! the caller's is ever taken for an operator or for a ready fragment.

use crate::database::query_builder::{
    connector, lemma_conditions_add, lemma_conditions_bind_no_null, renders, starts_with,
    with_conditions, Statement,
};
use crate::models::query::{Condition, SqlValue};
use crate::json::JsonTree;
use crate::search::{
    all_equal_with_or, column_comparisons, comparisons_of_json, compiled_groups,
    criteria_of_items, criteria_of_json, criterion_columns, criterion_comparison, criterion_of_json,
    document_outcome, filter_condition, filter_operator, first_fault, first_group_fault,
    first_invalid_operator, group_condition, group_conditions, group_fault, grouped_conditions,
    groups_of_json, in_list, lead, mixed_outcome, operation_of_json, operations_of_json,
    raw_group, search_of_json, simple_conditions, valid_operators, ColumnGroup, Comparison,
    Criterion,
};
use vstd::prelude::*;

verus! {

/// No predicate of the flat filters carries a connector: they are joined by
/// `AND`.
pub proof fn lemma_filters_carry_no_connector(
    filters: Seq<(String, String)>,
    excluded: Seq<Seq<char>>,
)
    ensures
        forall|k: int|
            0 <= k < simple_conditions(filters, excluded).len() ==> (#[trigger] simple_conditions(
                filters,
                excluded,
            )[k]).logical_operator is None,
    decreases filters.len(),
{
    if filters.len() > 0 {
        lemma_filters_carry_no_connector(filters.drop_last(), excluded);
        let before = simple_conditions(filters.drop_last(), excluded);
        let compiled = simple_conditions(filters, excluded);
        assert forall|k: int| 0 <= k < compiled.len() implies (
        #[trigger] compiled[k]).logical_operator is None by {
            if k < before.len() {
                assert(compiled[k] == before[k]);
            }
        }
    }
}

/// A request that has both a search document and flat filters keeps both:
/// the predicates of the document come first, every flat filter that is not
/// excluded follows them in its order, and each of these, the first
/// included, is joined to what stands before it by `AND`.
pub proof fn lemma_filters_follow_the_document(
    json: JsonTree,
    filters: Seq<(String, String)>,
    excluded: Seq<Seq<char>>,
)
    requires
        document_outcome(json) is Ok,
    ensures
        mixed_outcome(json, simple_conditions(filters, excluded)) is Ok,
        mixed_outcome(json, simple_conditions(filters, excluded))->Ok_0.len()
            == document_outcome(json)->Ok_0.len() + simple_conditions(filters, excluded).len(),
        forall|k: int|
            0 <= k < document_outcome(json)->Ok_0.len() ==> mixed_outcome(
                json,
                simple_conditions(filters, excluded),
            )->Ok_0[k] == document_outcome(json)->Ok_0[k],
        forall|k: int|
            0 <= k < simple_conditions(filters, excluded).len() ==> {
                &&& mixed_outcome(json, simple_conditions(filters, excluded))->Ok_0[
                    document_outcome(json)->Ok_0.len() + k
                ] == #[trigger] simple_conditions(filters, excluded)[k]
                &&& connector(simple_conditions(filters, excluded)[k]) == "AND"@
            },
{
    lemma_filters_carry_no_connector(filters, excluded);
}

/// The first predicate of a compiled list never carries a connector, and
/// every later predicate of the legacy and of the structured form is joined
/// by `AND`.
pub proof fn lemma_first_condition_leads(criteria: Seq<Criterion>, groups: Seq<ColumnGroup>)
    ensures
        forall|g: int|
            0 <= g < grouped_conditions(criteria).len() ==> (#[trigger] grouped_conditions(
                criteria,
            )[g]).logical_operator == lead(g == 0),
        forall|g: int|
            0 <= g < group_conditions(groups).len() ==> (#[trigger] group_conditions(
                groups,
            )[g]).logical_operator == lead(g == 0),
{
}

/// Every flat filter whose key is not excluded has its predicate in the
/// compiled list.
pub proof fn lemma_every_filter_compiled(
    filters: Seq<(String, String)>,
    excluded: Seq<Seq<char>>,
    i: int,
)
    requires
        0 <= i < filters.len(),
        !excluded.contains(filters[i].0@),
    ensures
        simple_conditions(filters, excluded).contains(
            filter_condition(filters[i].0@, filters[i].1@),
        ),
    decreases filters.len(),
{
    let compiled = simple_conditions(filters, excluded);
    if i == filters.len() - 1 {
        assert(compiled[compiled.len() - 1] == filter_condition(filters[i].0@, filters[i].1@));
    } else {
        lemma_every_filter_compiled(filters.drop_last(), excluded, i);
        let before = simple_conditions(filters.drop_last(), excluded);
        let wanted = filter_condition(filters[i].0@, filters[i].1@);
        let at = choose|at: int| 0 <= at < before.len() && before[at] == wanted;
        assert(compiled[at] == wanted);
    }
}

/// The mark of a raw predicate is none of the operators that a filter or a
/// criterion can carry, and it is not `IN`.
pub proof fn lemma_raw_is_no_operator()
    ensures
        "RAW"@ != "="@,
        "RAW"@ != "!="@,
        "RAW"@ != ">"@,
        "RAW"@ != "<"@,
        "RAW"@ != ">="@,
        "RAW"@ != "<="@,
        "RAW"@ != "LIKE"@,
        "RAW"@ != "NOT LIKE"@,
        "RAW"@ != "IN"@,
        "IN"@ != "="@,
{
    reveal_strlit("RAW");
    reveal_strlit("LIKE");
    reveal_strlit("NOT LIKE");
    reveal_strlit(">");
    reveal_strlit(">=");
    reveal_strlit("<");
    reveal_strlit("<=");
    reveal_strlit("!=");
    reveal_strlit("=");
    reveal_strlit("IN");
    assert("RAW"@.len() == 3);
    assert("="@.len() == 1);
    assert("!="@.len() == 2);
    assert(">"@.len() == 1);
    assert("<"@.len() == 1);
    assert(">="@.len() == 2);
    assert("<="@.len() == 2);
    assert("LIKE"@.len() == 4);
    assert("NOT LIKE"@.len() == 8);
    assert("IN"@.len() == 2);
}

/// The operator of a flat filter is never the mark of a raw predicate.
pub proof fn lemma_filter_operator_is_plain(key: Seq<char>)
    ensures
        filter_operator(key) != "RAW"@,
{
    lemma_raw_is_no_operator();
}

/// Every predicate of the flat filters shows in the text of the query.
pub proof fn lemma_filters_render(filters: Seq<(String, String)>, excluded: Seq<Seq<char>>)
    ensures
        forall|k: int|
            0 <= k < simple_conditions(filters, excluded).len() ==> renders(
                #[trigger] simple_conditions(filters, excluded)[k],
            ),
    decreases filters.len(),
{
    if filters.len() > 0 {
        lemma_filters_render(filters.drop_last(), excluded);
        lemma_filter_operator_is_plain(filters.last().0@);
        let before = simple_conditions(filters.drop_last(), excluded);
        let compiled = simple_conditions(filters, excluded);
        assert forall|k: int| 0 <= k < compiled.len() implies renders(#[trigger] compiled[k]) by {
            if k < before.len() {
                assert(compiled[k] == before[k]);
            }
        }
    }
}

/// Every column that a criterion names is a column of the grouping, and the
/// columns of the grouping are distinct.
pub proof fn lemma_columns_of_criteria(criteria: Seq<Criterion>)
    ensures
        forall|i: int|
            0 <= i < criteria.len() ==> criterion_columns(criteria).contains(
                (#[trigger] criteria[i]).column,
            ),
        forall|g: int, h: int|
            0 <= g < h < criterion_columns(criteria).len() ==> #[trigger] criterion_columns(
                criteria,
            )[g] != #[trigger] criterion_columns(criteria)[h],
        forall|g: int|
            #![trigger criterion_columns(criteria)[g]]
            0 <= g < criterion_columns(criteria).len() ==> exists|i: int|
                0 <= i < criteria.len() && (#[trigger] criteria[i]).column == criterion_columns(
                    criteria,
                )[g],
    decreases criteria.len(),
{
    if criteria.len() > 0 {
        let rest = criteria.drop_last();
        lemma_columns_of_criteria(rest);
        let before = criterion_columns(rest);
        let now = criterion_columns(criteria);
        let last = criteria.last().column;
        assert forall|i: int| 0 <= i < criteria.len() implies now.contains(
            (#[trigger] criteria[i]).column,
        ) by {
            if i < criteria.len() - 1 {
                assert(rest[i] == criteria[i]);
                let at = choose|at: int| 0 <= at < before.len() && before[at] == criteria[i].column;
                assert(now[at] == criteria[i].column);
            } else if before.contains(last) {
                let at = choose|at: int| 0 <= at < before.len() && before[at] == last;
                assert(now[at] == last);
            } else {
                assert(now[now.len() - 1] == last);
            }
        }
        assert forall|g: int|
            #![trigger now[g]]
            0 <= g < now.len() implies exists|i: int|
            0 <= i < criteria.len() && (#[trigger] criteria[i]).column == now[g] by {
            if g < before.len() {
                let i = choose|i: int| 0 <= i < rest.len() && (#[trigger] rest[i]).column == before[g];
                assert(criteria[i].column == now[g]);
            } else {
                assert(criteria[criteria.len() - 1].column == now[g]);
            }
        }
    }
}

/// Every criterion is among the comparisons of its column.
pub proof fn lemma_criterion_in_its_group(criteria: Seq<Criterion>, i: int)
    requires
        0 <= i < criteria.len(),
    ensures
        column_comparisons(criteria, criteria[i].column).contains(criterion_comparison(criteria[i])),
    decreases criteria.len(),
{
    let column = criteria[i].column;
    let wanted = criterion_comparison(criteria[i]);
    let now = column_comparisons(criteria, column);
    if i == criteria.len() - 1 {
        assert(now[now.len() - 1] == wanted);
    } else {
        lemma_criterion_in_its_group(criteria.drop_last(), i);
        let before = column_comparisons(criteria.drop_last(), column);
        let at = choose|at: int| 0 <= at < before.len() && before[at] == wanted;
        assert(now[at] == wanted);
    }
}

/// No criterion is dropped by the grouping: its column has one predicate in
/// the compiled list, and that predicate is made of the comparisons of the
/// column, among which the criterion is.
pub proof fn lemma_every_criterion_compiled(criteria: Seq<Criterion>, i: int)
    requires
        0 <= i < criteria.len(),
    ensures
        exists|g: int|
            0 <= g < grouped_conditions(criteria).len() && criterion_columns(criteria)[g]
                == criteria[i].column && #[trigger] grouped_conditions(criteria)[g]
                == group_condition(
                criteria[i].column,
                column_comparisons(criteria, criteria[i].column),
                "OR"@,
                g == 0,
            ),
        column_comparisons(criteria, criteria[i].column).contains(criterion_comparison(criteria[i])),
{
    lemma_columns_of_criteria(criteria);
    lemma_criterion_in_its_group(criteria, i);
    let columns = criterion_columns(criteria);
    let g = choose|g: int| 0 <= g < columns.len() && columns[g] == criteria[i].column;
    assert(grouped_conditions(criteria)[g] == group_condition(
        criteria[i].column,
        column_comparisons(criteria, criteria[i].column),
        "OR"@,
        g == 0,
    ));
}

/// The comparisons of a column that no criterion names are none.
pub proof fn lemma_comparisons_of_named(criteria: Seq<Criterion>, column: Seq<char>)
    requires
        column_comparisons(criteria, column).len() > 0,
    ensures
        exists|i: int| 0 <= i < criteria.len() && (#[trigger] criteria[i]).column == column,
    decreases criteria.len(),
{
    if criteria.len() > 0 {
        if criteria.last().column == column {
            assert(criteria[criteria.len() - 1].column == column);
        } else {
            lemma_comparisons_of_named(criteria.drop_last(), column);
            let i = choose|i: int|
                0 <= i < criteria.drop_last().len() && (#[trigger] criteria.drop_last()[i]).column
                    == column;
            assert(criteria[i].column == column);
        }
    }
}

/// Two or more equalities on one column, each joined by `OR`, are one
/// predicate: an `IN` with the list of their values.
pub proof fn lemma_group_collapses(
    column: Seq<char>,
    comparisons: Seq<Comparison>,
    connector: Seq<char>,
    first: bool,
)
    requires
        comparisons.len() >= 2,
        all_equal_with_or(comparisons),
    ensures
        group_condition(column, comparisons, connector, first) == (Condition {
            column: column,
            operator: "IN"@,
            value: SqlValue::Text(in_list(comparisons)),
            logical_operator: lead(first),
        }),
{
}

/// In the legacy form, two or more equalities on one column that are joined
/// by `OR` compile to exactly one `IN` on that column, and to no equality
/// on it: the list holds one predicate that is the `IN` with their values,
/// no other `IN` on the column, and no `=` on it.
pub proof fn lemma_equalities_become_one_in(criteria: Seq<Criterion>, column: Seq<char>)
    requires
        column_comparisons(criteria, column).len() >= 2,
        all_equal_with_or(column_comparisons(criteria, column)),
    ensures
        exists|g: int|
            0 <= g < grouped_conditions(criteria).len() && #[trigger] grouped_conditions(criteria)[g]
                == (Condition {
                column: column,
                operator: "IN"@,
                value: SqlValue::Text(in_list(column_comparisons(criteria, column))),
                logical_operator: lead(g == 0),
            }) && forall|h: int|
                0 <= h < grouped_conditions(criteria).len() && h != g ==> !((
                #[trigger] grouped_conditions(criteria)[h]).column == column && grouped_conditions(
                    criteria,
                )[h].operator == "IN"@),
        forall|h: int|
            0 <= h < grouped_conditions(criteria).len() ==> !((#[trigger] grouped_conditions(
                criteria,
            )[h]).column == column && grouped_conditions(criteria)[h].operator == "="@),
{
    lemma_raw_is_no_operator();
    lemma_columns_of_criteria(criteria);
    lemma_comparisons_of_named(criteria, column);
    let columns = criterion_columns(criteria);
    let compiled = grouped_conditions(criteria);
    let i = choose|i: int| 0 <= i < criteria.len() && (#[trigger] criteria[i]).column == column;
    assert(columns.contains(criteria[i].column));
    let g = choose|g: int| 0 <= g < columns.len() && columns[g] == column;
    lemma_group_collapses(column, column_comparisons(criteria, column), "OR"@, g == 0);
    assert forall|h: int| 0 <= h < compiled.len() && h != g implies !((#[trigger] compiled[h]).column
        == column && (compiled[h].operator == "IN"@ || compiled[h].operator == "="@)) by {
        if h < g {
            assert(columns[h] != columns[g]);
        } else {
            assert(columns[g] != columns[h]);
        }
    }
    assert(compiled[g] == (Condition {
        column: column,
        operator: "IN"@,
        value: SqlValue::Text(in_list(column_comparisons(criteria, column))),
        logical_operator: lead(g == 0),
    }));
}

/// A valid comparison operator is never the mark of a raw predicate.
pub proof fn lemma_valid_operator_is_plain(operator: Seq<char>)
    requires
        valid_operators().contains(operator),
    ensures
        operator != "RAW"@,
{
    lemma_raw_is_no_operator();
    let at = choose|at: int| 0 <= at < valid_operators().len() && valid_operators()[at] == operator;
    assert(valid_operators()[at] == operator);
}

/// Where the list has no fault, no criterion has one.
pub proof fn lemma_no_fault_anywhere(criteria: Seq<Criterion>, i: int)
    requires
        0 <= i < criteria.len(),
        first_fault(criteria) is None,
    ensures
        crate::search::criterion_fault(criteria[i], i as nat) is None,
    decreases criteria.len(),
{
    if i < criteria.len() - 1 {
        lemma_no_fault_anywhere(criteria.drop_last(), i);
    }
}

/// The one comparison of a column is that of a criterion.
pub proof fn lemma_comparisons_are_criteria(criteria: Seq<Criterion>, column: Seq<char>, at: int)
    requires
        0 <= at < column_comparisons(criteria, column).len(),
    ensures
        exists|i: int|
            0 <= i < criteria.len() && column_comparisons(criteria, column)[at]
                == criterion_comparison(#[trigger] criteria[i]),
    decreases criteria.len(),
{
    if criteria.len() > 0 {
        let before = column_comparisons(criteria.drop_last(), column);
        if at < before.len() {
            lemma_comparisons_are_criteria(criteria.drop_last(), column, at);
            let i = choose|i: int|
                0 <= i < criteria.drop_last().len() && before[at] == criterion_comparison(
                    #[trigger] criteria.drop_last()[i],
                );
            assert(column_comparisons(criteria, column)[at] == criterion_comparison(criteria[i]));
        } else {
            assert(column_comparisons(criteria, column)[at] == criterion_comparison(
                criteria[criteria.len() - 1],
            ));
        }
    }
}

/// The predicate of a group shows in the text of the query, unless the group
/// is one comparison that carries the mark of a raw predicate, which no
/// compiled group does.
proof fn lemma_group_renders(
    column: Seq<char>,
    comparisons: Seq<Comparison>,
    connector: Seq<char>,
    first: bool,
)
    requires
        comparisons.len() == 1 ==> !(column == "RAW_SQL"@ && comparisons[0].operator == "RAW"@),
    ensures
        renders(group_condition(column, comparisons, connector, first)),
{
    lemma_raw_is_no_operator();
    reveal_strlit("(");
    reveal_strlit(")");
    assert("("@.len() == 1);
    assert(")"@.len() == 1);
    assert(raw_group(column, comparisons, connector).len() >= 2);
}

/// Every predicate that the legacy form compiles from valid criteria shows
/// in the text of the query.
pub proof fn lemma_criteria_render(criteria: Seq<Criterion>)
    requires
        first_fault(criteria) is None,
    ensures
        forall|g: int|
            0 <= g < grouped_conditions(criteria).len() ==> renders(
                #[trigger] grouped_conditions(criteria)[g],
            ),
{
    let columns = criterion_columns(criteria);
    let compiled = grouped_conditions(criteria);
    assert forall|g: int| 0 <= g < compiled.len() implies renders(#[trigger] compiled[g]) by {
        let comparisons = column_comparisons(criteria, columns[g]);
        if comparisons.len() == 1 {
            lemma_comparisons_are_criteria(criteria, columns[g], 0);
            let i = choose|i: int|
                0 <= i < criteria.len() && comparisons[0] == criterion_comparison(
                    #[trigger] criteria[i],
                );
            lemma_no_fault_anywhere(criteria, i);
            match criteria[i].comparison_operator {
                Some(operator) => {
                    lemma_valid_operator_is_plain(operator);
                },
                None => {
                    lemma_raw_is_no_operator();
                },
            }
            assert(comparisons[0].operator != "RAW"@);
        }
        lemma_group_renders(columns[g], comparisons, "OR"@, g == 0);
    }
}

/// Where the columns have no fault, no column has one.
pub proof fn lemma_no_group_fault_anywhere(groups: Seq<ColumnGroup>, n: int, g: int)
    requires
        0 <= g < n <= groups.len(),
        first_group_fault(groups, n) is None,
    ensures
        group_fault(groups[g]) is None,
    decreases n,
{
    if g < n - 1 {
        lemma_no_group_fault_anywhere(groups, n - 1, g);
    }
}

/// Where no operator is found that is not valid, every operator is valid.
pub proof fn lemma_every_operator_valid(comparisons: Seq<Comparison>, n: int, c: int)
    requires
        0 <= c < n <= comparisons.len(),
        first_invalid_operator(comparisons, n) is None,
    ensures
        valid_operators().contains(comparisons[c].operator),
    decreases n,
{
    if c < n - 1 {
        lemma_every_operator_valid(comparisons, n - 1, c);
    }
}

/// A structured search that asks a comparison under an operator which is
/// not among the valid ones is refused, whichever column and value ask it:
/// no text of the caller's reaches the query as an operator, and none as a
/// ready fragment.
pub proof fn lemma_invalid_operator_is_refused(groups: Seq<ColumnGroup>, g: int, c: int)
    requires
        0 <= g < groups.len(),
        0 <= c < groups[g].comparisons.len(),
        !valid_operators().contains(groups[g].comparisons[c].operator),
    ensures
        compiled_groups(groups) is Err,
{
    if first_group_fault(groups, groups.len() as int) is None {
        lemma_no_group_fault_anywhere(groups, groups.len() as int, g);
        lemma_every_operator_valid(
            groups[g].comparisons,
            groups[g].comparisons.len() as int,
            c,
        );
    }
}

/// Every structured search that compiles gives one predicate for each of
/// its columns, and every one of them shows in the text of the query.
pub proof fn lemma_groups_render(groups: Seq<ColumnGroup>)
    ensures
        compiled_groups(groups) is Ok ==> compiled_groups(groups)->Ok_0.len() == groups.len(),
        compiled_groups(groups) is Ok ==> forall|g: int|
            0 <= g < groups.len() ==> renders(#[trigger] compiled_groups(groups)->Ok_0[g]),
{
    if compiled_groups(groups) is Ok {
        assert(compiled_groups(groups)->Ok_0 == group_conditions(groups));
        assert forall|g: int| 0 <= g < groups.len() implies renders(
            #[trigger] group_conditions(groups)[g],
        ) by {
            lemma_no_group_fault_anywhere(groups, groups.len() as int, g);
            if groups[g].comparisons.len() == 1 {
                lemma_every_operator_valid(groups[g].comparisons, 1, 0);
                lemma_valid_operator_is_plain(groups[g].comparisons[0].operator);
            }
            lemma_group_renders(groups[g].column, groups[g].comparisons, "OR"@, g == 0);
        }
    }
}

/// No value of a column is dropped when a structured document is read: the
/// comparisons are as many as the members, and each is what its member asks
/// of its value.
pub proof fn lemma_every_value_read(entries: Seq<(Seq<char>, JsonTree)>)
    requires
        operations_of_json(entries) is Some,
    ensures
        operations_of_json(entries)->0.len() == entries.len(),
        forall|i: int|
            0 <= i < entries.len() ==> operation_of_json(
                (#[trigger] entries[i]).0,
                entries[i].1,
            ) == Some(operations_of_json(entries)->0[i]),
    decreases entries.len(),
{
    if entries.len() > 0 {
        let rest = entries.drop_last();
        lemma_every_value_read(rest);
        assert forall|i: int| 0 <= i < entries.len() implies operation_of_json(
            (#[trigger] entries[i]).0,
            entries[i].1,
        ) == Some(operations_of_json(entries)->0[i]) by {
            if i < entries.len() - 1 {
                assert(rest[i] == entries[i]);
            }
        }
    }
}

/// No column is dropped when a structured document is read: the groups are
/// as many as the members, each under the name of its member and made of
/// what the member asks.
pub proof fn lemma_every_column_read(columns: Seq<(Seq<char>, JsonTree)>)
    requires
        groups_of_json(columns) is Ok,
    ensures
        groups_of_json(columns)->Ok_0.len() == columns.len(),
        forall|g: int|
            0 <= g < columns.len() ==> groups_of_json(columns)->Ok_0[g].column == (
            #[trigger] columns[g]).0 && comparisons_of_json(columns[g].1) == Some(
                groups_of_json(columns)->Ok_0[g].comparisons,
            ),
    decreases columns.len(),
{
    if columns.len() > 0 {
        let rest = columns.drop_last();
        lemma_every_column_read(rest);
        assert forall|g: int| 0 <= g < columns.len() implies groups_of_json(columns)->Ok_0[g].column
            == (#[trigger] columns[g]).0 && comparisons_of_json(columns[g].1) == Some(
            groups_of_json(columns)->Ok_0[g].comparisons,
        ) by {
            if g < columns.len() - 1 {
                assert(rest[g] == columns[g]);
            }
        }
    }
}

/// No criterion is dropped when a legacy document is read: the criteria are
/// as many as the items, and each is what its item stands for.
pub proof fn lemma_every_item_read(items: Seq<JsonTree>)
    requires
        criteria_of_items(items) is Ok,
    ensures
        criteria_of_items(items)->Ok_0.len() == items.len(),
        forall|i: int|
            0 <= i < items.len() ==> criterion_of_json(#[trigger] items[i]) == Some(
                criteria_of_items(items)->Ok_0[i],
            ),
    decreases items.len(),
{
    if items.len() > 0 {
        let rest = items.drop_last();
        lemma_every_item_read(rest);
        assert forall|i: int| 0 <= i < items.len() implies criterion_of_json(#[trigger] items[i])
            == Some(criteria_of_items(items)->Ok_0[i]) by {
            if i < items.len() - 1 {
                assert(rest[i] == items[i]);
            }
        }
    }
}

/// Flat filters that are compiled and then rendered are all in the text of
/// the query, and none of them binds `NULL`: what was written before them
/// stays, the text grows by at least one character for each predicate, and
/// a statement that bound no `NULL` before binds none after.
pub proof fn lemma_filters_reach_the_query(
    statement: Statement,
    filters: Seq<(String, String)>,
    excluded: Seq<Seq<char>>,
)
    ensures
        starts_with(
            with_conditions(statement, simple_conditions(filters, excluded)).sql,
            statement.sql,
        ),
        with_conditions(statement, simple_conditions(filters, excluded)).sql.len()
            >= statement.sql.len() + simple_conditions(filters, excluded).len(),
        statement.binds_no_null() ==> with_conditions(
            statement,
            simple_conditions(filters, excluded),
        ).binds_no_null(),
{
    lemma_filters_render(filters, excluded);
    lemma_conditions_add(statement, simple_conditions(filters, excluded));
    if statement.binds_no_null() {
        lemma_conditions_bind_no_null(statement, simple_conditions(filters, excluded));
    }
}

/// Valid criteria of the legacy form that are compiled and then rendered are
/// all in the text of the query, one predicate for each column, and none of
/// them binds `NULL`.
pub proof fn lemma_criteria_reach_the_query(statement: Statement, criteria: Seq<Criterion>)
    requires
        first_fault(criteria) is None,
    ensures
        starts_with(with_conditions(statement, grouped_conditions(criteria)).sql, statement.sql),
        with_conditions(statement, grouped_conditions(criteria)).sql.len() >= statement.sql.len()
            + criterion_columns(criteria).len(),
        statement.binds_no_null() ==> with_conditions(
            statement,
            grouped_conditions(criteria),
        ).binds_no_null(),
{
    lemma_criteria_render(criteria);
    lemma_conditions_add(statement, grouped_conditions(criteria));
    if statement.binds_no_null() {
        lemma_conditions_bind_no_null(statement, grouped_conditions(criteria));
    }
}

/// The columns of every structured search that compiles are all in the text
/// of the query once they are rendered, one predicate for each, and none of
/// them binds `NULL`.
pub proof fn lemma_groups_reach_the_query(statement: Statement, groups: Seq<ColumnGroup>)
    ensures
        compiled_groups(groups) is Ok ==> {
            &&& starts_with(
                with_conditions(statement, compiled_groups(groups)->Ok_0).sql,
                statement.sql,
            )
            &&& with_conditions(statement, compiled_groups(groups)->Ok_0).sql.len()
                >= statement.sql.len() + groups.len()
            &&& statement.binds_no_null() ==> with_conditions(
                statement,
                compiled_groups(groups)->Ok_0,
            ).binds_no_null()
        },
{
    if compiled_groups(groups) is Ok {
        lemma_groups_render(groups);
        lemma_conditions_add(statement, compiled_groups(groups)->Ok_0);
        if statement.binds_no_null() {
            lemma_conditions_bind_no_null(statement, compiled_groups(groups)->Ok_0);
        }
    }
}

/// Whatever a request carries, what compiles reaches the query: for every
/// search document, of either form, and every list of flat filters, each
/// predicate of the compiled list shows in the text of the query, nothing
/// that was written before is lost, the text grows by at least one character
/// for each predicate, and no `NULL` is bound.
pub proof fn lemma_request_reaches_the_query(
    statement: Statement,
    json: JsonTree,
    filters: Seq<(String, String)>,
    excluded: Seq<Seq<char>>,
)
    ensures
        mixed_outcome(json, simple_conditions(filters, excluded)) is Ok ==> {
            let compiled = mixed_outcome(json, simple_conditions(filters, excluded))->Ok_0;
            &&& forall|k: int| 0 <= k < compiled.len() ==> renders(#[trigger] compiled[k])
            &&& starts_with(with_conditions(statement, compiled).sql, statement.sql)
            &&& with_conditions(statement, compiled).sql.len() >= statement.sql.len()
                + compiled.len()
            &&& statement.binds_no_null() ==> with_conditions(statement, compiled).binds_no_null()
        },
{
    let flat = simple_conditions(filters, excluded);
    if mixed_outcome(json, flat) is Ok {
        let document = document_outcome(json)->Ok_0;
        let compiled = mixed_outcome(json, flat)->Ok_0;
        assert(compiled == document + flat);
        match json {
            JsonTree::Object(_) => {
                let groups = search_of_json(json)->Ok_0;
                assert(compiled_groups(groups) == Ok::<Seq<Condition>, Seq<char>>(document));
                lemma_groups_render(groups);
            },
            _ => {
                let criteria = criteria_of_json(json)->Ok_0;
                assert(first_fault(criteria) is None);
                lemma_criteria_render(criteria);
            },
        }
        lemma_filters_render(filters, excluded);
        assert forall|k: int| 0 <= k < compiled.len() implies renders(#[trigger] compiled[k]) by {
            if k < document.len() {
                assert(compiled[k] == document[k]);
            } else {
                assert(compiled[k] == flat[k - document.len()]);
            }
        }
        lemma_conditions_add(statement, compiled);
        if statement.binds_no_null() {
            lemma_conditions_bind_no_null(statement, compiled);
        }
    }
}

} // verus!

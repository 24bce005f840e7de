//! The SQL compiler: one parameterized `SELECT` from a `QueryOptions`.

use crate::models::query::{views, Condition, Options, QueryOptions, QueryValue, SqlValue, WhereCondition};
use crate::text::same_text;
use vstd::prelude::*;

verus! {

/// A statement for the database: its text, with a `?` for each bound
/// parameter, and the parameters in the order of their `?`.
#[derive(Debug, PartialEq, Eq)]
pub struct SqlStatement {
    pub sql: String,
    pub binds: Vec<QueryValue>,
}

/// What a `SqlStatement` stands for.
pub struct Statement {
    pub sql: Seq<char>,
    pub binds: Seq<SqlValue>,
}

impl Statement {
    /// The statement that is `text` and binds nothing.
    pub open spec fn start(text: Seq<char>) -> Statement {
        Statement { sql: text, binds: Seq::empty() }
    }

    /// The statement with `text` behind it.
    pub open spec fn push(self, text: Seq<char>) -> Statement {
        Statement { sql: self.sql + text, binds: self.binds }
    }

    /// The statement with one more placeholder, bound to `value`.
    pub open spec fn push_bind(self, value: SqlValue) -> Statement {
        Statement { sql: self.sql.push('?'), binds: self.binds.push(value) }
    }

    /// Whether no parameter is bound to `NULL`.
    pub open spec fn binds_no_null(self) -> bool {
        forall|i: int| 0 <= i < self.binds.len() ==> self.binds[i] != SqlValue::Null
    }
}

impl View for SqlStatement {
    type V = Statement;

    open spec fn view(&self) -> Statement {
        Statement { sql: self.sql@, binds: views(self.binds@) }
    }
}

impl Clone for SqlStatement {
    fn clone(&self) -> (copy: Self)
        ensures
            copy@ == self@,
    {
        let mut binds: Vec<QueryValue> = Vec::new();
        let mut i: usize = 0;
        while i < self.binds.len()
            invariant
                i <= self.binds.len(),
                binds.len() == i,
                forall|j: int| 0 <= j < i ==> binds@[j]@ == self.binds@[j]@,
            decreases self.binds.len() - i,
        {
            binds.push(self.binds[i].clone());
            i += 1;
        }
        assert(views(binds@) =~= views(self.binds@));
        SqlStatement { sql: self.sql.clone(), binds }
    }
}

impl SqlStatement {
    /// The statement that is `text` and binds nothing.
    pub fn new(text: &str) -> (statement: SqlStatement)
        ensures
            statement@ == Statement::start(text@),
    {
        let statement = SqlStatement { sql: text.to_owned(), binds: Vec::new() };
        assert(views(statement.binds@) =~= Seq::<SqlValue>::empty());
        statement
    }

    /// The statement that is `text` and binds `binds`.
    pub fn with_binds(text: &str, binds: Vec<QueryValue>) -> (statement: SqlStatement)
        ensures
            statement@ == (Statement { sql: text@, binds: views(binds@) }),
    {
        SqlStatement { sql: text.to_owned(), binds }
    }

    /// Appends `text`.
    pub fn push(&mut self, text: &str)
        ensures
            final(self)@ == old(self)@.push(text@),
    {
        self.sql.append(text);
    }

    /// Appends a placeholder and binds `value` to it.
    pub fn push_bind(&mut self, value: QueryValue)
        ensures
            final(self)@ == old(self)@.push_bind(value@),
    {
        self.sql.push('?');
        let ghost before = self.binds@;
        self.binds.push(value);
        assert(views(self.binds@) =~= views(before).push(value@));
    }
}

/// The connector that stands before a predicate which is not the first: its
/// own, or `AND`.
pub open spec fn connector(condition: Condition) -> Seq<char> {
    match condition.logical_operator {
        Some(word) => word,
        None => "AND"@,
    }
}

/// Whether a predicate carries a ready fragment of SQL in place of a column,
/// an operator and a value.
pub open spec fn is_raw(condition: Condition) -> bool {
    condition.column == "RAW_SQL"@ && condition.operator == "RAW"@
}

/// What a predicate adds behind its connector.
///
/// A value is bound to a placeholder, with two exceptions: the list of an
/// `IN` is written out as it stands, and `NULL` is tested by `IS NULL`, or by
/// `IS NOT NULL` where the operator is `!=`.
pub open spec fn with_predicate(statement: Statement, condition: Condition) -> Statement {
    if is_raw(condition) {
        match condition.value {
            SqlValue::Text(fragment) => statement.push(fragment),
            _ => statement,
        }
    } else {
        let named = statement.push("`"@).push(condition.column).push("` "@);
        match condition.value {
            SqlValue::Null => if condition.operator == "!="@ {
                named.push("IS NOT NULL"@)
            } else {
                named.push("IS NULL"@)
            },
            SqlValue::Text(text) => if condition.operator == "IN"@ {
                named.push(condition.operator).push(" "@).push(text)
            } else {
                named.push(condition.operator).push(" "@).push_bind(condition.value)
            },
            _ => named.push(condition.operator).push(" "@).push_bind(condition.value),
        }
    }
}

/// What a predicate adds to a statement; `first` says that no predicate stands
/// before it.
pub open spec fn with_condition(statement: Statement, condition: Condition, first: bool) -> Statement {
    if first {
        with_predicate(statement, condition)
    } else {
        with_predicate(statement.push(" "@).push(connector(condition)).push(" "@), condition)
    }
}

/// The statement with the predicates behind it, in list order.
pub open spec fn with_conditions(statement: Statement, conditions: Seq<Condition>) -> Statement
    decreases conditions.len(),
{
    if conditions.len() == 0 {
        statement
    } else {
        with_condition(
            with_conditions(statement, conditions.drop_last()),
            conditions.last(),
            conditions.len() == 1,
        )
    }
}

/// The statement with the column names behind it, each in back quotes,
/// separated by a comma and a space.
pub open spec fn with_columns(statement: Statement, columns: Seq<Seq<char>>) -> Statement
    decreases columns.len(),
{
    if columns.len() == 0 {
        statement
    } else {
        let before = with_columns(statement, columns.drop_last());
        let separated = if columns.len() > 1 {
            before.push(", "@)
        } else {
            before
        };
        separated.push("`"@).push(columns.last()).push("`"@)
    }
}

/// The statement with its projection: the columns, or `*` where none is named.
pub open spec fn with_projection(statement: Statement, columns: Option<Seq<Seq<char>>>) -> Statement {
    match columns {
        Some(list) => if list.len() > 0 {
            with_columns(statement, list)
        } else {
            statement.push("*"@)
        },
        None => statement.push("*"@),
    }
}

/// The statement with its `WHERE` clause, where there is a predicate.
pub open spec fn with_where(statement: Statement, conditions: Seq<Condition>) -> Statement {
    if conditions.len() > 0 {
        with_conditions(statement.push(" WHERE "@), conditions)
    } else {
        statement
    }
}

/// The statement with `ORDER BY`, `LIMIT` and `OFFSET`, in that order, each
/// where the options ask for it; limit and offset are bound.
pub open spec fn with_window(statement: Statement, options: Options) -> Statement {
    let ordered = match options.order_by {
        Some(order) => statement.push(" ORDER BY "@).push(order),
        None => statement,
    };
    let limited = match options.limit {
        Some(limit) => ordered.push(" LIMIT "@).push_bind(SqlValue::Integer(limit)),
        None => ordered,
    };
    match options.offset {
        Some(offset) => limited.push(" OFFSET "@).push_bind(SqlValue::Integer(offset)),
        None => limited,
    }
}

/// The `SELECT` that the options describe on `table`.
pub open spec fn select_statement(table: Seq<char>, options: Options) -> Statement {
    with_window(
        with_where(
            with_projection(Statement::start("SELECT "@), options.columns).push(" FROM `"@).push(
                table,
            ).push("`"@),
            options.where_conditions,
        ),
        options,
    )
}

/// Compiles `QueryOptions` into one parameterized `SELECT`.
pub struct QueryBuilderHelper;

impl QueryBuilderHelper {
    /// The `SELECT` statement for `table_name` under `options`.
    pub fn select(table_name: &str, options: &QueryOptions) -> (statement: SqlStatement)
        ensures
            statement@ == select_statement(table_name@, options@),
            statement@.binds_no_null(),
    {
        let mut statement = SqlStatement::new("SELECT ");
        let mut starred = true;
        match &options.columns {
            Some(columns) => {
                if columns.len() > 0 {
                    starred = false;
                    let mut i: usize = 0;
                    assert(views(columns@).take(0) =~= Seq::<Seq<char>>::empty());
                    while i < columns.len()
                        invariant
                            i <= columns.len(),
                            statement@ == with_columns(
                                Statement::start("SELECT "@),
                                views(columns@).take(i as int),
                            ),
                        decreases columns.len() - i,
                    {
                        assert(views(columns@).take(i + 1).drop_last() =~= views(columns@).take(
                            i as int,
                        ));
                        if i > 0 {
                            statement.push(", ");
                        }
                        statement.push("`");
                        statement.push(columns[i].as_str());
                        statement.push("`");
                        i += 1;
                    }
                    assert(views(columns@).take(columns.len() as int) =~= views(columns@));
                }
            },
            None => {},
        }
        if starred {
            statement.push("*");
        }
        statement.push(" FROM `");
        statement.push(table_name);
        statement.push("`");
        if options.where_conditions.len() > 0 {
            statement.push(" WHERE ");
            Self::add_where_conditions(&mut statement, &options.where_conditions);
        }
        match &options.order_by {
            Some(order) => {
                statement.push(" ORDER BY ");
                statement.push(order.as_str());
            },
            None => {},
        }
        match options.limit {
            Some(limit) => {
                statement.push(" LIMIT ");
                statement.push_bind(QueryValue::Integer(limit));
            },
            None => {},
        }
        match options.offset {
            Some(offset) => {
                statement.push(" OFFSET ");
                statement.push_bind(QueryValue::Integer(offset));
            },
            None => {},
        }
        proof {
            lemma_select_binds_no_null(table_name@, options@);
        }
        statement
    }

    /// Appends the predicates to `statement`, in list order, each after the
    /// first behind its connector.
    pub fn add_where_conditions(statement: &mut SqlStatement, where_conditions: &Vec<WhereCondition>)
        ensures
            final(statement)@ == with_conditions(old(statement)@, views(where_conditions@)),
    {
        let ghost start = statement@;
        let ghost conditions = views(where_conditions@);
        let mut i: usize = 0;
        assert(conditions.take(0) =~= Seq::<Condition>::empty());
        while i < where_conditions.len()
            invariant
                i <= where_conditions.len(),
                conditions == views(where_conditions@),
                statement@ == with_conditions(start, conditions.take(i as int)),
            decreases where_conditions.len() - i,
        {
            let condition = &where_conditions[i];
            assert(conditions.take(i + 1).drop_last() =~= conditions.take(i as int));
            assert(conditions.take(i + 1).last() == condition@);
            if i > 0 {
                statement.push(" ");
                match &condition.logical_operator {
                    Some(word) => statement.push(word.as_str()),
                    None => statement.push("AND"),
                }
                statement.push(" ");
            }
            Self::add_predicate(statement, condition);
            i += 1;
        }
        assert(conditions.take(where_conditions.len() as int) =~= conditions);
    }

    /// Appends one predicate, without its connector.
    fn add_predicate(statement: &mut SqlStatement, condition: &WhereCondition)
        ensures
            final(statement)@ == with_predicate(old(statement)@, condition@),
    {
        if same_text(condition.column.as_str(), "RAW_SQL") && same_text(
            condition.operator.as_str(),
            "RAW",
        ) {
            match &condition.value {
                QueryValue::String(fragment) => statement.push(fragment.as_str()),
                _ => {},
            }
            return ;
        }
        statement.push("`");
        statement.push(condition.column.as_str());
        statement.push("` ");
        match &condition.value {
            QueryValue::Null => {
                if same_text(condition.operator.as_str(), "!=") {
                    statement.push("IS NOT NULL");
                } else {
                    statement.push("IS NULL");
                }
            },
            QueryValue::String(text) => {
                statement.push(condition.operator.as_str());
                statement.push(" ");
                if same_text(condition.operator.as_str(), "IN") {
                    statement.push(text.as_str());
                } else {
                    statement.push_bind(condition.value.clone());
                }
            },
            _ => {
                statement.push(condition.operator.as_str());
                statement.push(" ");
                statement.push_bind(condition.value.clone());
            },
        }
    }
}

/// A predicate never binds `NULL`: where the statement bound none before, it
/// binds none after.
pub proof fn lemma_condition_binds_no_null(statement: Statement, condition: Condition, first: bool)
    requires
        statement.binds_no_null(),
    ensures
        with_condition(statement, condition, first).binds_no_null(),
{
}

/// A list of predicates never binds `NULL`.
pub proof fn lemma_conditions_bind_no_null(statement: Statement, conditions: Seq<Condition>)
    requires
        statement.binds_no_null(),
    ensures
        with_conditions(statement, conditions).binds_no_null(),
    decreases conditions.len(),
{
    if conditions.len() > 0 {
        lemma_conditions_bind_no_null(statement, conditions.drop_last());
        lemma_condition_binds_no_null(
            with_conditions(statement, conditions.drop_last()),
            conditions.last(),
            conditions.len() == 1,
        );
    }
}

/// Column names bind nothing.
pub proof fn lemma_columns_bind_nothing(statement: Statement, columns: Seq<Seq<char>>)
    ensures
        with_columns(statement, columns).binds == statement.binds,
    decreases columns.len(),
{
    if columns.len() > 0 {
        lemma_columns_bind_nothing(statement, columns.drop_last());
    }
}

/// Whatever the options hold, the compiled `SELECT` binds no `NULL`: a
/// predicate on `NULL` is rendered as `IS NULL` or `IS NOT NULL`.
pub proof fn lemma_select_binds_no_null(table: Seq<char>, options: Options)
    ensures
        select_statement(table, options).binds_no_null(),
{
    let projected = with_projection(Statement::start("SELECT "@), options.columns);
    match options.columns {
        Some(list) => {
            lemma_columns_bind_nothing(Statement::start("SELECT "@), list);
        },
        None => {},
    }
    let from = projected.push(" FROM `"@).push(table).push("`"@);
    assert(from.binds_no_null());
    if options.where_conditions.len() > 0 {
        lemma_conditions_bind_no_null(from.push(" WHERE "@), options.where_conditions);
    }
}

/// Whether a predicate shows in the text of a statement: a raw predicate
/// does so where it carries a fragment that is not empty, any other always.
pub open spec fn renders(condition: Condition) -> bool {
    is_raw(condition) ==> (condition.value matches SqlValue::Text(fragment) && fragment.len() > 0)
}

/// Whether `text` starts with `start`.
pub open spec fn starts_with(text: Seq<char>, start: Seq<char>) -> bool {
    start.len() <= text.len() && text.take(start.len() as int) == start
}

/// A predicate only adds to a statement: what was written stays, and a
/// predicate that renders adds at least one character.
pub proof fn lemma_condition_adds(statement: Statement, condition: Condition, first: bool)
    ensures
        starts_with(with_condition(statement, condition, first).sql, statement.sql),
        renders(condition) ==> with_condition(statement, condition, first).sql.len()
            > statement.sql.len(),
{
    reveal_strlit("`");
    let after = with_condition(statement, condition, first);
    let led = if first {
        statement
    } else {
        statement.push(" "@).push(connector(condition)).push(" "@)
    };
    assert(led.sql.take(statement.sql.len() as int) =~= statement.sql);
    assert(after == with_predicate(led, condition));
    assert(after.sql.len() >= led.sql.len() && after.sql.take(led.sql.len() as int) =~= led.sql);
    assert(after.sql.take(statement.sql.len() as int) =~= led.sql.take(statement.sql.len() as int));
}

/// No predicate of a list is dropped from the text: what was written before
/// the list stays, and the text grows by at least one character for each
/// predicate, where all of them render.
pub proof fn lemma_conditions_add(statement: Statement, conditions: Seq<Condition>)
    ensures
        starts_with(with_conditions(statement, conditions).sql, statement.sql),
        (forall|i: int| 0 <= i < conditions.len() ==> renders(#[trigger] conditions[i]))
            ==> with_conditions(statement, conditions).sql.len() >= statement.sql.len()
            + conditions.len(),
    decreases conditions.len(),
{
    if conditions.len() == 0 {
        assert(statement.sql.take(statement.sql.len() as int) =~= statement.sql);
    } else {
        let before = with_conditions(statement, conditions.drop_last());
        lemma_conditions_add(statement, conditions.drop_last());
        lemma_condition_adds(before, conditions.last(), conditions.len() == 1);
        let after = with_conditions(statement, conditions);
        assert(after.sql.take(statement.sql.len() as int) =~= before.sql.take(
            statement.sql.len() as int,
        )) by {
            assert(after.sql.take(before.sql.len() as int) == before.sql);
            assert(after.sql.take(before.sql.len() as int).take(statement.sql.len() as int)
                =~= after.sql.take(statement.sql.len() as int));
        }
        if forall|i: int| 0 <= i < conditions.len() ==> renders(#[trigger] conditions[i]) {
            assert(renders(conditions[conditions.len() - 1]));
            assert forall|i: int| 0 <= i < conditions.drop_last().len() implies renders(
                #[trigger] conditions.drop_last()[i],
            ) by {
                assert(conditions.drop_last()[i] == conditions[i]);
            }
        }
    }
}

} // verus!

//! Mutation primitives that serve any table: an insert, an update by primary
//! key that refuses protected columns, and the find-or-insert that resolves
//! the identifier of a row with a unique key.

use crate::database::query_builder::{SqlStatement, Statement};
use crate::json::JsonValue;
use crate::models::query::{views, QueryValue, SqlValue};
use crate::text::{joined, parse_i64, parsed_i64, same_text};
use crate::errors::{validation_error, Failure};
use vstd::prelude::*;

verus! {

/// The names, separated by a comma and a space.
pub open spec fn comma_list(names: Seq<Seq<char>>) -> Seq<char>
    decreases names.len(),
{
    if names.len() == 0 {
        Seq::empty()
    } else {
        let before = comma_list(names.drop_last());
        let separated = if names.len() > 1 {
            before + ", "@
        } else {
            before
        };
        separated + names.last()
    }
}

/// `count` placeholders, separated by a comma and a space.
pub open spec fn placeholders(count: nat) -> Seq<char>
    decreases count,
{
    if count == 0 {
        Seq::empty()
    } else {
        let before = placeholders((count - 1) as nat);
        let separated = if count > 1 {
            before + ", "@
        } else {
            before
        };
        separated + "?"@
    }
}

/// The text of an `INSERT` into `table` that names `columns` and has one
/// placeholder for each.
pub open spec fn insert_sql(table: Seq<char>, columns: Seq<Seq<char>>) -> Seq<char> {
    "INSERT INTO "@ + table + " ("@ + comma_list(columns) + ") VALUES ("@ + placeholders(
        columns.len(),
    ) + ")"@
}

/// The value that a JSON value binds, where it can be bound: `null`, a text,
/// a number or a truth value. A number is an integer where it reads as an
/// `i64`.
pub open spec fn bound_value(json: JsonValue) -> Option<SqlValue> {
    match json {
        JsonValue::Null => Some(SqlValue::Null),
        JsonValue::Text(text) => Some(SqlValue::Text(text@)),
        JsonValue::Number(number) => match parsed_i64(number@) {
            Some(i) => Some(SqlValue::Integer(i as int)),
            None => Some(SqlValue::Float(number@)),
        },
        JsonValue::Bool(b) => Some(SqlValue::Boolean(b)),
        _ => None,
    }
}

/// The message for a field that may not be updated.
pub open spec fn protected_fault(field: Seq<char>) -> Seq<char> {
    "Field '"@ + field + "' is not allowed to be updated"@
}

/// The message for a field whose value cannot be bound.
pub open spec fn value_fault(field: Seq<char>) -> Seq<char> {
    "Unsupported value type for field '"@ + field + "'"@
}

/// What is wrong with one field of an update, if anything: it is protected,
/// or its value is an array or an object.
pub open spec fn field_fault(field: (String, JsonValue), protected: Seq<Seq<char>>) -> Option<
    Seq<char>,
> {
    if protected.contains(field.0@) {
        Some(protected_fault(field.0@))
    } else if bound_value(field.1) is None {
        Some(value_fault(field.0@))
    } else {
        None
    }
}

/// The name of the first field, in the order of the list, that is protected.
pub open spec fn first_protected(fields: Seq<(String, JsonValue)>, protected: Seq<Seq<char>>) -> Option<
    Seq<char>,
>
    decreases fields.len(),
{
    if fields.len() == 0 {
        None
    } else {
        match first_protected(fields.drop_last(), protected) {
            Some(name) => Some(name),
            None => if protected.contains(fields.last().0@) {
                Some(fields.last().0@)
            } else {
                None
            },
        }
    }
}

/// The name of the first field, in the order of the list, whose value
/// cannot be bound.
pub open spec fn first_unbound(fields: Seq<(String, JsonValue)>) -> Option<Seq<char>>
    decreases fields.len(),
{
    if fields.len() == 0 {
        None
    } else {
        match first_unbound(fields.drop_last()) {
            Some(name) => Some(name),
            None => if bound_value(fields.last().1) is None {
                Some(fields.last().0@)
            } else {
                None
            },
        }
    }
}

/// The fault of a list of fields, if it has one. The names are checked
/// before the values: where a field is protected, the fault is that of the
/// first protected field, whatever the values are; else it is that of the
/// first field whose value cannot be bound.
pub open spec fn first_field_fault(fields: Seq<(String, JsonValue)>, protected: Seq<Seq<char>>) -> Option<
    Seq<char>,
> {
    match first_protected(fields, protected) {
        Some(name) => Some(protected_fault(name)),
        None => match first_unbound(fields) {
            Some(name) => Some(value_fault(name)),
            None => None,
        },
    }
}

/// The message for a field that is no column of `model`.
pub open spec fn unknown_fault(field: Seq<char>, model: Seq<char>) -> Seq<char> {
    "Field '"@ + field + "' does not exist in "@ + model + " model"@
}

/// What is wrong with the name of a field of an update of `model`, if
/// anything: it is none of its columns, or it is a protected one.
pub open spec fn name_fault(
    name: Seq<char>,
    columns: Seq<Seq<char>>,
    protected: Seq<Seq<char>>,
    model: Seq<char>,
) -> Option<Seq<char>> {
    if !columns.contains(name) {
        Some(unknown_fault(name, model))
    } else if protected.contains(name) {
        Some(protected_fault(name))
    } else {
        None
    }
}

/// The fault of the first field, in the order of the list, whose name has
/// one.
pub open spec fn first_name_fault(
    fields: Seq<(String, JsonValue)>,
    columns: Seq<Seq<char>>,
    protected: Seq<Seq<char>>,
    model: Seq<char>,
) -> Option<Seq<char>>
    decreases fields.len(),
{
    if fields.len() == 0 {
        None
    } else {
        match first_name_fault(fields.drop_last(), columns, protected, model) {
            Some(message) => Some(message),
            None => name_fault(fields.last().0@, columns, protected, model),
        }
    }
}

/// The fault of an update of `model`, if it has one. The names are checked
/// before the values: where a field is no column of the model or is
/// protected, the fault is that of the first such field; else it is that of
/// the first field whose value cannot be bound.
pub open spec fn first_model_fault(
    fields: Seq<(String, JsonValue)>,
    columns: Seq<Seq<char>>,
    protected: Seq<Seq<char>>,
    model: Seq<char>,
) -> Option<Seq<char>> {
    match first_name_fault(fields, columns, protected, model) {
        Some(message) => Some(message),
        None => match first_unbound(fields) {
            Some(name) => Some(value_fault(name)),
            None => None,
        },
    }
}

/// The statement with an assignment for each field behind it: the name, ` = `
/// and a bound placeholder, separated by a comma and a space.
pub open spec fn with_assignments(statement: Statement, fields: Seq<(String, JsonValue)>) -> Statement
    decreases fields.len(),
{
    if fields.len() == 0 {
        statement
    } else {
        let before = with_assignments(statement, fields.drop_last());
        let separated = if fields.len() > 1 {
            before.push(", "@)
        } else {
            before
        };
        separated.push(fields.last().0@).push(" = "@).push_bind(bound_value(fields.last().1)->0)
    }
}

/// The `UPDATE` of the row of `table` whose `key_column` is `id`: the fields
/// are assigned, and `updated_at` is set to the time of the update.
pub open spec fn update_statement(
    table: Seq<char>,
    key_column: Seq<char>,
    id: int,
    fields: Seq<(String, JsonValue)>,
) -> Statement {
    with_assignments(Statement::start("UPDATE "@).push(table).push(" SET "@), fields).push(
        ", updated_at = NOW() WHERE "@,
    ).push(key_column).push(" = "@).push_bind(SqlValue::Integer(id))
}

/// The statement with the names of the fields behind it, separated by a
/// comma and a space.
pub open spec fn with_names(statement: Statement, fields: Seq<(String, JsonValue)>) -> Statement
    decreases fields.len(),
{
    if fields.len() == 0 {
        statement
    } else {
        let before = with_names(statement, fields.drop_last());
        let separated = if fields.len() > 1 {
            before.push(", "@)
        } else {
            before
        };
        separated.push(fields.last().0@)
    }
}

/// The statement with a bound placeholder for each field behind it,
/// separated by a comma and a space.
pub open spec fn with_values(statement: Statement, fields: Seq<(String, JsonValue)>) -> Statement
    decreases fields.len(),
{
    if fields.len() == 0 {
        statement
    } else {
        let before = with_values(statement, fields.drop_last());
        let separated = if fields.len() > 1 {
            before.push(", "@)
        } else {
            before
        };
        separated.push_bind(bound_value(fields.last().1)->0)
    }
}

/// The `INSERT` of a row of `table` with the given fields.
pub open spec fn insert_statement(table: Seq<char>, fields: Seq<(String, JsonValue)>) -> Statement {
    with_values(
        with_names(Statement::start("INSERT INTO "@).push(table).push(" ("@), fields).push(
            ") VALUES ("@,
        ),
        fields,
    ).push(")"@)
}

/// The query that looks up the identifier of the row of `table` whose
/// `key_column` is `key_value`.
pub open spec fn lookup_statement(
    table: Seq<char>,
    id_column: Seq<char>,
    key_column: Seq<char>,
    key_value: Seq<char>,
) -> Statement {
    Statement::start("SELECT "@).push(id_column).push(" FROM "@).push(table).push(" WHERE "@).push(
        key_column,
    ).push(" = "@).push_bind(SqlValue::Text(key_value)).push(" LIMIT 1"@)
}

/// The query for the row of `table` whose `key_column` is `id`.
pub open spec fn row_by_id(table: Seq<char>, key_column: Seq<char>, id: int) -> Statement {
    Statement::start("SELECT * FROM "@).push(table).push(" WHERE "@).push(key_column).push(
        " = "@,
    ).push_bind(SqlValue::Integer(id))
}

/// The query for every row of `table`.
pub open spec fn all_rows(table: Seq<char>) -> Statement {
    Statement::start("SELECT * FROM "@).push(table)
}

/// The query for the number of rows of `table`.
pub open spec fn row_count(table: Seq<char>) -> Statement {
    Statement::start("SELECT COUNT(*) FROM "@).push(table)
}

/// The query for the number of rows of `table` under each value of `field`
/// that is not `NULL`.
pub open spec fn count_by_field(table: Seq<char>, field: Seq<char>) -> Statement {
    Statement::start("SELECT "@).push(field).push(", COUNT(*) as count FROM "@).push(table).push(
        " WHERE "@,
    ).push(field).push(" IS NOT NULL GROUP BY "@).push(field)
}

/// The statement that deletes the row of `table` whose `key_column` is `id`.
pub open spec fn delete_row(table: Seq<char>, key_column: Seq<char>, id: int) -> Statement {
    Statement::start("DELETE FROM "@).push(table).push(" WHERE "@).push(key_column).push(
        " = "@,
    ).push_bind(SqlValue::Integer(id))
}

/// The query that tells whether `table` has a row whose `key_column` is `id`.
pub open spec fn row_exists(table: Seq<char>, key_column: Seq<char>, id: int) -> Statement {
    Statement::start("SELECT 1 FROM "@).push(table).push(" WHERE "@).push(key_column).push(
        " = "@,
    ).push_bind(SqlValue::Integer(id)).push(" LIMIT 1"@)
}

/// What brings a row with a unique key into being or up to date.
#[derive(Debug, PartialEq, Eq)]
pub enum UpsertAction {
    /// The row exists under `id`; `change` updates it, where there is
    /// anything to update.
    Update { id: i32, change: Option<SqlStatement> },
    /// The row does not exist; `statement` inserts it, and the identifier is
    /// the one that the database gives it.
    Insert { statement: SqlStatement },
}

/// What an optional statement stands for.
pub open spec fn optional_statement(statement: Option<SqlStatement>) -> Option<Statement> {
    match statement {
        Some(s) => Some(s@),
        None => None,
    }
}

/// Mutations that serve any table.
pub struct DatabaseHelper;

impl DatabaseHelper {
    /// The query for one row by its identifier.
    pub fn get_by_id(table_name: &str, key_column: &str, id: i64) -> (statement: SqlStatement)
        ensures
            statement@ == row_by_id(table_name@, key_column@, id as int),
    {
        let mut statement = SqlStatement::new("SELECT * FROM ");
        statement.push(table_name);
        statement.push(" WHERE ");
        statement.push(key_column);
        statement.push(" = ");
        statement.push_bind(QueryValue::Integer(id));
        statement
    }

    /// The query for every row of a table.
    pub fn find_all(table_name: &str) -> (statement: SqlStatement)
        ensures
            statement@ == all_rows(table_name@),
    {
        let mut statement = SqlStatement::new("SELECT * FROM ");
        statement.push(table_name);
        statement
    }

    /// The query for the number of rows of a table.
    pub fn get_total_count(table_name: &str) -> (statement: SqlStatement)
        ensures
            statement@ == row_count(table_name@),
    {
        let mut statement = SqlStatement::new("SELECT COUNT(*) FROM ");
        statement.push(table_name);
        statement
    }

    /// The query for the number of rows under each value of a field.
    pub fn get_count_by_field(table_name: &str, field: &str) -> (statement: SqlStatement)
        ensures
            statement@ == count_by_field(table_name@, field@),
    {
        let mut statement = SqlStatement::new("SELECT ");
        statement.push(field);
        statement.push(", COUNT(*) as count FROM ");
        statement.push(table_name);
        statement.push(" WHERE ");
        statement.push(field);
        statement.push(" IS NOT NULL GROUP BY ");
        statement.push(field);
        statement
    }

    /// The statement that deletes one row by its identifier.
    pub fn delete_by_id(table_name: &str, key_column: &str, id: i64) -> (statement: SqlStatement)
        ensures
            statement@ == delete_row(table_name@, key_column@, id as int),
    {
        let mut statement = SqlStatement::new("DELETE FROM ");
        statement.push(table_name);
        statement.push(" WHERE ");
        statement.push(key_column);
        statement.push(" = ");
        statement.push_bind(QueryValue::Integer(id));
        statement
    }

    /// The query that tells whether a row with an identifier exists.
    pub fn exists_by_id(table_name: &str, key_column: &str, id: i64) -> (statement: SqlStatement)
        ensures
            statement@ == row_exists(table_name@, key_column@, id as int),
    {
        let mut statement = SqlStatement::new("SELECT 1 FROM ");
        statement.push(table_name);
        statement.push(" WHERE ");
        statement.push(key_column);
        statement.push(" = ");
        statement.push_bind(QueryValue::Integer(id));
        statement.push(" LIMIT 1");
        statement
    }

    /// The text of an `INSERT` into `table_name` with a placeholder for each
    /// of `columns`.
    pub fn build_insert_sql(table_name: &str, columns: &[&str]) -> (sql: String)
        ensures
            sql@ == insert_sql(table_name@, views(columns@)),
    {
        let ghost names = views(columns@);
        let mut list = String::new();
        let mut marks = String::new();
        let mut i: usize = 0;
        assert(names.take(0) =~= Seq::<Seq<char>>::empty());
        while i < columns.len()
            invariant
                i <= columns.len(),
                names == views(columns@),
                list@ == comma_list(names.take(i as int)),
                marks@ == placeholders(i as nat),
            decreases columns.len() - i,
        {
            assert(names.take(i + 1).drop_last() =~= names.take(i as int));
            if i > 0 {
                list.append(", ");
                marks.append(", ");
            }
            list.append(columns[i]);
            marks.append("?");
            i += 1;
        }
        assert(names.take(columns.len() as int) =~= names);
        let mut sql = joined("INSERT INTO ", table_name);
        sql.append(" (");
        sql.append(list.as_str());
        sql.append(") VALUES (");
        sql.append(marks.as_str());
        sql.append(")");
        sql
    }

    /// The value that a JSON value binds.
    pub fn bind_of(json: &JsonValue) -> (value: Option<QueryValue>)
        ensures
            match bound_value(*json) {
                Some(v) => value is Some && value->0@ == v,
                None => value is None,
            },
    {
        match json {
            JsonValue::Null => Some(QueryValue::Null),
            JsonValue::Text(text) => Some(QueryValue::String(text.clone())),
            JsonValue::Number(number) => {
                match parse_i64(number.as_str()) {
                    Some(i) => Some(QueryValue::Integer(i)),
                    None => Some(QueryValue::Float(number.clone())),
                }
            },
            JsonValue::Bool(b) => Some(QueryValue::Boolean(*b)),
            _ => None,
        }
    }

    /// Whether `names` holds `name`.
    pub fn is_protected(names: &[&str], name: &str) -> (found: bool)
        ensures
            found == views(names@).contains(name@),
    {
        let mut i: usize = 0;
        while i < names.len()
            invariant
                i <= names.len(),
                forall|j: int| 0 <= j < i ==> views(names@)[j] != name@,
            decreases names.len() - i,
        {
            if same_text(names[i], name) {
                assert(views(names@)[i as int] == name@);
                return true;
            }
            i += 1;
        }
        false
    }

    /// Checks the fields of an update: the names first, then the values. The
    /// first protected field is reported where there is one, else the first
    /// value that cannot be bound.
    pub fn check_fields(fields: &Vec<(String, JsonValue)>, blacklisted_fields: &[&str]) -> (checked:
        Result<(), Failure>)
        ensures
            match first_field_fault(fields@, views(blacklisted_fields@)) {
                Some(message) => checked is Err && checked->Err_0@ == validation_error(message),
                None => checked is Ok,
            },
    {
        let ghost protected = views(blacklisted_fields@);
        let mut i: usize = 0;
        assert(fields@.take(0) =~= Seq::<(String, JsonValue)>::empty());
        while i < fields.len()
            invariant
                i <= fields.len(),
                protected == views(blacklisted_fields@),
                first_protected(fields@.take(i as int), protected) is None,
            decreases fields.len() - i,
        {
            assert(fields@.take(i + 1).drop_last() =~= fields@.take(i as int));
            let name = fields[i].0.as_str();
            if Self::is_protected(blacklisted_fields, name) {
                let mut message = joined("Field '", name);
                message.append("' is not allowed to be updated");
                proof {
                    lemma_protected_stays(fields@, protected, i + 1);
                }
                return Err(Failure::validation(message));
            }
            i += 1;
        }
        assert(fields@.take(fields.len() as int) =~= fields@);
        let mut k: usize = 0;
        while k < fields.len()
            invariant
                k <= fields.len(),
                protected == views(blacklisted_fields@),
                first_protected(fields@, protected) is None,
                first_unbound(fields@.take(k as int)) is None,
            decreases fields.len() - k,
        {
            assert(fields@.take(k + 1).drop_last() =~= fields@.take(k as int));
            if Self::bind_of(&fields[k].1).is_none() {
                let mut message = joined("Unsupported value type for field '", fields[k].0.as_str());
                message.append("'");
                proof {
                    lemma_unbound_stays(fields@, k + 1);
                }
                return Err(Failure::validation(message));
            }
            k += 1;
        }
        assert(fields@.take(fields.len() as int) =~= fields@);
        Ok(())
    }

    /// The `UPDATE` of the row of `table_name` whose `key_column` is `id`.
    ///
    /// Nothing is to be done where `updates` is empty. A field among
    /// `blacklisted_fields` is refused, and so is a value that is an array or
    /// an object: the update fails with a validation error. The names are
    /// checked before the values, so the message names the first protected
    /// field where there is one, and else the first field whose value cannot
    /// be bound. The values are bound, not written into the text. A field
    /// that stands twice in the list is assigned twice, in that order, and
    /// the database keeps the later value.
    pub fn update(
        table_name: &str,
        key_column: &str,
        id: i32,
        updates: &Vec<(String, JsonValue)>,
        blacklisted_fields: &[&str],
    ) -> (result: Result<Option<SqlStatement>, Failure>)
        ensures
            updates.len() == 0 ==> result is Ok && result->Ok_0 is None,
            updates.len() > 0 ==> match first_field_fault(updates@, views(blacklisted_fields@)) {
                Some(message) => result is Err && result->Err_0@ == validation_error(message),
                None => result is Ok && optional_statement(result->Ok_0) == Some(
                    update_statement(table_name@, key_column@, id as int, updates@),
                ),
            },
    {
        if updates.len() == 0 {
            return Ok(None);
        }
        match Self::check_fields(updates, blacklisted_fields) {
            Err(message) => { return Err(message); },
            Ok(()) => {},
        }
        let mut statement = SqlStatement::new("UPDATE ");
        statement.push(table_name);
        statement.push(" SET ");
        let ghost start = statement@;
        let ghost protected = views(blacklisted_fields@);
        let mut i: usize = 0;
        assert(updates@.take(0) =~= Seq::<(String, JsonValue)>::empty());
        while i < updates.len()
            invariant
                i <= updates.len(),
                first_field_fault(updates@, protected) is None,
                statement@ == with_assignments(start, updates@.take(i as int)),
            decreases updates.len() - i,
        {
            assert(updates@.take(i + 1).drop_last() =~= updates@.take(i as int));
            proof {
                lemma_no_fault_everywhere(updates@, protected, i as int);
            }
            if i > 0 {
                statement.push(", ");
            }
            statement.push(updates[i].0.as_str());
            statement.push(" = ");
            match Self::bind_of(&updates[i].1) {
                Some(value) => statement.push_bind(value),
                None => {},
            }
            i += 1;
        }
        assert(updates@.take(updates.len() as int) =~= updates@);
        statement.push(", updated_at = NOW() WHERE ");
        statement.push(key_column);
        statement.push(" = ");
        statement.push_bind(QueryValue::Integer(id as i64));
        Ok(Some(statement))
    }

    /// The `UPDATE` of the row of `table_name` whose `key_column` is `id`,
    /// for a table whose columns are known.
    ///
    /// Nothing is to be done where `updates` is empty. A field that is none
    /// of `columns` is refused, and so is one among `blacklisted_fields`, and
    /// a value that is an array or an object: a validation error, before any
    /// statement is written. The names are checked before the values, so the
    /// message names the first field that is no column or is protected where
    /// there is one, and else the first field whose value cannot be bound.
    pub fn update_model(
        table_name: &str,
        key_column: &str,
        id: i32,
        updates: &Vec<(String, JsonValue)>,
        model: &str,
        columns: &[&str],
        blacklisted_fields: &[&str],
    ) -> (result: Result<Option<SqlStatement>, Failure>)
        ensures
            updates.len() == 0 ==> result is Ok && result->Ok_0 is None,
            updates.len() > 0 ==> match first_model_fault(
                updates@,
                views(columns@),
                views(blacklisted_fields@),
                model@,
            ) {
                Some(message) => result is Err && result->Err_0@ == validation_error(message),
                None => result is Ok && optional_statement(result->Ok_0) == Some(
                    update_statement(table_name@, key_column@, id as int, updates@),
                ),
            },
    {
        if updates.len() == 0 {
            return Ok(None);
        }
        let ghost known = views(columns@);
        let ghost protected = views(blacklisted_fields@);
        let mut i: usize = 0;
        assert(updates@.take(0) =~= Seq::<(String, JsonValue)>::empty());
        while i < updates.len()
            invariant
                i <= updates.len(),
                known == views(columns@),
                protected == views(blacklisted_fields@),
                first_name_fault(updates@.take(i as int), known, protected, model@) is None,
            decreases updates.len() - i,
        {
            assert(updates@.take(i + 1).drop_last() =~= updates@.take(i as int));
            let name = updates[i].0.as_str();
            let fault: Option<String> = if !Self::is_protected(columns, name) {
                let mut message = joined("Field '", name);
                message.append("' does not exist in ");
                message.append(model);
                message.append(" model");
                Some(message)
            } else if Self::is_protected(blacklisted_fields, name) {
                let mut message = joined("Field '", name);
                message.append("' is not allowed to be updated");
                Some(message)
            } else {
                None
            };
            match fault {
                Some(message) => {
                    proof {
                        lemma_name_fault_stays(updates@, known, protected, model@, i + 1);
                    }
                    return Err(Failure::validation(message));
                },
                None => {},
            }
            i += 1;
        }
        assert(updates@.take(updates.len() as int) =~= updates@);
        proof {
            lemma_names_pass(updates@, known, protected, model@);
        }
        Self::update(table_name, key_column, id, updates, blacklisted_fields)
    }

    /// The query that finds the row of an upsert: the identifier of the row
    /// of `table_name` whose `key_column` is `key_value`.
    pub fn upsert_lookup(table_name: &str, id_column: &str, key_column: &str, key_value: &str) -> (statement:
        SqlStatement)
        ensures
            statement@ == lookup_statement(table_name@, id_column@, key_column@, key_value@),
    {
        let mut statement = SqlStatement::new("SELECT ");
        statement.push(id_column);
        statement.push(" FROM ");
        statement.push(table_name);
        statement.push(" WHERE ");
        statement.push(key_column);
        statement.push(" = ");
        statement.push_bind(QueryValue::String(key_value.to_owned()));
        statement.push(" LIMIT 1");
        statement
    }

    /// What an upsert does once the lookup has answered with `existing`.
    ///
    /// Where the row exists it is updated with `update_data`, under the rules
    /// of `update`. Where it does not, it is inserted with `insert_data`; a
    /// value that is an array or an object is refused with a validation
    /// error. A column that stands twice in `insert_data` is named twice in
    /// the insert, which the database refuses.
    pub fn upsert(
        table_name: &str,
        id_column: &str,
        existing: Option<i32>,
        insert_data: &Vec<(String, JsonValue)>,
        update_data: &Vec<(String, JsonValue)>,
        blacklisted_fields: &[&str],
    ) -> (result: Result<UpsertAction, Failure>)
        ensures
            match existing {
                Some(id) => if update_data.len() == 0 {
                    result == Ok::<UpsertAction, Failure>(UpsertAction::Update { id, change: None })
                } else {
                    match first_field_fault(update_data@, views(blacklisted_fields@)) {
                        Some(message) => result is Err && result->Err_0@ == validation_error(message),
                        None => result matches Ok(UpsertAction::Update { id: found, change })
                            && found == id && optional_statement(change) == Some(
                            update_statement(table_name@, id_column@, id as int, update_data@),
                        ),
                    }
                },
                None => match first_field_fault(insert_data@, Seq::empty()) {
                    Some(message) => result is Err && result->Err_0@ == validation_error(message),
                    None => result matches Ok(UpsertAction::Insert { statement }) && statement@
                        == insert_statement(table_name@, insert_data@),
                },
            },
    {
        match existing {
            Some(id) => {
                match Self::update(table_name, id_column, id, update_data, blacklisted_fields) {
                    Ok(change) => Ok(UpsertAction::Update { id, change }),
                    Err(message) => Err(message),
                }
            },
            None => {
                let none: [&str; 0] = [];
                assert(views(none@) =~= Seq::<Seq<char>>::empty());
                match Self::check_fields(insert_data, &none) {
                    Err(message) => { return Err(message); },
                    Ok(()) => {},
                }
                let ghost protected = Seq::<Seq<char>>::empty();
                let mut statement = SqlStatement::new("INSERT INTO ");
                statement.push(table_name);
                statement.push(" (");
                let ghost start = statement@;
                let mut i: usize = 0;
                assert(insert_data@.take(0) =~= Seq::<(String, JsonValue)>::empty());
                while i < insert_data.len()
                    invariant
                        i <= insert_data.len(),
                        statement@ == with_names(start, insert_data@.take(i as int)),
                    decreases insert_data.len() - i,
                {
                    assert(insert_data@.take(i + 1).drop_last() =~= insert_data@.take(i as int));
                    if i > 0 {
                        statement.push(", ");
                    }
                    statement.push(insert_data[i].0.as_str());
                    i += 1;
                }
                assert(insert_data@.take(insert_data.len() as int) =~= insert_data@);
                statement.push(") VALUES (");
                let ghost named = statement@;
                let mut k: usize = 0;
                while k < insert_data.len()
                    invariant
                        k <= insert_data.len(),
                        first_field_fault(insert_data@, protected) is None,
                        statement@ == with_values(named, insert_data@.take(k as int)),
                    decreases insert_data.len() - k,
                {
                    assert(insert_data@.take(k + 1).drop_last() =~= insert_data@.take(k as int));
                    proof {
                        lemma_no_fault_everywhere(insert_data@, protected, k as int);
                    }
                    if k > 0 {
                        statement.push(", ");
                    }
                    match Self::bind_of(&insert_data[k].1) {
                        Some(value) => statement.push_bind(value),
                        None => {},
                    }
                    k += 1;
                }
                assert(insert_data@.take(insert_data.len() as int) =~= insert_data@);
                statement.push(")");
                Ok(UpsertAction::Insert { statement })
            },
        }
    }
}

/// A protected field among the first `k` fields is the first protected field
/// of the whole list.
pub proof fn lemma_protected_stays(
    fields: Seq<(String, JsonValue)>,
    protected: Seq<Seq<char>>,
    k: int,
)
    requires
        0 <= k <= fields.len(),
        first_protected(fields.take(k), protected) is Some,
    ensures
        first_protected(fields, protected) == first_protected(fields.take(k), protected),
    decreases fields.len() - k,
{
    if k < fields.len() {
        assert(fields.take(k + 1).drop_last() =~= fields.take(k));
        lemma_protected_stays(fields, protected, k + 1);
    } else {
        assert(fields.take(k) =~= fields);
    }
}

/// A value among the first `k` fields that cannot be bound is the first such
/// value of the whole list.
pub proof fn lemma_unbound_stays(fields: Seq<(String, JsonValue)>, k: int)
    requires
        0 <= k <= fields.len(),
        first_unbound(fields.take(k)) is Some,
    ensures
        first_unbound(fields) == first_unbound(fields.take(k)),
    decreases fields.len() - k,
{
    if k < fields.len() {
        assert(fields.take(k + 1).drop_last() =~= fields.take(k));
        lemma_unbound_stays(fields, k + 1);
    } else {
        assert(fields.take(k) =~= fields);
    }
}

/// Where no field of the list is found protected, none is.
pub proof fn lemma_none_protected(fields: Seq<(String, JsonValue)>, protected: Seq<Seq<char>>, i: int)
    requires
        0 <= i < fields.len(),
        first_protected(fields, protected) is None,
    ensures
        !protected.contains(fields[i].0@),
    decreases fields.len(),
{
    if i < fields.len() - 1 {
        lemma_none_protected(fields.drop_last(), protected, i);
    }
}

/// Where no value of the list is found that cannot be bound, every value can.
pub proof fn lemma_none_unbound(fields: Seq<(String, JsonValue)>, i: int)
    requires
        0 <= i < fields.len(),
        first_unbound(fields) is None,
    ensures
        bound_value(fields[i].1) is Some,
    decreases fields.len(),
{
    if i < fields.len() - 1 {
        lemma_none_unbound(fields.drop_last(), i);
    }
}

/// Where the list has no fault, no field has one.
pub proof fn lemma_no_fault_everywhere(
    fields: Seq<(String, JsonValue)>,
    protected: Seq<Seq<char>>,
    i: int,
)
    requires
        0 <= i < fields.len(),
        first_field_fault(fields, protected) is None,
    ensures
        field_fault(fields[i], protected) is None,
{
    lemma_none_protected(fields, protected, i);
    lemma_none_unbound(fields, i);
}

/// An update that names a protected field is refused, wherever in the list
/// the field stands and whatever the other fields hold: `update` fails with
/// the validation error of a protected field and writes no statement.
pub proof fn lemma_protected_field_is_refused(
    fields: Seq<(String, JsonValue)>,
    protected: Seq<Seq<char>>,
    i: int,
)
    requires
        0 <= i < fields.len(),
        protected.contains(fields[i].0@),
    ensures
        first_protected(fields, protected) is Some,
        protected.contains(first_protected(fields, protected)->0),
        first_field_fault(fields, protected) == Some(
            protected_fault(first_protected(fields, protected)->0),
        ),
{
    if first_protected(fields, protected) is None {
        lemma_none_protected(fields, protected, i);
    }
    lemma_first_protected_is_protected(fields, protected);
}

/// The field that is found protected is among the protected ones.
pub proof fn lemma_first_protected_is_protected(
    fields: Seq<(String, JsonValue)>,
    protected: Seq<Seq<char>>,
)
    requires
        first_protected(fields, protected) is Some,
    ensures
        protected.contains(first_protected(fields, protected)->0),
    decreases fields.len(),
{
    if fields.len() > 0 && first_protected(fields.drop_last(), protected) is Some {
        lemma_first_protected_is_protected(fields.drop_last(), protected);
    }
}

/// A fault of a name among the first `k` fields is the first such fault of
/// the whole list.
pub proof fn lemma_name_fault_stays(
    fields: Seq<(String, JsonValue)>,
    columns: Seq<Seq<char>>,
    protected: Seq<Seq<char>>,
    model: Seq<char>,
    k: int,
)
    requires
        0 <= k <= fields.len(),
        first_name_fault(fields.take(k), columns, protected, model) is Some,
    ensures
        first_name_fault(fields, columns, protected, model) == first_name_fault(
            fields.take(k),
            columns,
            protected,
            model,
        ),
    decreases fields.len() - k,
{
    if k < fields.len() {
        assert(fields.take(k + 1).drop_last() =~= fields.take(k));
        lemma_name_fault_stays(fields, columns, protected, model, k + 1);
    } else {
        assert(fields.take(k) =~= fields);
    }
}

/// Fields whose names pass as columns of a model name no protected column.
pub proof fn lemma_names_pass(
    fields: Seq<(String, JsonValue)>,
    columns: Seq<Seq<char>>,
    protected: Seq<Seq<char>>,
    model: Seq<char>,
)
    requires
        first_name_fault(fields, columns, protected, model) is None,
    ensures
        first_protected(fields, protected) is None,
    decreases fields.len(),
{
    if fields.len() > 0 {
        lemma_names_pass(fields.drop_last(), columns, protected, model);
    }
}

/// An update that names a field which is no column of the model, or a
/// protected column, is refused, wherever in the list the field stands and
/// whatever the values are: `update_model` fails with a validation error
/// about a name and writes no statement.
pub proof fn lemma_model_field_is_refused(
    fields: Seq<(String, JsonValue)>,
    columns: Seq<Seq<char>>,
    protected: Seq<Seq<char>>,
    model: Seq<char>,
    i: int,
)
    requires
        0 <= i < fields.len(),
        !columns.contains(fields[i].0@) || protected.contains(fields[i].0@),
    ensures
        first_name_fault(fields, columns, protected, model) is Some,
        first_model_fault(fields, columns, protected, model) == first_name_fault(
            fields,
            columns,
            protected,
            model,
        ),
    decreases fields.len(),
{
    if i < fields.len() - 1 {
        lemma_model_field_is_refused(fields.drop_last(), columns, protected, model, i);
    }
}

} // verus!

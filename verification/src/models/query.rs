//! The condition model: typed values, predicates over one column, and the
//! options of one `SELECT`.

use vstd::prelude::*;

verus! {

/// A value of a predicate or of a bound parameter.
///
/// A floating-point value is held as the text that writes it; it is a number
/// only to the database.
#[derive(Debug, PartialEq, Eq)]
pub enum QueryValue {
    String(String),
    Integer(i64),
    Float(String),
    Boolean(bool),
    Null,
}

/// What a `QueryValue` stands for.
pub enum SqlValue {
    Text(Seq<char>),
    Integer(int),
    Float(Seq<char>),
    Boolean(bool),
    Null,
}

impl View for QueryValue {
    type V = SqlValue;

    open spec fn view(&self) -> SqlValue {
        match self {
            QueryValue::String(s) => SqlValue::Text(s@),
            QueryValue::Integer(i) => SqlValue::Integer(*i as int),
            QueryValue::Float(f) => SqlValue::Float(f@),
            QueryValue::Boolean(b) => SqlValue::Boolean(*b),
            QueryValue::Null => SqlValue::Null,
        }
    }
}

impl Clone for QueryValue {
    fn clone(&self) -> (copy: Self)
        ensures
            copy@ == self@,
    {
        match self {
            QueryValue::String(s) => QueryValue::String(s.clone()),
            QueryValue::Integer(i) => QueryValue::Integer(*i),
            QueryValue::Float(f) => QueryValue::Float(f.clone()),
            QueryValue::Boolean(b) => QueryValue::Boolean(*b),
            QueryValue::Null => QueryValue::Null,
        }
    }
}

impl QueryValue {
    /// Whether two values stand for the same thing.
    pub fn same(&self, other: &QueryValue) -> (same: bool)
        ensures
            same == (self@ == other@),
    {
        match (self, other) {
            (QueryValue::String(a), QueryValue::String(b)) => {
                let same = *a == *b;
                proof {
                    if a@ != b@ {
                        assert(self@ != other@);
                    }
                }
                same
            },
            (QueryValue::Integer(a), QueryValue::Integer(b)) => *a == *b,
            (QueryValue::Float(a), QueryValue::Float(b)) => *a == *b,
            (QueryValue::Boolean(a), QueryValue::Boolean(b)) => *a == *b,
            (QueryValue::Null, QueryValue::Null) => true,
            _ => false,
        }
    }

    /// The text, or `NULL` where there is none.
    pub fn from_text(text: &Option<String>) -> (value: QueryValue)
        ensures
            value@ == text_or_null(*text),
    {
        match text {
            Some(s) => QueryValue::String(s.clone()),
            None => QueryValue::Null,
        }
    }

    /// The number, or `NULL` where there is none.
    pub fn from_number(number: Option<i32>) -> (value: QueryValue)
        ensures
            value@ == number_or_null(number),
    {
        match number {
            Some(n) => QueryValue::Integer(n as i64),
            None => QueryValue::Null,
        }
    }

    /// The truth value, or `NULL` where there is none.
    pub fn from_flag(flag: Option<bool>) -> (value: QueryValue)
        ensures
            value@ == flag_or_null(flag),
    {
        match flag {
            Some(b) => QueryValue::Boolean(b),
            None => QueryValue::Null,
        }
    }
}

/// A text that may be absent, or `NULL`.
pub open spec fn text_or_null(text: Option<String>) -> SqlValue {
    match text {
        Some(s) => SqlValue::Text(s@),
        None => SqlValue::Null,
    }
}

/// A number that may be absent, or `NULL`.
pub open spec fn number_or_null(number: Option<i32>) -> SqlValue {
    match number {
        Some(n) => SqlValue::Integer(n as int),
        None => SqlValue::Null,
    }
}

/// A truth value that may be absent, or `NULL`.
pub open spec fn flag_or_null(flag: Option<bool>) -> SqlValue {
    match flag {
        Some(b) => SqlValue::Boolean(b),
        None => SqlValue::Null,
    }
}

/// The views of a list.
pub open spec fn views<T: View>(items: Seq<T>) -> Seq<T::V> {
    Seq::new(items.len(), |i: int| items[i]@)
}

/// One predicate of a `WHERE` clause.
///
/// `logical_operator` connects the predicate to the one before it; the first
/// predicate of a list has none, and a later one without it is joined by
/// `AND`.
#[derive(Debug, PartialEq, Eq)]
pub struct WhereCondition {
    pub column: String,
    pub operator: String,
    pub value: QueryValue,
    pub logical_operator: Option<String>,
}

/// What a `WhereCondition` stands for.
pub struct Condition {
    pub column: Seq<char>,
    pub operator: Seq<char>,
    pub value: SqlValue,
    pub logical_operator: Option<Seq<char>>,
}

impl View for WhereCondition {
    type V = Condition;

    open spec fn view(&self) -> Condition {
        Condition {
            column: self.column@,
            operator: self.operator@,
            value: self.value@,
            logical_operator: match self.logical_operator {
                Some(s) => Some(s@),
                None => None,
            },
        }
    }
}

impl Clone for WhereCondition {
    fn clone(&self) -> (copy: Self)
        ensures
            copy@ == self@,
    {
        WhereCondition {
            column: self.column.clone(),
            operator: self.operator.clone(),
            value: self.value.clone(),
            logical_operator: match &self.logical_operator {
                Some(s) => Some(s.clone()),
                None => None,
            },
        }
    }
}

/// What one `SELECT` asks for: the projected columns (`None` for all of them),
/// the predicates in order, and the window and order of the rows.
#[derive(Debug, PartialEq, Eq)]
pub struct QueryOptions {
    pub columns: Option<Vec<String>>,
    pub where_conditions: Vec<WhereCondition>,
    pub limit: Option<i64>,
    pub offset: Option<i64>,
    pub order_by: Option<String>,
}

/// What a `QueryOptions` stands for.
pub struct Options {
    pub columns: Option<Seq<Seq<char>>>,
    pub where_conditions: Seq<Condition>,
    pub limit: Option<int>,
    pub offset: Option<int>,
    pub order_by: Option<Seq<char>>,
}

impl View for QueryOptions {
    type V = Options;

    open spec fn view(&self) -> Options {
        Options {
            columns: match self.columns {
                Some(columns) => Some(views(columns@)),
                None => None,
            },
            where_conditions: views(self.where_conditions@),
            limit: match self.limit {
                Some(n) => Some(n as int),
                None => None,
            },
            offset: match self.offset {
                Some(n) => Some(n as int),
                None => None,
            },
            order_by: match self.order_by {
                Some(s) => Some(s@),
                None => None,
            },
        }
    }
}

impl Default for QueryOptions {
    fn default() -> (options: Self)
        ensures
            options@ == (Options {
                columns: None,
                where_conditions: Seq::<Condition>::empty(),
                limit: None,
                offset: None,
                order_by: None,
            }),
    {
        let options = QueryOptions {
            columns: None,
            where_conditions: Vec::new(),
            limit: None,
            offset: None,
            order_by: None,
        };
        assert(views(options.where_conditions@) =~= Seq::<Condition>::empty());
        options
    }
}

/// A copy of a list of predicates.
pub fn clone_conditions(conditions: &Vec<WhereCondition>) -> (copy: Vec<WhereCondition>)
    ensures
        views(copy@) == views(conditions@),
{
    let mut copy: Vec<WhereCondition> = Vec::new();
    let mut i: usize = 0;
    while i < conditions.len()
        invariant
            i <= conditions.len(),
            copy.len() == i,
            forall|j: int| 0 <= j < i ==> copy@[j]@ == conditions@[j]@,
        decreases conditions.len() - i,
    {
        copy.push(conditions[i].clone());
        i += 1;
    }
    assert(views(copy@) =~= views(conditions@));
    copy
}

/// A copy of a list of strings.
pub fn clone_texts(list: &Vec<String>) -> (copy: Vec<String>)
    ensures
        views(copy@) == views(list@),
{
    let mut copy: Vec<String> = Vec::new();
    let mut i: usize = 0;
    while i < list.len()
        invariant
            i <= list.len(),
            copy.len() == i,
            forall|j: int| 0 <= j < i ==> copy@[j]@ == list@[j]@,
        decreases list.len() - i,
    {
        copy.push(list[i].clone());
        i += 1;
    }
    assert(views(copy@) =~= views(list@));
    copy
}

} // verus!

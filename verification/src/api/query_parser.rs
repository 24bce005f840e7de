//! The query parameters of a listing: the page, the projection and the
//! filters.

use crate::models::query::{
    clone_conditions, clone_texts, views, Condition, Options, QueryOptions, WhereCondition,
};
use crate::json::json_document;
use crate::search::{default_excluded, mixed_outcome, outcome, simple_conditions, SearchQueryBuilder};
use crate::text::{has_prefix, split, split_on, trim, trimmed};
use crate::errors::{parse_error, validation_error, ErrorKind, Failure};
use vstd::prelude::*;

verus! {

/// What a listing request carries. `filters` holds every parameter that is
/// none of the four above it, in the order of the request. A parameter that
/// stands twice is a filter twice: each gives its own predicate.
#[derive(Debug, PartialEq, Eq)]
pub struct CommonPaginationQuery {
    pub page: Option<i64>,
    pub per_page: Option<i64>,
    pub columns: Option<String>,
    pub search: Option<String>,
    pub filters: Vec<(String, String)>,
}

/// The page that is asked for: the first where none is named.
pub open spec fn page_of(page: Option<i64>) -> int {
    match page {
        Some(p) => p as int,
        None => 1,
    }
}

/// The size of a page: ten rows where none is named, and never more than a
/// hundred.
pub open spec fn per_page_of(per_page: Option<i64>) -> int {
    match per_page {
        Some(n) => if n < 100 {
            n as int
        } else {
            100
        },
        None => 10,
    }
}

/// The number of rows that stand before the page.
pub open spec fn offset_of(page: Option<i64>, per_page: Option<i64>) -> int {
    (page_of(page) - 1) * per_page_of(per_page)
}

/// Whether page and size name a window of rows: both are at least one, and
/// the offset is a number that the database can be given.
pub open spec fn pagination_valid(page: Option<i64>, per_page: Option<i64>) -> bool {
    page_of(page) >= 1 && per_page_of(per_page) >= 1 && offset_of(page, per_page) <= i64::MAX
}

/// Each text without the whitespace around it.
pub open spec fn all_trimmed(pieces: Seq<Seq<char>>) -> Seq<Seq<char>> {
    Seq::new(pieces.len(), |i: int| trimmed(pieces[i]))
}

/// The projection that a `columns` parameter names: the names between its
/// commas, trimmed; none where the parameter is absent or empty.
pub open spec fn columns_of(columns: Option<String>) -> Option<Seq<Seq<char>>> {
    match columns {
        Some(list) => if list@.len() > 0 {
            Some(all_trimmed(split_on(list@, ',')))
        } else {
            None
        },
        None => None,
    }
}

/// The options of a page of rows.
pub open spec fn page_options(
    columns: Option<Seq<Seq<char>>>,
    where_conditions: Seq<Condition>,
    per_page: int,
    offset: int,
    order_by: Option<Seq<char>>,
) -> Options {
    Options {
        columns: columns,
        where_conditions: where_conditions,
        limit: Some(per_page),
        offset: Some(offset),
        order_by: order_by,
    }
}

/// The view of an optional list of names.
pub open spec fn optional_texts(list: Option<Vec<String>>) -> Option<Seq<Seq<char>>> {
    match list {
        Some(names) => Some(views(names@)),
        None => None,
    }
}

/// The view of an optional text.
pub open spec fn optional_view(text: Option<String>) -> Option<Seq<char>> {
    match text {
        Some(t) => Some(t@),
        None => None,
    }
}

/// Reads the parameters of a listing request.
pub struct QueryParser;

impl QueryParser {
    /// The page, its size and its offset. A page or a size below one is
    /// refused, and so is an offset beyond the largest `i64`: a validation
    /// error.
    pub fn parse_pagination(query: &CommonPaginationQuery) -> (parsed: Result<(i64, i64, i64), Failure>)
        ensures
            pagination_valid(query.page, query.per_page) ==> parsed == Ok::<(i64, i64, i64), Failure>(
                (
                    page_of(query.page) as i64,
                    per_page_of(query.per_page) as i64,
                    offset_of(query.page, query.per_page) as i64,
                ),
            ),
            !pagination_valid(query.page, query.per_page) ==> parsed is Err && parsed->Err_0@
                == validation_error("Invalid pagination parameters"@),
    {
        let page: i64 = match query.page {
            Some(p) => p,
            None => 1,
        };
        let per_page: i64 = match query.per_page {
            Some(n) => if n < 100 {
                n
            } else {
                100
            },
            None => 10,
        };
        if page < 1 || per_page < 1 {
            return Err(Failure::validation("Invalid pagination parameters".to_owned()));
        }
        match (page - 1).checked_mul(per_page) {
            Some(offset) => Ok((page, per_page, offset)),
            None => Err(Failure::validation("Invalid pagination parameters".to_owned())),
        }
    }

    /// The projection that `columns` names.
    pub fn parse_columns(columns: &Option<String>) -> (parsed: Option<Vec<String>>)
        ensures
            optional_texts(parsed) == columns_of(*columns),
    {
        match columns {
            Some(list) => {
                if list.as_str().is_empty() {
                    return None;
                }
                let pieces = split(list.as_str(), ',');
                let mut names: Vec<String> = Vec::new();
                let mut i: usize = 0;
                while i < pieces.len()
                    invariant
                        i <= pieces.len(),
                        names.len() == i,
                        forall|j: int| 0 <= j < i ==> names@[j]@ == trimmed(pieces@[j]@),
                    decreases pieces.len() - i,
                {
                    names.push(trim(pieces[i].as_str()));
                    i += 1;
                }
                assert(views(names@) =~= all_trimmed(split_on(list@, ',')));
                Some(names)
            },
            None => None,
        }
    }

    /// The predicates of a request: those of the search document, where
    /// there is one, and behind them those of the flat filters. A document
    /// that cannot be read is a parse error, with the message of the
    /// compiler.
    pub fn parse_search_conditions(search: Option<&str>, filters: &Vec<(String, String)>) -> (result:
        Result<Vec<WhereCondition>, Failure>)
        ensures
            result is Err ==> result->Err_0.kind == ErrorKind::Parse,
            match search {
                Some(text) => match json_document(text@) {
                    Some(json) => outcome(result) == mixed_outcome(
                        json,
                        simple_conditions(filters@, default_excluded()),
                    ),
                    None => result is Err && has_prefix(
                        result->Err_0.message@,
                        "Invalid search criteria format: "@,
                    ),
                },
                None => outcome(result) == Ok::<Seq<Condition>, Seq<char>>(
                    simple_conditions(filters@, default_excluded()),
                ),
            },
    {
        SearchQueryBuilder::build_mixed_conditions(search, filters, None)
    }

    /// The options of a page of rows.
    pub fn create_query_options(
        columns: Option<Vec<String>>,
        where_conditions: Vec<WhereCondition>,
        per_page: i64,
        offset: i64,
        order_by: Option<String>,
    ) -> (options: QueryOptions)
        ensures
            options@ == page_options(
                optional_texts(columns),
                views(where_conditions@),
                per_page as int,
                offset as int,
                optional_view(order_by),
            ),
    {
        QueryOptions { columns, where_conditions, limit: Some(per_page), offset: Some(offset), order_by }
    }

    /// Parses the whole request: the page, its size, its offset, the
    /// projection, the predicates, and the options that they make with
    /// `default_order_by`.
    pub fn parse_all(query: &CommonPaginationQuery, default_order_by: Option<String>) -> (parsed:
        Result<(i64, i64, i64, Option<Vec<String>>, Vec<WhereCondition>, QueryOptions), Failure>)
        ensures
            !pagination_valid(query.page, query.per_page) ==> parsed is Err && parsed->Err_0@
                == validation_error("Invalid pagination parameters"@),
            pagination_valid(query.page, query.per_page) ==> match query.search {
                Some(text) => match json_document(text@) {
                    Some(json) => match mixed_outcome(
                        json,
                        simple_conditions(query.filters@, default_excluded()),
                    ) {
                        Ok(conditions) => parsed is Ok && parsed_as(
                            parsed->Ok_0,
                            *query,
                            conditions,
                            default_order_by,
                        ),
                        Err(message) => parsed is Err && parsed->Err_0@ == parse_error(message),
                    },
                    None => parsed is Err && parsed->Err_0.kind == ErrorKind::Parse && has_prefix(
                        parsed->Err_0.message@,
                        "Invalid search criteria format: "@,
                    ),
                },
                None => parsed is Ok && parsed_as(
                    parsed->Ok_0,
                    *query,
                    simple_conditions(query.filters@, default_excluded()),
                    default_order_by,
                ),
            },
    {
        let (page, per_page, offset) = match Self::parse_pagination(query) {
            Ok(window) => window,
            Err(message) => { return Err(message); },
        };
        let columns = Self::parse_columns(&query.columns);
        let search: Option<&str> = match &query.search {
            Some(text) => Some(text.as_str()),
            None => None,
        };
        let where_conditions = match Self::parse_search_conditions(search, &query.filters) {
            Ok(conditions) => conditions,
            Err(message) => { return Err(message); },
        };
        let columns_copy = match &columns {
            Some(names) => Some(clone_texts(names)),
            None => None,
        };
        let options = Self::create_query_options(
            columns_copy,
            clone_conditions(&where_conditions),
            per_page,
            offset,
            default_order_by,
        );
        Ok((page, per_page, offset, columns, where_conditions, options))
    }
}

/// Whether `parsed` is what `query` parses to, given its predicates.
pub open spec fn parsed_as(
    parsed: (i64, i64, i64, Option<Vec<String>>, Vec<WhereCondition>, QueryOptions),
    query: CommonPaginationQuery,
    conditions: Seq<Condition>,
    order_by: Option<String>,
) -> bool {
    &&& parsed.0 == page_of(query.page)
    &&& parsed.1 == per_page_of(query.per_page)
    &&& parsed.2 == offset_of(query.page, query.per_page)
    &&& optional_texts(parsed.3) == columns_of(query.columns)
    &&& views(parsed.4@) == conditions
    &&& parsed.5@ == page_options(
        columns_of(query.columns),
        conditions,
        per_page_of(query.per_page),
        offset_of(query.page, query.per_page),
        optional_view(order_by),
    )
}

} // verus!

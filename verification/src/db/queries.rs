//! Text of SQL statements, put together from their parts. Nothing here
//! escapes anything: values travel as `?` placeholders.

use crate::utils::number_utils::{decimal, i64_to_string};
use crate::utils::text_utils::{join, joined, texts};
use vstd::prelude::*;
use vstd::string::StringExecFns;

verus! {

/// Direction of an `ORDER BY`.
#[derive(Debug, Clone, Copy, PartialEq, Eq, Structural)]
pub enum Order {
    Asc,
    Desc,
}

/// The kind of a statement, with the tables it names. An insert without
/// values gets one `?` placeholder for each field.
#[derive(Debug)]
pub enum QueryType {
    Insert { table: String, values: Option<Vec<String>> },
    Select { from: Vec<String> },
    Update { table: String },
    Delete { table: String },
}

/// How the conditions of a `WHERE` clause are put together.
#[derive(Debug, Clone, Copy, PartialEq, Eq, Structural)]
pub enum WhereClauseGlue {
    And,
    Or,
}

/// The field that a statement orders by, and the direction.
#[derive(Debug)]
pub struct OrderBy {
    pub order: Order,
    pub field: String,
}

impl OrderBy {
    pub fn new(order: Order, field: String) -> (order_by: Self)
        ensures
            order_by.order == order,
            order_by.field == field,
    {
        OrderBy { order, field }
    }
}

/// A statement under construction.
#[derive(Debug)]
pub struct Query {
    q_fields: Vec<String>,
    q_type: QueryType,
    q_where: Option<Vec<String>>,
    where_glue: Option<WhereClauseGlue>,
    q_order: Option<OrderBy>,
    limit: Option<i32>,
    offset: Option<i32>,
}

/// The kind of a statement as contracts see it.
pub enum QueryKind {
    Insert { table: Seq<char>, values: Option<Seq<Seq<char>>> },
    Select { from: Seq<Seq<char>> },
    Update { table: Seq<char> },
    Delete { table: Seq<char> },
}

/// A statement as contracts see it.
pub struct QueryParts {
    pub fields: Seq<Seq<char>>,
    pub kind: QueryKind,
    pub conditions: Option<Seq<Seq<char>>>,
    pub glue: Option<WhereClauseGlue>,
    pub order: Option<(Order, Seq<char>)>,
    pub limit: Option<i32>,
    pub offset: Option<i32>,
}

/// The parts of a kind of statement.
pub open spec fn kind_of(query_type: QueryType) -> QueryKind {
    match query_type {
        QueryType::Insert { table, values } => QueryKind::Insert {
            table: table@,
            values: match values {
                Some(values) => Some(texts(values@)),
                None => None,
            },
        },
        QueryType::Select { from } => QueryKind::Select { from: texts(from@) },
        QueryType::Update { table } => QueryKind::Update { table: table@ },
        QueryType::Delete { table } => QueryKind::Delete { table: table@ },
    }
}

/// The `ORDER BY` clause: the field and the direction, each followed by a
/// space.
pub open spec fn order_clause(order: Option<(Order, Seq<char>)>) -> Seq<char> {
    match order {
        Some((direction, field)) => "ORDER BY "@ + field + " "@ + match direction {
            Order::Asc => "ASC "@,
            Order::Desc => "DESC "@,
        },
        None => Seq::empty(),
    }
}

/// The `LIMIT` clause with the `OFFSET` behind it. An offset without a limit
/// is not written.
pub open spec fn limit_clause(limit: Option<i32>, offset: Option<i32>) -> Seq<char> {
    match limit {
        Some(limit) => "LIMIT "@ + decimal(limit as int) + " "@ + match offset {
            Some(offset) => "OFFSET "@ + decimal(offset as int) + " "@,
            None => Seq::empty(),
        },
        None => Seq::empty(),
    }
}

/// The text that joins the conditions of a `WHERE` clause: `AND` where
/// nothing else was asked for.
pub open spec fn glue_text(glue: Option<WhereClauseGlue>) -> Seq<char> {
    match glue {
        Some(WhereClauseGlue::Or) => " OR "@,
        _ => " AND "@,
    }
}

/// The `WHERE` clause over `conditions`, joined by `glue`.
pub open spec fn where_clause_text(conditions: Option<Seq<Seq<char>>>, glue: Seq<char>) -> Seq<
    char,
> {
    match conditions {
        Some(conditions) => "WHERE "@ + joined(conditions, glue) + " "@,
        None => Seq::empty(),
    }
}

/// The end of a statement: its `WHERE`, `ORDER BY` and `LIMIT` clauses, each
/// where the statement has one.
pub open spec fn where_order_limit(parts: QueryParts) -> Seq<char> {
    where_clause_text(parts.conditions, glue_text(parts.glue)) + order_clause(parts.order)
        + limit_clause(parts.limit, parts.offset)
}

/// One `?` for each field.
pub open spec fn placeholders(count: nat) -> Seq<Seq<char>> {
    Seq::new(count, |i: int| "?"@)
}

/// The text of a statement.
pub open spec fn query_text(parts: QueryParts) -> Seq<char> {
    match parts.kind {
        QueryKind::Select { from } => "SELECT "@ + joined(parts.fields, ","@) + " FROM "@ + joined(
            from,
            ","@,
        ) + " "@ + where_order_limit(parts),
        QueryKind::Delete { table } => "DELETE FROM "@ + table + " "@ + where_order_limit(parts),
        QueryKind::Insert { table, values } => "INSERT INTO "@ + table + " ("@ + joined(
            parts.fields,
            ","@,
        ) + ") VALUES ("@ + joined(
            match values {
                Some(values) => values,
                None => placeholders(parts.fields.len()),
            },
            ","@,
        ) + ")"@,
        QueryKind::Update { table } => "UPDATE "@ + table + " SET "@ + joined(parts.fields, ","@)
            + " "@ + where_order_limit(parts),
    }
}

fn push_order(text: &mut String, order: &Option<OrderBy>)
    ensures
        final(text)@ == old(text)@ + order_clause(
            match *order {
                Some(by) => Some((by.order, by.field@)),
                None => None,
            },
        ),
{
    if let Some(by) = order {
        text.append("ORDER BY ");
        text.append(by.field.as_str());
        text.append(" ");
        match by.order {
            Order::Asc => text.append("ASC "),
            Order::Desc => text.append("DESC "),
        }
    }
}

fn push_limit(text: &mut String, limit: Option<i32>, offset: Option<i32>)
    ensures
        final(text)@ == old(text)@ + limit_clause(limit, offset),
{
    if let Some(lim) = limit {
        text.append("LIMIT ");
        text.append(i64_to_string(lim as i64).as_str());
        text.append(" ");
        if let Some(off) = offset {
            text.append("OFFSET ");
            text.append(i64_to_string(off as i64).as_str());
            text.append(" ");
        }
    }
}

fn push_where(text: &mut String, conditions: &Option<Vec<String>>, glue: &str)
    ensures
        final(text)@ == old(text)@ + where_clause_text(
            match *conditions {
                Some(conditions) => Some(texts(conditions@)),
                None => None,
            },
            glue@,
        ),
{
    if let Some(wh) = conditions {
        text.append("WHERE ");
        text.append(join(wh, glue).as_str());
        text.append(" ");
    }
}

impl View for Query {
    type V = QueryParts;

    closed spec fn view(&self) -> QueryParts {
        QueryParts {
            fields: texts(self.q_fields@),
            kind: kind_of(self.q_type),
            conditions: match self.q_where {
                Some(conditions) => Some(texts(conditions@)),
                None => None,
            },
            glue: self.where_glue,
            order: match self.q_order {
                Some(by) => Some((by.order, by.field@)),
                None => None,
            },
            limit: self.limit,
            offset: self.offset,
        }
    }
}

impl Query {
    /// A statement of the given kind over `fields`, without any clause.
    pub fn new(query_type: QueryType, fields: Vec<String>) -> (query: Self)
        ensures
            query@ == (QueryParts {
                fields: texts(fields@),
                kind: kind_of(query_type),
                conditions: None,
                glue: None,
                order: None,
                limit: None,
                offset: None,
            }),
    {
        Query {
            q_fields: fields,
            q_type: query_type,
            q_where: None,
            where_glue: None,
            q_order: None,
            limit: None,
            offset: None,
        }
    }

    /// Sets a single condition.
    pub fn where_clause(self, where_str: String) -> (query: Self)
        ensures
            query@ == (QueryParts { conditions: Some(seq![where_str@]), ..self@ }),
    {
        let mut query = self;
        let mut conditions: Vec<String> = Vec::new();
        conditions.push(where_str);
        assert(texts(conditions@) =~= seq![where_str@]);
        query.q_where = Some(conditions);
        query
    }

    /// Sets conditions that all have to hold.
    pub fn where_and(self, q_where: Vec<String>) -> (query: Self)
        ensures
            query@ == (QueryParts {
                conditions: Some(texts(q_where@)),
                glue: Some(WhereClauseGlue::And),
                ..self@
            }),
    {
        let mut query = self;
        query.q_where = Some(q_where);
        query.where_glue = Some(WhereClauseGlue::And);
        query
    }

    /// Sets conditions of which one has to hold.
    pub fn where_or(self, q_where: Vec<String>) -> (query: Self)
        ensures
            query@ == (QueryParts {
                conditions: Some(texts(q_where@)),
                glue: Some(WhereClauseGlue::Or),
                ..self@
            }),
    {
        let mut query = self;
        query.q_where = Some(q_where);
        query.where_glue = Some(WhereClauseGlue::Or);
        query
    }

    /// Sets the order of the rows.
    pub fn order(self, order: OrderBy) -> (query: Self)
        ensures
            query@ == (QueryParts { order: Some((order.order, order.field@)), ..self@ }),
    {
        let mut query = self;
        query.q_order = Some(order);
        query
    }

    /// Sets the largest number of rows.
    pub fn limit(self, limit: i32) -> (query: Self)
        ensures
            query@ == (QueryParts { limit: Some(limit), ..self@ }),
    {
        let mut query = self;
        query.limit = Some(limit);
        query
    }

    /// Sets the number of rows to skip. It is written only behind a limit.
    pub fn offset(self, offset: i32) -> (query: Self)
        ensures
            query@ == (QueryParts { offset: Some(offset), ..self@ }),
    {
        let mut query = self;
        query.offset = Some(offset);
        query
    }

    /// The end of the statement: `WHERE`, `ORDER BY` and `LIMIT`. It is empty
    /// where the statement has none of them.
    pub fn where_order_limit_str(&self) -> (text: String)
        ensures
            text@ == where_order_limit(self@),
    {
        let mut result = String::new();
        let glue = match self.where_glue {
            Some(WhereClauseGlue::Or) => " OR ",
            _ => " AND ",
        };
        push_where(&mut result, &self.q_where, glue);
        push_order(&mut result, &self.q_order);
        push_limit(&mut result, self.limit, self.offset);
        assert(result@ =~= where_order_limit(self@));
        result
    }

    /// The text of the statement.
    pub fn to_string(&self) -> (text: String)
        ensures
            text@ == query_text(self@),
    {
        let mut query = String::new();
        match &self.q_type {
            QueryType::Select { from } => {
                query.append("SELECT ");
                query.append(join(&self.q_fields, ",").as_str());
                query.append(" FROM ");
                query.append(join(from, ",").as_str());
                query.append(" ");
                query.append(self.where_order_limit_str().as_str());
            },
            QueryType::Delete { table } => {
                query.append("DELETE FROM ");
                query.append(table.as_str());
                query.append(" ");
                query.append(self.where_order_limit_str().as_str());
            },
            QueryType::Insert { table, values } => {
                let values_str = match values {
                    Some(vals) => join(vals, ","),
                    None => join(&question_marks(self.q_fields.len()), ","),
                };
                query.append("INSERT INTO ");
                query.append(table.as_str());
                query.append(" (");
                query.append(join(&self.q_fields, ",").as_str());
                query.append(") VALUES (");
                query.append(values_str.as_str());
                query.append(")");
            },
            QueryType::Update { table } => {
                query.append("UPDATE ");
                query.append(table.as_str());
                query.append(" SET ");
                query.append(join(&self.q_fields, ",").as_str());
                query.append(" ");
                query.append(self.where_order_limit_str().as_str());
            },
        }
        assert(query@ =~= query_text(self@));
        query
    }
}

fn question_marks(count: usize) -> (marks: Vec<String>)
    ensures
        texts(marks@) == placeholders(count as nat),
{
    let mut marks: Vec<String> = Vec::new();
    let mut i: usize = 0;
    while i < count
        invariant
            i <= count,
            marks@.len() == i,
            forall|k: int| 0 <= k < i ==> (#[trigger] marks@[k])@ == "?"@,
        decreases count - i,
    {
        marks.push("?".to_owned());
        i += 1;
    }
    assert(texts(marks@) =~= placeholders(count as nat));
    marks
}

/// The text of a select over `q_fields` from `q_from`, as `select_text` puts
/// it together. Its conditions are joined by commas.
pub open spec fn select_text(
    fields: Seq<Seq<char>>,
    from: Seq<Seq<char>>,
    conditions: Option<Seq<Seq<char>>>,
    order: Option<(Order, Seq<char>)>,
    limit: Option<i32>,
    offset: Option<i32>,
) -> Seq<char> {
    "SELECT "@ + joined(fields, ","@) + " FROM "@ + joined(from, ","@) + " "@ + where_clause_text(
        conditions,
        ","@,
    ) + order_clause(order) + limit_clause(limit, offset)
}

/// Puts a select statement together from its parts.
pub fn select_query_builder(
    q_fields: &Vec<String>,
    q_from: &Vec<String>,
    q_where: Option<&Vec<String>>,
    q_order: Option<OrderBy>,
    limit: Option<i32>,
    offset: Option<i32>,
) -> (text: String)
    ensures
        text@ == select_text(
            texts(q_fields@),
            texts(q_from@),
            match q_where {
                Some(conditions) => Some(texts(conditions@)),
                None => None,
            },
            match q_order {
                Some(by) => Some((by.order, by.field@)),
                None => None,
            },
            limit,
            offset,
        ),
{
    let mut query = String::new();
    query.append("SELECT ");
    query.append(join(q_fields, ",").as_str());
    query.append(" FROM ");
    query.append(join(q_from, ",").as_str());
    query.append(" ");
    if let Some(wh) = q_where {
        query.append("WHERE ");
        query.append(join(wh, ",").as_str());
        query.append(" ");
    }
    push_order(&mut query, &q_order);
    push_limit(&mut query, limit, offset);
    assert(query@ =~= select_text(
        texts(q_fields@),
        texts(q_from@),
        match q_where {
            Some(conditions) => Some(texts(conditions@)),
            None => None,
        },
        match q_order {
            Some(by) => Some((by.order, by.field@)),
            None => None,
        },
        limit,
        offset,
    ));
    query
}

} // verus!

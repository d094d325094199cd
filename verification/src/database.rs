//! SQL statement building and the database configuration types.

use vstd::prelude::*;
use crate::text::{seq_join, string_views, join_strings, push_decimal, decimal};
use crate::error::Result;
use crate::ids::{new_uuid, is_v4_uuid_text};
use crate::hashing::{md5_hex, md5_of, hex_lower};
use crate::keyed::{unique_keys, key_map, lemma_key_at, lemma_key_update, lemma_key_push,
    lemma_key_remove, find_key};

verus! {

/// Configuration of a database connection.
#[derive(Debug, Clone)]
pub struct DatabaseConfig {
    /// The kind of database.
    pub database_type: DatabaseType,
    /// Connection string.
    pub connection_string: String,
    /// Largest number of connections.
    pub max_connections: u32,
    /// Smallest number of connections.
    pub min_connections: u32,
    /// Connection timeout in seconds.
    pub connection_timeout: u64,
    /// Query timeout in seconds.
    pub query_timeout: u64,
    /// Whether connections are pooled.
    pub enable_pooling: bool,
    /// Whether query results are cached.
    pub enable_query_cache: bool,
    /// Whether reads go to replicas.
    pub enable_read_write_split: bool,
    /// Connection strings of the read replicas.
    pub read_replicas: Vec<String>,
}

/// Kinds of database.
#[derive(Debug, Clone)]
pub enum DatabaseType {
    PostgreSQL,
    MySQL,
    SQLite,
    MongoDB,
    Redis,
    Custom(String),
}

/// A value that can be rendered into SQL.
pub trait DatabaseValue {
    /// The SQL text of the value.
    fn to_sql(&self) -> String;
    /// The kind of the value.
    fn get_type(&self) -> ValueType;
}

/// Kinds of database value.
#[derive(Debug, Clone, Copy, PartialEq, Eq, Structural)]
pub enum ValueType {
    String,
    Integer,
    Float,
    Boolean,
    DateTime,
    Binary,
    Null,
}

/// The outcome of a statement that changes rows.
#[derive(Debug, Clone, Copy, PartialEq, Eq, Structural)]
pub struct QueryResult {
    pub rows_affected: u64,
    pub last_insert_id: Option<u64>,
    pub execution_time_ms: u64,
}

/// A built SQL statement.
#[derive(Debug, Clone)]
pub struct SqlQuery {
    pub sql: String,
    pub parameters: Vec<String>,
    pub query_type: QueryType,
}

/// Kinds of SQL statement.
#[derive(Debug, Clone, Copy, PartialEq, Eq, Structural)]
pub enum QueryType {
    Select,
    Insert,
    Update,
    Delete,
    DDL,
    Other,
}

/// Comparison operators of a query condition.
#[derive(Debug, Clone, Copy, PartialEq, Eq, Structural)]
pub enum Operator {
    Equal,
    NotEqual,
    GreaterThan,
    GreaterThanOrEqual,
    LessThan,
    LessThanOrEqual,
    Like,
    In,
    NotIn,
    IsNull,
    IsNotNull,
}

/// An ordering on one field.
#[derive(Debug, Clone)]
pub struct OrderBy {
    pub field: String,
    pub direction: SortDirection,
}

/// Direction of an ordering.
#[derive(Debug, Clone, Copy, PartialEq, Eq, Structural)]
pub enum SortDirection {
    Ascending,
    Descending,
}

/// A copy of a database type.
pub fn copy_database_type(t: &DatabaseType) -> (res: DatabaseType)
    ensures
        res == *t,
{
    match t {
        DatabaseType::PostgreSQL => DatabaseType::PostgreSQL,
        DatabaseType::MySQL => DatabaseType::MySQL,
        DatabaseType::SQLite => DatabaseType::SQLite,
        DatabaseType::MongoDB => DatabaseType::MongoDB,
        DatabaseType::Redis => DatabaseType::Redis,
        DatabaseType::Custom(s) => DatabaseType::Custom(s.clone()),
    }
}

/// The views of a slice of string slices.
pub open spec fn str_views(v: Seq<&str>) -> Seq<Seq<char>> {
    v.map_values(|s: &str| s@)
}

/// Copies string slices into owned strings.
fn to_strings(items: &[&str]) -> (res: Vec<String>)
    ensures
        string_views(res@) == str_views(items@),
{
    let mut res: Vec<String> = Vec::new();
    let mut i: usize = 0;
    while i < items.len()
        invariant
            i <= items.len(),
            string_views(res@) == str_views(items@).take(i as int),
        decreases items.len() - i,
    {
        let ghost before = string_views(res@);
        res.push(String::from_str(items[i]));
        assert(str_views(items@).take(i + 1) =~= str_views(items@).take(i as int).push(items@[i as int]@));
        assert(string_views(res@) =~= before.push(items@[i as int]@));
        i = i + 1;
    }
    assert(str_views(items@).take(items.len() as int) =~= str_views(items@));
    res
}

/// `" " + kw + join(items, sep)` when `items` is not empty, nothing otherwise.
pub open spec fn clause(kw: Seq<char>, items: Seq<Seq<char>>, sep: Seq<char>) -> Seq<char> {
    if items.len() == 0 { Seq::empty() } else { kw + seq_join(items, sep) }
}

/// `kw + decimal(n)` when a number is present, nothing otherwise.
pub open spec fn number_clause(kw: Seq<char>, n: Option<u64>) -> Seq<char> {
    match n {
        Some(v) => kw + decimal(v as nat),
        None => Seq::empty(),
    }
}

/// The SQL text of a SELECT statement.
pub open spec fn select_sql(table: Seq<char>, columns: Seq<Seq<char>>, joins: Seq<Seq<char>>,
    conditions: Seq<Seq<char>>, order_by: Seq<Seq<char>>, limit: Option<u64>, offset: Option<u64>) -> Seq<char> {
    "SELECT "@ + seq_join(columns, ", "@) + " FROM "@ + table
        + clause(" "@, joins, " "@)
        + clause(" WHERE "@, conditions, " AND "@)
        + clause(" ORDER BY "@, order_by, ", "@)
        + number_clause(" LIMIT "@, limit)
        + number_clause(" OFFSET "@, offset)
}

/// The SQL text of an INSERT statement.
pub open spec fn insert_sql(table: Seq<char>, columns: Seq<Seq<char>>, values: Seq<Seq<char>>) -> Seq<char> {
    "INSERT INTO "@ + table + " ("@ + seq_join(columns, ", "@) + ") VALUES ("@ + seq_join(values, ", "@) + ")"@
}

/// The SQL text of an UPDATE statement.
pub open spec fn update_sql(table: Seq<char>, sets: Seq<Seq<char>>, conditions: Seq<Seq<char>>) -> Seq<char> {
    "UPDATE "@ + table + " SET "@ + seq_join(sets, ", "@) + clause(" WHERE "@, conditions, " AND "@)
}

/// The SQL text of a DELETE statement.
pub open spec fn delete_sql(table: Seq<char>, conditions: Seq<Seq<char>>) -> Seq<char> {
    "DELETE FROM "@ + table + clause(" WHERE "@, conditions, " AND "@)
}

/// The conditions of an UPDATE or a DELETE must all hold: they are joined
/// with ` AND `. With two conditions `c1`, `c2`, a DELETE reads
/// `DELETE FROM t WHERE c1 AND c2` and an UPDATE ends in ` WHERE c1 AND c2`;
/// without conditions there is no WHERE part.
pub proof fn law_conditions_all_hold(table: Seq<char>, sets: Seq<Seq<char>>, c1: Seq<char>, c2: Seq<char>)
    ensures
        delete_sql(table, seq![c1, c2]) == seq!['D', 'E', 'L', 'E', 'T', 'E', ' ', 'F', 'R', 'O', 'M', ' '] + table
            + seq![' ', 'W', 'H', 'E', 'R', 'E', ' '] + c1 + seq![' ', 'A', 'N', 'D', ' '] + c2,
        delete_sql(table, seq![c1]) == seq!['D', 'E', 'L', 'E', 'T', 'E', ' ', 'F', 'R', 'O', 'M', ' '] + table
            + seq![' ', 'W', 'H', 'E', 'R', 'E', ' '] + c1,
        delete_sql(table, Seq::empty()) == seq!['D', 'E', 'L', 'E', 'T', 'E', ' ', 'F', 'R', 'O', 'M', ' '] + table,
        update_sql(table, sets, seq![c1, c2]) == seq!['U', 'P', 'D', 'A', 'T', 'E', ' '] + table
            + seq![' ', 'S', 'E', 'T', ' '] + seq_join(sets, seq![',', ' '])
            + seq![' ', 'W', 'H', 'E', 'R', 'E', ' '] + c1 + seq![' ', 'A', 'N', 'D', ' '] + c2,
        update_sql(table, sets, Seq::empty()) == seq!['U', 'P', 'D', 'A', 'T', 'E', ' '] + table
            + seq![' ', 'S', 'E', 'T', ' '] + seq_join(sets, seq![',', ' ']),
{
    reveal_strlit("DELETE FROM ");
    reveal_strlit(" WHERE ");
    reveal_strlit(" AND ");
    reveal_strlit("UPDATE ");
    reveal_strlit(" SET ");
    reveal_strlit(", ");
    let two = seq![c1, c2];
    assert(two.drop_last() =~= seq![c1]);
    assert(seq_join(two, " AND "@) == seq_join(seq![c1], " AND "@) + " AND "@ + c2);
    assert(seq_join(seq![c1], " AND "@) == c1);
    assert(" AND "@ =~= seq![' ', 'A', 'N', 'D', ' ']);
    assert(" WHERE "@ =~= seq![' ', 'W', 'H', 'E', 'R', 'E', ' ']);
    assert("DELETE FROM "@ =~= seq!['D', 'E', 'L', 'E', 'T', 'E', ' ', 'F', 'R', 'O', 'M', ' ']);
    assert("UPDATE "@ =~= seq!['U', 'P', 'D', 'A', 'T', 'E', ' ']);
    assert(" SET "@ =~= seq![' ', 'S', 'E', 'T', ' ']);
    assert(", "@ =~= seq![',', ' ']);
    assert(delete_sql(table, two) =~= seq!['D', 'E', 'L', 'E', 'T', 'E', ' ', 'F', 'R', 'O', 'M', ' '] + table
        + seq![' ', 'W', 'H', 'E', 'R', 'E', ' '] + c1 + seq![' ', 'A', 'N', 'D', ' '] + c2);
    assert(delete_sql(table, seq![c1]) =~= seq!['D', 'E', 'L', 'E', 'T', 'E', ' ', 'F', 'R', 'O', 'M', ' '] + table
        + seq![' ', 'W', 'H', 'E', 'R', 'E', ' '] + c1);
    assert(delete_sql(table, Seq::empty()) =~= seq!['D', 'E', 'L', 'E', 'T', 'E', ' ', 'F', 'R', 'O', 'M', ' '] + table);
    assert(update_sql(table, sets, two) =~= seq!['U', 'P', 'D', 'A', 'T', 'E', ' '] + table
        + seq![' ', 'S', 'E', 'T', ' '] + seq_join(sets, seq![',', ' '])
        + seq![' ', 'W', 'H', 'E', 'R', 'E', ' '] + c1 + seq![' ', 'A', 'N', 'D', ' '] + c2);
    assert(update_sql(table, sets, Seq::empty()) =~= seq!['U', 'P', 'D', 'A', 'T', 'E', ' '] + table
        + seq![' ', 'S', 'E', 'T', ' '] + seq_join(sets, seq![',', ' ']));
}

/// A SELECT lists its columns separated by `, ` after `SELECT `, then
/// ` FROM ` and the table, the joins separated by spaces, its conditions,
/// which must all hold (joined with ` AND `), and its ordering terms
/// separated by `, ` after ` ORDER BY `, in that order; an INSERT lists its
/// columns and then its values, each separated by `, ` and in brackets.
pub proof fn law_select_and_insert_text(table: Seq<char>, a: Seq<char>, b: Seq<char>, j: Seq<char>,
    c1: Seq<char>, c2: Seq<char>, o1: Seq<char>, o2: Seq<char>, v1: Seq<char>, v2: Seq<char>)
    ensures
        select_sql(table, seq![a, b], seq![j], seq![c1, c2], seq![o1, o2], None, None)
            == seq!['S', 'E', 'L', 'E', 'C', 'T', ' '] + a + seq![',', ' '] + b
                + seq![' ', 'F', 'R', 'O', 'M', ' '] + table + seq![' '] + j
                + seq![' ', 'W', 'H', 'E', 'R', 'E', ' '] + c1 + seq![' ', 'A', 'N', 'D', ' '] + c2
                + seq![' ', 'O', 'R', 'D', 'E', 'R', ' ', 'B', 'Y', ' '] + o1 + seq![',', ' '] + o2,
        select_sql(table, seq![a], Seq::empty(), Seq::empty(), Seq::empty(), None, None)
            == seq!['S', 'E', 'L', 'E', 'C', 'T', ' '] + a + seq![' ', 'F', 'R', 'O', 'M', ' '] + table,
        insert_sql(table, seq![a, b], seq![v1, v2])
            == seq!['I', 'N', 'S', 'E', 'R', 'T', ' ', 'I', 'N', 'T', 'O', ' '] + table + seq![' ', '(']
                + a + seq![',', ' '] + b + seq![')', ' ', 'V', 'A', 'L', 'U', 'E', 'S', ' ', '(']
                + v1 + seq![',', ' '] + v2 + seq![')'],
{
    reveal_strlit("SELECT ");
    reveal_strlit(" FROM ");
    reveal_strlit(" ");
    reveal_strlit(" WHERE ");
    reveal_strlit(" AND ");
    reveal_strlit(" ORDER BY ");
    reveal_strlit(", ");
    reveal_strlit("INSERT INTO ");
    reveal_strlit(" (");
    reveal_strlit(") VALUES (");
    reveal_strlit(")");
    let cols = seq![a, b];
    let conds = seq![c1, c2];
    let ords = seq![o1, o2];
    let vals = seq![v1, v2];
    assert(cols.drop_last() =~= seq![a]);
    assert(conds.drop_last() =~= seq![c1]);
    assert(ords.drop_last() =~= seq![o1]);
    assert(vals.drop_last() =~= seq![v1]);
    assert(seq_join(cols, ", "@) == seq_join(seq![a], ", "@) + ", "@ + b);
    assert(seq_join(seq![a], ", "@) == a);
    assert(seq_join(conds, " AND "@) == seq_join(seq![c1], " AND "@) + " AND "@ + c2);
    assert(seq_join(seq![c1], " AND "@) == c1);
    assert(seq_join(ords, ", "@) == seq_join(seq![o1], ", "@) + ", "@ + o2);
    assert(seq_join(seq![o1], ", "@) == o1);
    assert(seq_join(vals, ", "@) == seq_join(seq![v1], ", "@) + ", "@ + v2);
    assert(seq_join(seq![v1], ", "@) == v1);
    assert(seq_join(seq![j], " "@) == j);
    assert("SELECT "@ =~= seq!['S', 'E', 'L', 'E', 'C', 'T', ' ']);
    assert(" FROM "@ =~= seq![' ', 'F', 'R', 'O', 'M', ' ']);
    assert(" "@ =~= seq![' ']);
    assert(" WHERE "@ =~= seq![' ', 'W', 'H', 'E', 'R', 'E', ' ']);
    assert(" AND "@ =~= seq![' ', 'A', 'N', 'D', ' ']);
    assert(" ORDER BY "@ =~= seq![' ', 'O', 'R', 'D', 'E', 'R', ' ', 'B', 'Y', ' ']);
    assert(", "@ =~= seq![',', ' ']);
    assert("INSERT INTO "@ =~= seq!['I', 'N', 'S', 'E', 'R', 'T', ' ', 'I', 'N', 'T', 'O', ' ']);
    assert(" ("@ =~= seq![' ', '(']);
    assert(") VALUES ("@ =~= seq![')', ' ', 'V', 'A', 'L', 'U', 'E', 'S', ' ', '(']);
    assert(")"@ =~= seq![')']);
    assert(select_sql(table, seq![a, b], seq![j], seq![c1, c2], seq![o1, o2], None, None)
        =~= seq!['S', 'E', 'L', 'E', 'C', 'T', ' '] + a + seq![',', ' '] + b
            + seq![' ', 'F', 'R', 'O', 'M', ' '] + table + seq![' '] + j
            + seq![' ', 'W', 'H', 'E', 'R', 'E', ' '] + c1 + seq![' ', 'A', 'N', 'D', ' '] + c2
            + seq![' ', 'O', 'R', 'D', 'E', 'R', ' ', 'B', 'Y', ' '] + o1 + seq![',', ' '] + o2);
    assert(select_sql(table, seq![a], Seq::empty(), Seq::empty(), Seq::empty(), None, None)
        =~= seq!['S', 'E', 'L', 'E', 'C', 'T', ' '] + a + seq![' ', 'F', 'R', 'O', 'M', ' '] + table);
    assert(insert_sql(table, seq![a, b], seq![v1, v2])
        =~= seq!['I', 'N', 'S', 'E', 'R', 'T', ' ', 'I', 'N', 'T', 'O', ' '] + table + seq![' ', '(']
            + a + seq![',', ' '] + b + seq![')', ' ', 'V', 'A', 'L', 'U', 'E', 'S', ' ', '(']
            + v1 + seq![',', ' '] + v2 + seq![')']);
}

/// The text of an ordering term.
pub open spec fn order_term(column: Seq<char>, direction: SortDirection) -> Seq<char> {
    column + match direction {
        SortDirection::Ascending => " ASC"@,
        SortDirection::Descending => " DESC"@,
    }
}

/// A descending ordering term is the column followed by ` DESC`, an
/// ascending one the column followed by ` ASC`, so the two directions never
/// give the same term.
pub proof fn law_order_direction(column: Seq<char>)
    ensures
        order_term(column, SortDirection::Descending) == column + seq![' ', 'D', 'E', 'S', 'C'],
        order_term(column, SortDirection::Ascending) == column + seq![' ', 'A', 'S', 'C'],
        order_term(column, SortDirection::Descending) != order_term(column, SortDirection::Ascending),
{
    reveal_strlit(" DESC");
    reveal_strlit(" ASC");
    assert(order_term(column, SortDirection::Descending) =~= column + seq![' ', 'D', 'E', 'S', 'C']);
    assert(order_term(column, SortDirection::Ascending) =~= column + seq![' ', 'A', 'S', 'C']);
    assert(order_term(column, SortDirection::Descending).len() != order_term(column, SortDirection::Ascending).len());
}

/// The text of an assignment in an UPDATE.
pub open spec fn set_term(column: Seq<char>, value: Seq<char>) -> Seq<char> {
    column + " = "@ + value
}

/// Appends `kw` and the joined `items` when `items` is not empty.
fn append_clause(s: &mut String, kw: &str, items: &Vec<String>, sep: &str)
    ensures
        final(s)@ == old(s)@ + clause(kw@, string_views(items@), sep@),
{
    if items.len() > 0 {
        s.append(kw);
        let joined = join_strings(items, sep);
        s.append(joined.as_str());
    } else {
        assert(old(s)@ + clause(kw@, string_views(items@), sep@) =~= old(s)@);
    }
}

/// Appends `kw` and the number when there is one.
fn append_number_clause(s: &mut String, kw: &str, n: Option<u64>)
    ensures
        final(s)@ == old(s)@ + number_clause(kw@, n),
{
    match n {
        Some(v) => {
            s.append(kw);
            push_decimal(s, v);
            assert(final(s)@ =~= old(s)@ + number_clause(kw@, n));
        },
        None => {
            assert(old(s)@ + number_clause(kw@, n) =~= old(s)@);
        },
    }
}

/// Starts the statements of one kind of database.
pub struct QueryBuilder {
    database_type: DatabaseType,
}

impl QueryBuilder {
    /// A builder for the given kind of database.
    pub fn new(database_type: DatabaseType) -> (qb: QueryBuilder)
        ensures
            qb.database_type() == database_type,
    {
        QueryBuilder { database_type }
    }

    /// The kind of database.
    pub closed spec fn database_type(&self) -> DatabaseType {
        self.database_type
    }

    /// A SELECT of `columns` from `table`, with no clause yet.
    pub fn select(&self, table: &str, columns: &[&str]) -> (b: SelectQueryBuilder)
        ensures
            b.table() == table@,
            b.columns() == str_views(columns@),
            b.conditions().len() == 0,
            b.joins().len() == 0,
            b.order_terms().len() == 0,
            b.limit_value() is None,
            b.offset_value() is None,
            b.database_type() == self.database_type(),
            b.state() == select_start(table@, str_views(columns@)),
    {
        SelectQueryBuilder::new(table, columns, &self.database_type)
    }

    /// An INSERT into `table`, with no value yet.
    pub fn insert(&self, table: &str) -> (b: InsertQueryBuilder)
        ensures
            b.table() == table@,
            b.columns().len() == 0,
            b.values().len() == 0,
            b.database_type() == self.database_type(),
    {
        InsertQueryBuilder::new(table, &self.database_type)
    }

    /// An UPDATE of `table`, with no assignment yet.
    pub fn update(&self, table: &str) -> (b: UpdateQueryBuilder)
        ensures
            b.table() == table@,
            b.sets().len() == 0,
            b.conditions().len() == 0,
            b.database_type() == self.database_type(),
    {
        UpdateQueryBuilder::new(table, &self.database_type)
    }

    /// A DELETE from `table`, with no condition yet.
    pub fn delete(&self, table: &str) -> (b: DeleteQueryBuilder)
        ensures
            b.table() == table@,
            b.conditions().len() == 0,
            b.database_type() == self.database_type(),
    {
        DeleteQueryBuilder::new(table, &self.database_type)
    }
}

/// What a SELECT builder holds: the table, the columns, and the joins,
/// conditions and orderings in the order they were added, with the limit
/// and the offset last set.
pub struct SelectState {
    pub table: Seq<char>,
    pub columns: Seq<Seq<char>>,
    pub joins: Seq<Seq<char>>,
    pub conditions: Seq<Seq<char>>,
    pub order_terms: Seq<Seq<char>>,
    pub limit: Option<u64>,
    pub offset: Option<u64>,
}

/// The state of a new SELECT of `columns` from `table`: no clause, no
/// limit, no offset. It does not depend on the database type.
pub open spec fn select_start(table: Seq<char>, columns: Seq<Seq<char>>) -> SelectState {
    SelectState {
        table,
        columns,
        joins: Seq::empty(),
        conditions: Seq::empty(),
        order_terms: Seq::empty(),
        limit: None,
        offset: None,
    }
}

/// The state after a condition is added.
pub open spec fn with_condition(s: SelectState, c: Seq<char>) -> SelectState {
    SelectState { conditions: s.conditions.push(c), ..s }
}

/// The state after a join is added.
pub open spec fn with_join(s: SelectState, j: Seq<char>) -> SelectState {
    SelectState { joins: s.joins.push(j), ..s }
}

/// The state after an ordering term is added.
pub open spec fn with_order(s: SelectState, o: Seq<char>) -> SelectState {
    SelectState { order_terms: s.order_terms.push(o), ..s }
}

/// The state after the limit is set.
pub open spec fn with_limit(s: SelectState, n: u64) -> SelectState {
    SelectState { limit: Some(n), ..s }
}

/// The state after the offset is set.
pub open spec fn with_offset(s: SelectState, n: u64) -> SelectState {
    SelectState { offset: Some(n), ..s }
}

/// The SELECT statement a state builds.
pub open spec fn state_sql(s: SelectState) -> Seq<char> {
    select_sql(s.table, s.columns, s.joins, s.conditions, s.order_terms, s.limit, s.offset)
}

/// The statement a SELECT builder gives depends only on the order of the
/// calls of each kind and on the last limit and offset set: calls of
/// different kinds may come in any order, and a later limit or offset
/// replaces an earlier one.
pub proof fn law_select_call_order(s: SelectState, c: Seq<char>, j: Seq<char>, o: Seq<char>, a: u64, b: u64)
    ensures
        with_condition(with_join(s, j), c) == with_join(with_condition(s, c), j),
        with_condition(with_order(s, o), c) == with_order(with_condition(s, c), o),
        with_join(with_order(s, o), j) == with_order(with_join(s, j), o),
        with_limit(with_condition(s, c), a) == with_condition(with_limit(s, a), c),
        with_limit(with_join(s, j), a) == with_join(with_limit(s, a), j),
        with_limit(with_order(s, o), a) == with_order(with_limit(s, a), o),
        with_offset(with_condition(s, c), a) == with_condition(with_offset(s, a), c),
        with_offset(with_join(s, j), a) == with_join(with_offset(s, a), j),
        with_offset(with_order(s, o), a) == with_order(with_offset(s, a), o),
        with_offset(with_limit(s, a), b) == with_limit(with_offset(s, b), a),
        with_limit(with_limit(s, a), b) == with_limit(s, b),
        with_offset(with_offset(s, a), b) == with_offset(s, b),
{
}

/// One call on a SELECT builder.
pub enum SelectCall {
    Where(Seq<char>),
    Join(Seq<char>),
    Order(Seq<char>),
    Limit(u64),
    Offset(u64),
}

/// The state after one call.
pub open spec fn apply_call(s: SelectState, c: SelectCall) -> SelectState {
    match c {
        SelectCall::Where(x) => with_condition(s, x),
        SelectCall::Join(x) => with_join(s, x),
        SelectCall::Order(x) => with_order(s, x),
        SelectCall::Limit(n) => with_limit(s, n),
        SelectCall::Offset(n) => with_offset(s, n),
    }
}

/// The state after a sequence of calls, made in order.
pub open spec fn apply_calls(s: SelectState, calls: Seq<SelectCall>) -> SelectState
    decreases calls.len(),
{
    if calls.len() == 0 { s } else { apply_call(apply_calls(s, calls.drop_last()), calls.last()) }
}

/// The conditions among the calls, in order.
pub open spec fn call_conditions(calls: Seq<SelectCall>) -> Seq<Seq<char>>
    decreases calls.len(),
{
    if calls.len() == 0 { Seq::empty() } else {
        let r = call_conditions(calls.drop_last());
        match calls.last() { SelectCall::Where(x) => r.push(x), _ => r }
    }
}

/// The joins among the calls, in order.
pub open spec fn call_joins(calls: Seq<SelectCall>) -> Seq<Seq<char>>
    decreases calls.len(),
{
    if calls.len() == 0 { Seq::empty() } else {
        let r = call_joins(calls.drop_last());
        match calls.last() { SelectCall::Join(x) => r.push(x), _ => r }
    }
}

/// The ordering terms among the calls, in order.
pub open spec fn call_orders(calls: Seq<SelectCall>) -> Seq<Seq<char>>
    decreases calls.len(),
{
    if calls.len() == 0 { Seq::empty() } else {
        let r = call_orders(calls.drop_last());
        match calls.last() { SelectCall::Order(x) => r.push(x), _ => r }
    }
}

/// The last limit set among the calls, or `start` where none is.
pub open spec fn call_limit(calls: Seq<SelectCall>, start: Option<u64>) -> Option<u64>
    decreases calls.len(),
{
    if calls.len() == 0 { start } else {
        match calls.last() { SelectCall::Limit(n) => Some(n), _ => call_limit(calls.drop_last(), start) }
    }
}

/// The last offset set among the calls, or `start` where none is.
pub open spec fn call_offset(calls: Seq<SelectCall>, start: Option<u64>) -> Option<u64>
    decreases calls.len(),
{
    if calls.len() == 0 { start } else {
        match calls.last() { SelectCall::Offset(n) => Some(n), _ => call_offset(calls.drop_last(), start) }
    }
}

/// Any sequence of builder calls leaves the state that only the calls of
/// each kind, in their order, and the last limit and offset decide; so two
/// sequences that agree on those build the same statement.
pub proof fn law_select_calls_by_kind(s: SelectState, calls1: Seq<SelectCall>, calls2: Seq<SelectCall>)
    ensures
        apply_calls(s, calls1) == (SelectState {
            joins: s.joins + call_joins(calls1),
            conditions: s.conditions + call_conditions(calls1),
            order_terms: s.order_terms + call_orders(calls1),
            limit: call_limit(calls1, s.limit),
            offset: call_offset(calls1, s.offset),
            ..s
        }),
        call_conditions(calls1) == call_conditions(calls2) && call_joins(calls1) == call_joins(calls2)
            && call_orders(calls1) == call_orders(calls2)
            && call_limit(calls1, s.limit) == call_limit(calls2, s.limit)
            && call_offset(calls1, s.offset) == call_offset(calls2, s.offset)
            ==> state_sql(apply_calls(s, calls1)) == state_sql(apply_calls(s, calls2)),
{
    lemma_calls_by_kind(s, calls1);
    lemma_calls_by_kind(s, calls2);
}

proof fn lemma_calls_by_kind(s: SelectState, calls: Seq<SelectCall>)
    ensures
        apply_calls(s, calls) == (SelectState {
            joins: s.joins + call_joins(calls),
            conditions: s.conditions + call_conditions(calls),
            order_terms: s.order_terms + call_orders(calls),
            limit: call_limit(calls, s.limit),
            offset: call_offset(calls, s.offset),
            ..s
        }),
    decreases calls.len(),
{
    if calls.len() == 0 {
        assert(s.joins + Seq::<Seq<char>>::empty() =~= s.joins);
        assert(s.conditions + Seq::<Seq<char>>::empty() =~= s.conditions);
        assert(s.order_terms + Seq::<Seq<char>>::empty() =~= s.order_terms);
    } else {
        let p = calls.drop_last();
        lemma_calls_by_kind(s, p);
        match calls.last() {
            SelectCall::Where(x) => {
                assert(s.conditions + call_conditions(p).push(x) =~= (s.conditions + call_conditions(p)).push(x));
            },
            SelectCall::Join(x) => {
                assert(s.joins + call_joins(p).push(x) =~= (s.joins + call_joins(p)).push(x));
            },
            SelectCall::Order(x) => {
                assert(s.order_terms + call_orders(p).push(x) =~= (s.order_terms + call_orders(p)).push(x));
            },
            _ => {},
        }
    }
}

/// The database type never changes a statement: two SELECT builders that
/// hold the same table, columns, clauses, limit and offset build the same
/// statement, whatever database each was made for.
pub proof fn law_sql_ignores_database_type(b1: SelectQueryBuilder, b2: SelectQueryBuilder)
    requires
        b1.state() == b2.state(),
    ensures
        state_sql(b1.state()) == state_sql(b2.state()),
{
}

/// Builds a SELECT statement clause by clause.
pub struct SelectQueryBuilder {
    table: String,
    columns: Vec<String>,
    conditions: Vec<String>,
    joins: Vec<String>,
    order_by: Vec<String>,
    limit: Option<u64>,
    offset: Option<u64>,
    database_type: DatabaseType,
}

impl SelectQueryBuilder {
    pub closed spec fn table(&self) -> Seq<char> { self.table@ }
    pub closed spec fn columns(&self) -> Seq<Seq<char>> { string_views(self.columns@) }
    pub closed spec fn conditions(&self) -> Seq<Seq<char>> { string_views(self.conditions@) }
    pub closed spec fn joins(&self) -> Seq<Seq<char>> { string_views(self.joins@) }
    pub closed spec fn order_terms(&self) -> Seq<Seq<char>> { string_views(self.order_by@) }
    pub closed spec fn limit_value(&self) -> Option<u64> { self.limit }
    pub closed spec fn offset_value(&self) -> Option<u64> { self.offset }
    pub closed spec fn database_type(&self) -> DatabaseType { self.database_type }

    /// What the builder holds.
    pub closed spec fn state(&self) -> SelectState {
        SelectState {
            table: self.table(),
            columns: self.columns(),
            joins: self.joins(),
            conditions: self.conditions(),
            order_terms: self.order_terms(),
            limit: self.limit_value(),
            offset: self.offset_value(),
        }
    }

    /// A SELECT of `columns` from `table`, with no clause yet.
    pub fn new(table: &str, columns: &[&str], database_type: &DatabaseType) -> (b: SelectQueryBuilder)
        ensures
            b.table() == table@,
            b.columns() == str_views(columns@),
            b.conditions().len() == 0,
            b.joins().len() == 0,
            b.order_terms().len() == 0,
            b.limit_value() is None,
            b.offset_value() is None,
            b.database_type() == *database_type,
            b.state() == select_start(table@, str_views(columns@)),
    {
        let b = SelectQueryBuilder {
            table: String::from_str(table),
            columns: to_strings(columns),
            conditions: Vec::new(),
            joins: Vec::new(),
            order_by: Vec::new(),
            limit: None,
            offset: None,
            database_type: copy_database_type(database_type),
        };
        assert(b.joins() =~= Seq::<Seq<char>>::empty());
        assert(b.conditions() =~= Seq::<Seq<char>>::empty());
        assert(b.order_terms() =~= Seq::<Seq<char>>::empty());
        b
    }

    /// Adds a condition; conditions are joined with AND.
    pub fn where_clause(self, condition: &str) -> (b: SelectQueryBuilder)
        ensures
            b.conditions() == self.conditions().push(condition@),
            b.state() == with_condition(self.state(), condition@),
            b.table() == self.table(), b.columns() == self.columns(), b.joins() == self.joins(),
            b.order_terms() == self.order_terms(), b.limit_value() == self.limit_value(),
            b.offset_value() == self.offset_value(), b.database_type() == self.database_type(),
    {
        let mut b = self;
        b.conditions.push(String::from_str(condition));
        assert(string_views(b.conditions@) =~= self.conditions().push(condition@));
        b
    }

    /// Adds a join clause.
    pub fn join(self, join_clause: &str) -> (b: SelectQueryBuilder)
        ensures
            b.joins() == self.joins().push(join_clause@),
            b.state() == with_join(self.state(), join_clause@),
            b.table() == self.table(), b.columns() == self.columns(), b.conditions() == self.conditions(),
            b.order_terms() == self.order_terms(), b.limit_value() == self.limit_value(),
            b.offset_value() == self.offset_value(), b.database_type() == self.database_type(),
    {
        let mut b = self;
        b.joins.push(String::from_str(join_clause));
        assert(string_views(b.joins@) =~= self.joins().push(join_clause@));
        b
    }

    /// Adds an ordering on `column`.
    pub fn order_by(self, column: &str, direction: SortDirection) -> (b: SelectQueryBuilder)
        ensures
            b.order_terms() == self.order_terms().push(order_term(column@, direction)),
            b.state() == with_order(self.state(), order_term(column@, direction)),
            b.table() == self.table(), b.columns() == self.columns(), b.conditions() == self.conditions(),
            b.joins() == self.joins(), b.limit_value() == self.limit_value(),
            b.offset_value() == self.offset_value(), b.database_type() == self.database_type(),
    {
        let mut b = self;
        let mut term = String::from_str(column);
        match direction {
            SortDirection::Ascending => term.append(" ASC"),
            SortDirection::Descending => term.append(" DESC"),
        }
        b.order_by.push(term);
        assert(string_views(b.order_by@) =~= self.order_terms().push(order_term(column@, direction)));
        b
    }

    /// Sets the LIMIT.
    pub fn limit(self, limit: u64) -> (b: SelectQueryBuilder)
        ensures
            b.limit_value() == Some(limit),
            b.state() == with_limit(self.state(), limit),
            b.table() == self.table(), b.columns() == self.columns(), b.conditions() == self.conditions(),
            b.joins() == self.joins(), b.order_terms() == self.order_terms(),
            b.offset_value() == self.offset_value(), b.database_type() == self.database_type(),
    {
        let mut b = self;
        b.limit = Some(limit);
        b
    }

    /// Sets the OFFSET.
    pub fn offset(self, offset: u64) -> (b: SelectQueryBuilder)
        ensures
            b.offset_value() == Some(offset),
            b.state() == with_offset(self.state(), offset),
            b.table() == self.table(), b.columns() == self.columns(), b.conditions() == self.conditions(),
            b.joins() == self.joins(), b.order_terms() == self.order_terms(),
            b.limit_value() == self.limit_value(), b.database_type() == self.database_type(),
    {
        let mut b = self;
        b.offset = Some(offset);
        b
    }

    /// The SELECT statement.
    pub fn build(self) -> (q: SqlQuery)
        ensures
            q.sql@ == select_sql(self.table(), self.columns(), self.joins(), self.conditions(),
                self.order_terms(), self.limit_value(), self.offset_value()),
            q.sql@ == state_sql(self.state()),
            q.parameters@.len() == 0,
            q.query_type == QueryType::Select,
    {
        let mut sql = String::from_str("SELECT ");
        let cols = join_strings(&self.columns, ", ");
        sql.append(cols.as_str());
        sql.append(" FROM ");
        sql.append(self.table.as_str());
        append_clause(&mut sql, " ", &self.joins, " ");
        append_clause(&mut sql, " WHERE ", &self.conditions, " AND ");
        append_clause(&mut sql, " ORDER BY ", &self.order_by, ", ");
        append_number_clause(&mut sql, " LIMIT ", self.limit);
        append_number_clause(&mut sql, " OFFSET ", self.offset);
        SqlQuery { sql, parameters: Vec::new(), query_type: QueryType::Select }
    }
}

/// Builds an INSERT statement value by value.
pub struct InsertQueryBuilder {
    table: String,
    columns: Vec<String>,
    values: Vec<String>,
    database_type: DatabaseType,
}

impl InsertQueryBuilder {
    pub closed spec fn table(&self) -> Seq<char> { self.table@ }
    pub closed spec fn columns(&self) -> Seq<Seq<char>> { string_views(self.columns@) }
    pub closed spec fn values(&self) -> Seq<Seq<char>> { string_views(self.values@) }
    pub closed spec fn database_type(&self) -> DatabaseType { self.database_type }

    /// An INSERT into `table`, with no value yet.
    pub fn new(table: &str, database_type: &DatabaseType) -> (b: InsertQueryBuilder)
        ensures
            b.table() == table@,
            b.columns().len() == 0,
            b.values().len() == 0,
            b.database_type() == *database_type,
    {
        InsertQueryBuilder {
            table: String::from_str(table),
            columns: Vec::new(),
            values: Vec::new(),
            database_type: copy_database_type(database_type),
        }
    }

    /// Adds a column and its value.
    pub fn value(self, column: &str, value: &str) -> (b: InsertQueryBuilder)
        ensures
            b.columns() == self.columns().push(column@),
            b.values() == self.values().push(value@),
            b.table() == self.table(), b.database_type() == self.database_type(),
    {
        let mut b = self;
        b.columns.push(String::from_str(column));
        b.values.push(String::from_str(value));
        assert(string_views(b.columns@) =~= self.columns().push(column@));
        assert(string_views(b.values@) =~= self.values().push(value@));
        b
    }

    /// The INSERT statement.
    pub fn build(self) -> (q: SqlQuery)
        ensures
            q.sql@ == insert_sql(self.table(), self.columns(), self.values()),
            q.parameters@.len() == 0,
            q.query_type == QueryType::Insert,
    {
        let mut sql = String::from_str("INSERT INTO ");
        sql.append(self.table.as_str());
        sql.append(" (");
        let cols = join_strings(&self.columns, ", ");
        sql.append(cols.as_str());
        sql.append(") VALUES (");
        let vals = join_strings(&self.values, ", ");
        sql.append(vals.as_str());
        sql.append(")");
        SqlQuery { sql, parameters: Vec::new(), query_type: QueryType::Insert }
    }
}

/// Builds an UPDATE statement.
pub struct UpdateQueryBuilder {
    table: String,
    sets: Vec<String>,
    conditions: Vec<String>,
    database_type: DatabaseType,
}

impl UpdateQueryBuilder {
    pub closed spec fn table(&self) -> Seq<char> { self.table@ }
    pub closed spec fn sets(&self) -> Seq<Seq<char>> { string_views(self.sets@) }
    pub closed spec fn conditions(&self) -> Seq<Seq<char>> { string_views(self.conditions@) }
    pub closed spec fn database_type(&self) -> DatabaseType { self.database_type }

    /// An UPDATE of `table`, with no assignment yet.
    pub fn new(table: &str, database_type: &DatabaseType) -> (b: UpdateQueryBuilder)
        ensures
            b.table() == table@,
            b.sets().len() == 0,
            b.conditions().len() == 0,
            b.database_type() == *database_type,
    {
        UpdateQueryBuilder {
            table: String::from_str(table),
            sets: Vec::new(),
            conditions: Vec::new(),
            database_type: copy_database_type(database_type),
        }
    }

    /// Adds the assignment `column = value`.
    pub fn set(self, column: &str, value: &str) -> (b: UpdateQueryBuilder)
        ensures
            b.sets() == self.sets().push(set_term(column@, value@)),
            b.table() == self.table(), b.conditions() == self.conditions(),
            b.database_type() == self.database_type(),
    {
        let mut b = self;
        let mut term = String::from_str(column);
        term.append(" = ");
        term.append(value);
        b.sets.push(term);
        assert(string_views(b.sets@) =~= self.sets().push(set_term(column@, value@)));
        b
    }

    /// Adds a condition; conditions are joined with AND.
    pub fn where_clause(self, condition: &str) -> (b: UpdateQueryBuilder)
        ensures
            b.conditions() == self.conditions().push(condition@),
            b.table() == self.table(), b.sets() == self.sets(),
            b.database_type() == self.database_type(),
    {
        let mut b = self;
        b.conditions.push(String::from_str(condition));
        assert(string_views(b.conditions@) =~= self.conditions().push(condition@));
        b
    }

    /// The UPDATE statement.
    pub fn build(self) -> (q: SqlQuery)
        ensures
            q.sql@ == update_sql(self.table(), self.sets(), self.conditions()),
            q.parameters@.len() == 0,
            q.query_type == QueryType::Update,
    {
        let mut sql = String::from_str("UPDATE ");
        sql.append(self.table.as_str());
        sql.append(" SET ");
        let sets = join_strings(&self.sets, ", ");
        sql.append(sets.as_str());
        append_clause(&mut sql, " WHERE ", &self.conditions, " AND ");
        SqlQuery { sql, parameters: Vec::new(), query_type: QueryType::Update }
    }
}

/// Builds a DELETE statement.
pub struct DeleteQueryBuilder {
    table: String,
    conditions: Vec<String>,
    database_type: DatabaseType,
}

impl DeleteQueryBuilder {
    pub closed spec fn table(&self) -> Seq<char> { self.table@ }
    pub closed spec fn conditions(&self) -> Seq<Seq<char>> { string_views(self.conditions@) }
    pub closed spec fn database_type(&self) -> DatabaseType { self.database_type }

    /// A DELETE from `table`, with no condition yet.
    pub fn new(table: &str, database_type: &DatabaseType) -> (b: DeleteQueryBuilder)
        ensures
            b.table() == table@,
            b.conditions().len() == 0,
            b.database_type() == *database_type,
    {
        DeleteQueryBuilder {
            table: String::from_str(table),
            conditions: Vec::new(),
            database_type: copy_database_type(database_type),
        }
    }

    /// Adds a condition; conditions are joined with AND.
    pub fn where_clause(self, condition: &str) -> (b: DeleteQueryBuilder)
        ensures
            b.conditions() == self.conditions().push(condition@),
            b.table() == self.table(), b.database_type() == self.database_type(),
    {
        let mut b = self;
        b.conditions.push(String::from_str(condition));
        assert(string_views(b.conditions@) =~= self.conditions().push(condition@));
        b
    }

    /// The DELETE statement.
    pub fn build(self) -> (q: SqlQuery)
        ensures
            q.sql@ == delete_sql(self.table(), self.conditions()),
            q.parameters@.len() == 0,
            q.query_type == QueryType::Delete,
    {
        let mut sql = String::from_str("DELETE FROM ");
        sql.append(self.table.as_str());
        append_clause(&mut sql, " WHERE ", &self.conditions, " AND ");
        SqlQuery { sql, parameters: Vec::new(), query_type: QueryType::Delete }
    }
}

/// A connection that runs statements.
pub trait DatabaseConnection {
    /// Runs a statement that changes rows.
    fn execute(&mut self, query: &str, params: &[&dyn DatabaseValue]) -> Result<QueryResult>;
    /// Opens a transaction.
    fn begin_transaction(&mut self) -> Result<MockTransaction>;
    /// Checks that the connection is alive.
    fn ping(&mut self) -> Result<()>;
    /// The connection's id.
    fn get_connection_id(&self) -> String;
}

/// A unit of work that is committed or rolled back as a whole.
pub trait Transaction {
    /// Runs a statement that changes rows.
    fn execute(&mut self, query: &str, params: &[&dyn DatabaseValue]) -> Result<QueryResult>;
    /// Makes the work permanent.
    fn commit(self) -> Result<()>;
    /// Discards the work.
    fn rollback(self) -> Result<()>;
}

/// A cache in front of the database.
pub trait CacheLayer {
    /// The value under `key`, if any.
    fn get(&self, key: &str) -> Result<Option<Vec<u8>>>;
    /// Stores `value` under `key`.
    fn set(&mut self, key: &str, value: &[u8]) -> Result<()>;
    /// Removes `key`; the answer says whether it was there.
    fn delete(&mut self, key: &str) -> Result<bool>;
    /// Removes everything.
    fn clear(&mut self) -> Result<()>;
}

/// A stored record with an id and a table.
pub trait Entity {
    /// The id's type.
    type Id;
    /// The record's id.
    fn get_id(&self) -> &Self::Id;
    /// Gives the record a new id.
    fn set_id(&mut self, id: Self::Id);
    /// The table the records live in.
    fn table_name() -> &'static str;
}

/// A connection that talks to no database: every statement affects one row
/// with insert id 1 after 10 milliseconds.
pub struct MockDatabaseConnection {
    id: String,
}

impl MockDatabaseConnection {
    /// A connection with a fresh random id: the text of a random UUID.
    pub fn new() -> (c: MockDatabaseConnection)
        ensures
            is_v4_uuid_text(c.id()),
    {
        MockDatabaseConnection { id: new_uuid() }
    }

    /// The connection's id.
    pub closed spec fn id(&self) -> Seq<char> {
        self.id@
    }
}

impl DatabaseConnection for MockDatabaseConnection {
    fn execute(&mut self, _query: &str, _params: &[&dyn DatabaseValue]) -> (res: Result<QueryResult>)
        ensures
            res == Ok::<QueryResult, crate::error::ClaudeError>(QueryResult { rows_affected: 1, last_insert_id: Some(1), execution_time_ms: 10 }),
    {
        Ok(QueryResult { rows_affected: 1, last_insert_id: Some(1), execution_time_ms: 10 })
    }

    fn begin_transaction(&mut self) -> (res: Result<MockTransaction>)
        ensures
            res matches Ok(t) && is_v4_uuid_text(t.id()),
    {
        Ok(MockTransaction::new())
    }

    fn ping(&mut self) -> (res: Result<()>)
        ensures
            res is Ok,
    {
        Ok(())
    }

    fn get_connection_id(&self) -> (s: String)
        ensures
            s@ == self.id(),
    {
        self.id.clone()
    }
}

/// A transaction on no database: every statement affects one row with
/// insert id 1 after 5 milliseconds; commit and rollback succeed.
pub struct MockTransaction {
    id: String,
}

impl MockTransaction {
    /// A transaction with a fresh random id: the text of a random UUID.
    pub fn new() -> (t: MockTransaction)
        ensures
            is_v4_uuid_text(t.id()),
    {
        MockTransaction { id: new_uuid() }
    }

    /// The transaction's id.
    pub closed spec fn id(&self) -> Seq<char> {
        self.id@
    }
}

impl Transaction for MockTransaction {
    fn execute(&mut self, _query: &str, _params: &[&dyn DatabaseValue]) -> (res: Result<QueryResult>)
        ensures
            res == Ok::<QueryResult, crate::error::ClaudeError>(QueryResult { rows_affected: 1, last_insert_id: Some(1), execution_time_ms: 5 }),
    {
        Ok(QueryResult { rows_affected: 1, last_insert_id: Some(1), execution_time_ms: 5 })
    }

    fn commit(self) -> (res: Result<()>)
        ensures
            res is Ok,
    {
        Ok(())
    }

    fn rollback(self) -> (res: Result<()>)
        ensures
            res is Ok,
    {
        Ok(())
    }
}

/// A cache layer held in memory.
pub struct MemoryCacheLayer {
    cache: Vec<(String, Vec<u8>)>,
}

impl MemoryCacheLayer {
    #[verifier::type_invariant]
    spec fn keys_distinct(self) -> bool {
        unique_keys(self.cache@)
    }

    /// The cached bytes by key.
    pub closed spec fn contents(&self) -> Map<Seq<char>, Seq<u8>> {
        key_map(self.cache@).map_values(|v: Vec<u8>| v@)
    }

    /// An empty layer.
    pub fn new() -> (c: MemoryCacheLayer)
        ensures
            c.contents() == Map::<Seq<char>, Seq<u8>>::empty(),
    {
        let c = MemoryCacheLayer { cache: Vec::new() };
        assert(c.contents() =~= Map::<Seq<char>, Seq<u8>>::empty());
        c
    }
}

fn bytes_copy(v: &[u8]) -> (r: Vec<u8>)
    ensures
        r@ == v@,
{
    let mut r: Vec<u8> = Vec::new();
    let mut i: usize = 0;
    while i < v.len()
        invariant
            i <= v@.len(),
            r@ == v@.take(i as int),
        decreases v.len() - i,
    {
        r.push(v[i]);
        i = i + 1;
        assert(r@ =~= v@.take(i as int));
    }
    assert(v@.take(v@.len() as int) =~= v@);
    r
}

impl CacheLayer for MemoryCacheLayer {
    fn get(&self, key: &str) -> (res: Result<Option<Vec<u8>>>)
        ensures
            res matches Ok(o) && (o is Some <==> self.contents().contains_key(key@))
                && (o matches Some(v) ==> v@ == self.contents()[key@]),
    {
        proof { use_type_invariant(self); }
        match find_key(&self.cache, key) {
            Some(i) => {
                proof { lemma_key_at(self.cache@, i as int); }
                Ok(Some(bytes_copy(self.cache[i].1.as_slice())))
            },
            None => Ok(None),
        }
    }

    fn set(&mut self, key: &str, value: &[u8]) -> (res: Result<()>)
        ensures
            res is Ok,
            final(self).contents() == old(self).contents().insert(key@, value@),
    {
        proof { use_type_invariant(&*self); }
        let mut cache: Vec<(String, Vec<u8>)> = Vec::new();
        std::mem::swap(&mut cache, &mut self.cache);
        let ghost before = cache@;
        let item = (String::from_str(key), bytes_copy(value));
        match find_key(&cache, key) {
            Some(i) => {
                proof { lemma_key_update(before, i as int, item); }
                cache.set(i, item);
            },
            None => {
                proof { lemma_key_push(before, item); }
                cache.push(item);
            },
        }
        self.cache = cache;
        assert(self.contents() =~= old(self).contents().insert(key@, value@));
        Ok(())
    }

    fn delete(&mut self, key: &str) -> (res: Result<bool>)
        ensures
            res matches Ok(b) && b == old(self).contents().contains_key(key@),
            final(self).contents() == old(self).contents().remove(key@),
    {
        proof { use_type_invariant(&*self); }
        let mut cache: Vec<(String, Vec<u8>)> = Vec::new();
        std::mem::swap(&mut cache, &mut self.cache);
        let ghost before = cache@;
        let found = match find_key(&cache, key) {
            Some(i) => {
                proof { lemma_key_remove(before, i as int); lemma_key_at(before, i as int); }
                let _gone = cache.remove(i);
                true
            },
            None => false,
        };
        self.cache = cache;
        assert(self.contents() =~= old(self).contents().remove(key@));
        Ok(found)
    }

    fn clear(&mut self) -> (res: Result<()>)
        ensures
            res is Ok,
            final(self).contents() == Map::<Seq<char>, Seq<u8>>::empty(),
    {
        self.cache = Vec::new();
        assert(self.contents() =~= Map::<Seq<char>, Seq<u8>>::empty());
        Ok(())
    }
}

/// The key under which the rows of a query are cached: `query:`, the MD5
/// of the query text in hexadecimal, `:params:`, and the MD5 of the
/// parameters' SQL texts joined with commas.
pub open spec fn cache_key_of(query: Seq<char>, params: Seq<Seq<char>>) -> Seq<char> {
    "query:"@ + hex_lower(md5_of(vstd::utf8::encode_utf8(query))) + ":params:"@
        + hex_lower(md5_of(vstd::utf8::encode_utf8(seq_join(params, ","@))))
}

/// The cache key of `query` with parameters whose SQL texts are `params`.
pub fn generate_cache_key(query: &str, params: &Vec<String>) -> (key: String)
    ensures
        key@ == cache_key_of(query@, string_views(params@)),
{
    let q = md5_hex(query.as_bytes());
    let joined = join_strings(params, ",");
    let p = md5_hex(joined.as_str().as_bytes());
    let mut key = String::from_str("query:");
    key.append(q.as_str());
    key.append(":params:");
    key.append(p.as_str());
    key
}

} // verus!

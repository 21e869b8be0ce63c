//! Database query utilities: the typed primitives that statements are
//! assembled from, and the exact text each primitive renders to.

use vstd::prelude::*;
use crate::model::{status_code, table_text, ItemStatus, Tables};
use crate::text::{
    dec_digits, i64_text, int_text, join_strings, join_texts, quote_string, quoted_text, u64_text,
    usize_text, views_of,
};

pub mod projects;
pub mod tasks;

verus! {

/// A typed value interpolated into statement text: integers render bare,
/// text renders wrapped in single quotes.
#[derive(Clone, Debug)]
pub enum SqlValue {
    Int(i64),
    Uint(u64),
    Text(String),
}

/// The exact text a value renders to.
pub open spec fn value_text(v: SqlValue) -> Seq<char> {
    match v {
        SqlValue::Int(i) => int_text(i as int),
        SqlValue::Uint(u) => dec_digits(u as nat),
        SqlValue::Text(s) => quoted_text(s@),
    }
}

impl SqlValue {
    /// Renders the value as statement text.
    pub fn to_text(&self) -> (r: String)
        ensures
            r@ == value_text(*self),
    {
        match self {
            SqlValue::Int(i) => i64_text(*i),
            SqlValue::Uint(u) => u64_text(*u),
            SqlValue::Text(s) => quote_string(s.as_str()),
        }
    }
}

/// Columns to use in query.
#[derive(Clone, Debug)]
pub enum QueryCols {
    /// All columns
    All,
    /// Subset of row columns by name
    Named(Vec<String>),
}

/// The projection list as it appears after SELECT.
pub open spec fn cols_text(c: QueryCols) -> Seq<char> {
    match c {
        QueryCols::All => "*"@,
        QueryCols::Named(cols) => join_texts(views_of(cols@), ", "@),
    }
}

impl QueryCols {
    /// Renders the projection list.
    pub fn to_text(&self) -> (r: String)
        ensures
            r@ == cols_text(*self),
    {
        match self {
            QueryCols::All => "*".to_owned(),
            QueryCols::Named(cols) => join_strings(cols, ", "),
        }
    }
}

/// Update action for a database column: set it to a value, set it to
/// NULL, or leave it out of the write entirely.
#[derive(Clone, Copy, Debug)]
pub enum UpdateAction<T> {
    /// Update column with a value
    Value(T),
    /// Set column to null
    Null,
    /// Don't update column
    Untouched,
}

impl<T> UpdateAction<T> {
    /// True if the action leaves the column out of the write.
    pub fn is_untouched(&self) -> (r: bool)
        ensures
            r == (*self is Untouched),
    {
        match self {
            UpdateAction::Untouched => true,
            _ => false,
        }
    }

    /// Wraps an optional value: present means set, absent means leave
    /// untouched.
    pub fn from_option(value: Option<T>) -> (r: UpdateAction<T>)
        ensures
            r == match value {
                Option::Some(v) => UpdateAction::Value(v),
                Option::None => UpdateAction::<T>::Untouched,
            },
    {
        match value {
            Option::Some(v) => UpdateAction::Value(v),
            Option::None => UpdateAction::Untouched,
        }
    }
}

impl UpdateAction<String> {
    /// Reads a free-form input: empty text means clear the column, any
    /// other text means set it.
    pub fn from_text(value: String) -> (r: UpdateAction<String>)
        ensures
            value@.len() == 0 ==> r is Null,
            value@.len() > 0 ==> (r matches UpdateAction::Value(v) && v == value),
    {
        if value.as_str().is_empty() {
            UpdateAction::Null
        } else {
            UpdateAction::Value(value)
        }
    }
}

/// The fragments contributed by an action over a text column.
pub open spec fn text_action_texts(col: Seq<char>, a: UpdateAction<String>) -> Seq<Seq<char>> {
    match a {
        UpdateAction::Value(v) => seq![col + " = "@ + quoted_text(v@)],
        UpdateAction::Null => seq![col + " = NULL"@],
        UpdateAction::Untouched => seq![],
    }
}

/// The fragments contributed by an action over an unsigned numeric column.
pub open spec fn u64_action_texts(col: Seq<char>, a: UpdateAction<u64>) -> Seq<Seq<char>> {
    match a {
        UpdateAction::Value(v) => seq![col + " = "@ + dec_digits(v as nat)],
        UpdateAction::Null => seq![col + " = NULL"@],
        UpdateAction::Untouched => seq![],
    }
}

/// The fragments contributed by an action over the status column, which
/// stores the integer code of the status.
pub open spec fn status_action_texts(col: Seq<char>, a: UpdateAction<ItemStatus>) -> Seq<Seq<char>> {
    match a {
        UpdateAction::Value(s) => seq![col + " = "@ + dec_digits(status_code(s))],
        UpdateAction::Null => seq![col + " = NULL"@],
        UpdateAction::Untouched => seq![],
    }
}

/// Appends the fragment for an action over a text column, if any.
pub fn push_text_action(list: &mut Vec<String>, col: &str, a: &UpdateAction<String>)
    ensures
        views_of(final(list)@) == views_of(old(list)@) + text_action_texts(col@, *a),
{
    match a {
        UpdateAction::Value(v) => {
            let mut s = col.to_owned();
            s.append(" = ");
            s.append(quote_string(v.as_str()).as_str());
            list.push(s);
        }
        UpdateAction::Null => {
            let mut s = col.to_owned();
            s.append(" = NULL");
            list.push(s);
        }
        UpdateAction::Untouched => {}
    }
    proof {
        assert(views_of(final(list)@) =~= views_of(old(list)@) + text_action_texts(col@, *a));
    }
}

/// Appends the fragment for an action over an unsigned numeric column, if
/// any.
pub fn push_u64_action(list: &mut Vec<String>, col: &str, a: &UpdateAction<u64>)
    ensures
        views_of(final(list)@) == views_of(old(list)@) + u64_action_texts(col@, *a),
{
    match a {
        UpdateAction::Value(v) => {
            let mut s = col.to_owned();
            s.append(" = ");
            s.append(u64_text(*v).as_str());
            list.push(s);
        }
        UpdateAction::Null => {
            let mut s = col.to_owned();
            s.append(" = NULL");
            list.push(s);
        }
        UpdateAction::Untouched => {}
    }
    proof {
        assert(views_of(final(list)@) =~= views_of(old(list)@) + u64_action_texts(col@, *a));
    }
}

/// Appends the fragment for an action over the status column, if any.
pub fn push_status_action(list: &mut Vec<String>, col: &str, a: &UpdateAction<ItemStatus>)
    ensures
        views_of(final(list)@) == views_of(old(list)@) + status_action_texts(col@, *a),
{
    match a {
        UpdateAction::Value(v) => {
            let mut s = col.to_owned();
            s.append(" = ");
            s.append(u64_text(v.code()).as_str());
            list.push(s);
        }
        UpdateAction::Null => {
            let mut s = col.to_owned();
            s.append(" = NULL");
            list.push(s);
        }
        UpdateAction::Untouched => {}
    }
    proof {
        assert(views_of(final(list)@) =~= views_of(old(list)@) + status_action_texts(col@, *a));
    }
}

/// Table column to order selection by.
#[derive(Clone, Copy, PartialEq, Eq, Structural, Debug)]
pub enum OrderBy {
    Id,
    Name,
    Priority,
}

/// The column name an ordering choice renders to.
pub open spec fn order_by_text(o: OrderBy) -> Seq<char> {
    match o {
        OrderBy::Id => "id"@,
        OrderBy::Name => "name"@,
        OrderBy::Priority => "priority"@,
    }
}

impl OrderBy {
    /// The ordering column's name.
    pub fn text(&self) -> (r: &'static str)
        ensures
            r@ == order_by_text(*self),
    {
        match self {
            OrderBy::Id => "id",
            OrderBy::Name => "name",
            OrderBy::Priority => "priority",
        }
    }
}

/// Direction of selection order.
/// Asc: smallest value to largest.
/// Desc: largest value to smallest.
#[derive(Clone, Copy, PartialEq, Eq, Structural, Debug)]
pub enum OrderDir {
    Asc,
    Desc,
}

/// The keyword a direction renders to.
pub open spec fn order_dir_text(d: OrderDir) -> Seq<char> {
    match d {
        OrderDir::Asc => "ASC"@,
        OrderDir::Desc => "DESC"@,
    }
}

impl OrderDir {
    /// The direction's keyword.
    pub fn text(&self) -> (r: &'static str)
        ensures
            r@ == order_dir_text(*self),
    {
        match self {
            OrderDir::Asc => "ASC",
            OrderDir::Desc => "DESC",
        }
    }
}

/// Defines the total number of rows to limit a query to.
#[derive(Clone, Copy, PartialEq, Eq, Structural, Debug)]
pub enum RowLimit {
    /// A set number of rows
    Limit(usize),
    /// No limit of rows
    All,
}

/// The order column a selection resolves to: the caller's choice if
/// present, else the entity's default.
pub open spec fn resolved_order_by(chosen: Option<OrderBy>, default_col: OrderBy) -> OrderBy {
    match chosen {
        Option::Some(o) => o,
        Option::None => default_col,
    }
}

/// The direction a selection resolves to: the caller's choice if present;
/// else descending for the priority column and ascending for any other.
pub open spec fn resolved_order_dir(chosen: Option<OrderDir>, col: OrderBy) -> OrderDir {
    match chosen {
        Option::Some(d) => d,
        Option::None => if col is Priority {
            OrderDir::Desc
        } else {
            OrderDir::Asc
        },
    }
}

/// The OFFSET clause, when an offset is given.
pub open spec fn offset_text(offset: Option<usize>) -> Seq<char> {
    match offset {
        Option::Some(n) => " OFFSET "@ + dec_digits(n as nat),
        Option::None => Seq::empty(),
    }
}

/// The pagination tail of a selection: an explicit cap is honored along
/// with any offset; an explicit "all rows" drops both the cap and the
/// offset; no choice at all applies the conservative default cap of 10.
pub open spec fn pagination_text(limit: Option<RowLimit>, offset: Option<usize>) -> Seq<char> {
    match limit {
        Option::Some(RowLimit::Limit(n)) => " LIMIT "@ + dec_digits(n as nat) + offset_text(offset),
        Option::Some(RowLimit::All) => Seq::empty(),
        Option::None => " LIMIT 10"@ + offset_text(offset),
    }
}

/// The WHERE clause, when a condition is given.
pub open spec fn where_text(cond: Option<Seq<char>>) -> Seq<char> {
    match cond {
        Option::Some(c) => " WHERE "@ + c,
        Option::None => Seq::empty(),
    }
}

/// The view of an optional condition string.
pub open spec fn cond_view(cond: Option<String>) -> Option<Seq<char>> {
    match cond {
        Option::Some(c) => Option::Some(c@),
        Option::None => Option::None,
    }
}

/// The complete text of an insertion naming the given columns and values.
pub open spec fn insert_sql(table: Seq<char>, pairs: Seq<(Seq<char>, Seq<char>)>) -> Seq<char> {
    "INSERT INTO "@ + table + "("@ + join_texts(pairs.map_values(|p: (Seq<char>, Seq<char>)| p.0), ", "@)
        + ") VALUES("@ + join_texts(pairs.map_values(|p: (Seq<char>, Seq<char>)| p.1), ", "@) + ");"@
}

/// The complete text of a deletion; an absent condition deletes every row
/// of the table.
pub open spec fn delete_sql(table: Seq<char>, cond: Option<Seq<char>>) -> Seq<char> {
    "DELETE FROM "@ + table + where_text(cond) + ";"@
}

/// The complete text of an update; an absent condition updates every row.
pub open spec fn update_sql(table: Seq<char>, assignments: Seq<Seq<char>>, cond: Option<Seq<char>>) -> Seq<char> {
    "UPDATE "@ + table + " SET "@ + join_texts(assignments, ", "@) + where_text(cond) + ";"@
}

/// The complete text of a selection with fully resolved ordering and
/// pagination.
pub open spec fn select_sql(
    cols: Seq<char>,
    table: Seq<char>,
    cond: Option<Seq<char>>,
    order_col: OrderBy,
    order_dir: OrderDir,
    limit: Option<RowLimit>,
    offset: Option<usize>,
) -> Seq<char> {
    "SELECT "@ + cols + " FROM "@ + table + where_text(cond) + " ORDER BY "@ + order_by_text(order_col)
        + " "@ + order_dir_text(order_dir) + pagination_text(limit, offset) + ";"@
}

/// Key value pairs for a query (ie. ("name", 'lorem ipsum')).
#[derive(Clone, Debug)]
pub struct KeyValuePairs(pub Vec<(String, SqlValue)>);

/// The rendered (column, value) texts of a pair list.
pub open spec fn pair_texts(kvs: Seq<(String, SqlValue)>) -> Seq<(Seq<char>, Seq<char>)> {
    kvs.map_values(|p: (String, SqlValue)| (p.0@, value_text(p.1)))
}

/// The pair a present optional text value contributes, quoted; an absent
/// value contributes nothing.
pub open spec fn opt_text_pair(key: Seq<char>, value: Option<String>) -> Seq<(Seq<char>, Seq<char>)> {
    match value {
        Option::Some(v) => seq![(key, quoted_text(v@))],
        Option::None => seq![],
    }
}

impl KeyValuePairs {
    /// Push a key value pair to the vector of pairs if the value is
    /// present.
    pub fn push_pairs_if_some(&mut self, key: &str, value: Option<String>)
        ensures
            pair_texts(final(self).0@) == pair_texts(old(self).0@) + opt_text_pair(key@, value),
    {
        match value {
            Option::Some(v) => {
                self.0.push((key.to_owned(), SqlValue::Text(v)));
            }
            Option::None => {}
        }
        proof {
            assert(pair_texts(final(self).0@) =~= pair_texts(old(self).0@) + opt_text_pair(key@, value));
        }
    }

    /// Returns the column list and the value list as separate strings.
    pub fn key_value_strings(&self) -> (r: (String, String))
        ensures
            r.0@ == join_texts(pair_texts(self.0@).map_values(|p: (Seq<char>, Seq<char>)| p.0), ", "@),
            r.1@ == join_texts(pair_texts(self.0@).map_values(|p: (Seq<char>, Seq<char>)| p.1), ", "@),
    {
        let mut keys: Vec<String> = Vec::new();
        let mut vals: Vec<String> = Vec::new();
        let mut i: usize = 0;
        while i < self.0.len()
            invariant
                0 <= i <= self.0@.len(),
                keys@.len() == i,
                vals@.len() == i,
                forall|j: int| 0 <= j < i ==> (#[trigger] keys@[j])@ == self.0@[j].0@,
                forall|j: int| 0 <= j < i ==> (#[trigger] vals@[j])@ == value_text(self.0@[j].1),
            decreases self.0@.len() - i,
        {
            keys.push(self.0[i].0.clone());
            vals.push(self.0[i].1.to_text());
            i += 1;
        }
        proof {
            assert(views_of(keys@) =~= pair_texts(self.0@).map_values(
                |p: (Seq<char>, Seq<char>)| p.0,
            ));
            assert(views_of(vals@) =~= pair_texts(self.0@).map_values(
                |p: (Seq<char>, Seq<char>)| p.1,
            ));
        }
        (join_strings(&keys, ", "), join_strings(&vals, ", "))
    }

    /// Renders the complete insertion text for a table from the held
    /// pairs.
    pub fn insert_statement(&self, table: Tables) -> (r: String)
        ensures
            r@ == insert_sql(table_text(table), pair_texts(self.0@)),
    {
        let (keys, vals) = self.key_value_strings();
        let mut r = "INSERT INTO ".to_owned();
        r.append(table.text());
        r.append("(");
        r.append(keys.as_str());
        r.append(") VALUES(");
        r.append(vals.as_str());
        r.append(");");
        r
    }
}

/// Database statement conditions: the closed set of comparison forms over
/// one column, each rendering to one canonical fragment. Combining more
/// than two fragments without explicit parenthesization can mis-associate;
/// the model performs no automatic grouping.
#[derive(Clone, Debug)]
pub enum QueryConditions {
    Equal { col: String, value: SqlValue },
    NotEqual { col: String, value: SqlValue },
    GreaterThan { col: String, value: SqlValue },
    LessThan { col: String, value: SqlValue },
    GreaterThanOrEqual { col: String, value: SqlValue },
    LessThanOrEqual { col: String, value: SqlValue },
    Between { col: String, low: SqlValue, high: SqlValue },
    Like { col: String, value: SqlValue },
    In { col: String, values: Vec<SqlValue> },
}

/// The canonical fragment a condition renders to.
pub open spec fn cond_text(c: QueryConditions) -> Seq<char> {
    match c {
        QueryConditions::Equal { col, value } => col@ + " = "@ + value_text(value),
        QueryConditions::NotEqual { col, value } => col@ + " != "@ + value_text(value),
        QueryConditions::GreaterThan { col, value } => col@ + " > "@ + value_text(value),
        QueryConditions::LessThan { col, value } => col@ + " < "@ + value_text(value),
        QueryConditions::GreaterThanOrEqual { col, value } => col@ + " >= "@ + value_text(value),
        QueryConditions::LessThanOrEqual { col, value } => col@ + " <= "@ + value_text(value),
        QueryConditions::Between { col, low, high } => col@ + " BETWEEN "@ + value_text(low)
            + " AND "@ + value_text(high),
        QueryConditions::Like { col, value } => col@ + " LIKE "@ + value_text(value),
        QueryConditions::In { col, values } => col@ + " IN ("@ + join_texts(
            values@.map_values(|v: SqlValue| value_text(v)),
            ", "@,
        ) + ")"@,
    }
}

impl QueryConditions {
    /// Renders the condition as one canonical fragment.
    pub fn to_text(&self) -> (r: String)
        ensures
            r@ == cond_text(*self),
    {
        match self {
            QueryConditions::Equal { col, value } => cond_binop(col, " = ", value),
            QueryConditions::NotEqual { col, value } => cond_binop(col, " != ", value),
            QueryConditions::GreaterThan { col, value } => cond_binop(col, " > ", value),
            QueryConditions::LessThan { col, value } => cond_binop(col, " < ", value),
            QueryConditions::GreaterThanOrEqual { col, value } => cond_binop(col, " >= ", value),
            QueryConditions::LessThanOrEqual { col, value } => cond_binop(col, " <= ", value),
            QueryConditions::Between { col, low, high } => {
                let mut r = col.clone();
                r.append(" BETWEEN ");
                r.append(low.to_text().as_str());
                r.append(" AND ");
                r.append(high.to_text().as_str());
                r
            }
            QueryConditions::Like { col, value } => cond_binop(col, " LIKE ", value),
            QueryConditions::In { col, values } => {
                let mut texts: Vec<String> = Vec::new();
                let mut i: usize = 0;
                while i < values.len()
                    invariant
                        0 <= i <= values@.len(),
                        texts@.len() == i,
                        forall|j: int| 0 <= j < i ==> (#[trigger] texts@[j])@ == value_text(
                            values@[j],
                        ),
                    decreases values@.len() - i,
                {
                    texts.push(values[i].to_text());
                    i += 1;
                }
                proof {
                    assert(views_of(texts@) =~= values@.map_values(|v: SqlValue| value_text(v)));
                }
                let mut r = col.clone();
                r.append(" IN (");
                r.append(join_strings(&texts, ", ").as_str());
                r.append(")");
                r
            }
        }
    }
}

/// Renders one `column <op> value` fragment.
fn cond_binop(col: &String, op: &str, value: &SqlValue) -> (r: String)
    ensures
        r@ == col@ + op@ + value_text(*value),
{
    let mut r = col.clone();
    r.append(op);
    r.append(value.to_text().as_str());
    r
}

/// Renders a complete selection with resolved ordering and pagination:
/// the shared shape behind every per-entity select query.
pub fn build_select_statement(
    cols: &QueryCols,
    table: Tables,
    default_order: OrderBy,
    condition: &Option<String>,
    order_by: &Option<OrderBy>,
    order_dir: &Option<OrderDir>,
    limit: &Option<RowLimit>,
    offset: &Option<usize>,
) -> (r: String)
    ensures
        r@ == select_sql(
            cols_text(*cols),
            table_text(table),
            cond_view(*condition),
            resolved_order_by(*order_by, default_order),
            resolved_order_dir(*order_dir, resolved_order_by(*order_by, default_order)),
            *limit,
            *offset,
        ),
{
    let ghost spec_ord = resolved_order_by(*order_by, default_order);
    let ghost spec_dir = resolved_order_dir(*order_dir, spec_ord);
    let mut r = "SELECT ".to_owned();
    r.append(cols.to_text().as_str());
    r.append(" FROM ");
    r.append(table.text());
    match condition {
        Option::Some(c) => {
            r.append(" WHERE ");
            r.append(c.as_str());
        }
        Option::None => {}
    }
    proof {
        assert(r@ =~= "SELECT "@ + cols_text(*cols) + " FROM "@ + table_text(table) + where_text(
            cond_view(*condition),
        ));
    }
    r.append(" ORDER BY ");
    let ord = match order_by {
        Option::Some(o) => *o,
        Option::None => default_order,
    };
    r.append(ord.text());
    r.append(" ");
    let dir = match order_dir {
        Option::Some(d) => *d,
        Option::None => match ord {
            OrderBy::Priority => OrderDir::Desc,
            _ => OrderDir::Asc,
        },
    };
    r.append(dir.text());
    let ghost prefix = r@;
    proof {
        assert(ord == spec_ord);
        assert(dir == spec_dir);
    }
    match limit {
        Option::Some(RowLimit::Limit(n)) => {
            r.append(" LIMIT ");
            r.append(usize_text(*n).as_str());
            append_offset(&mut r, offset);
        }
        Option::Some(RowLimit::All) => {}
        Option::None => {
            r.append(" LIMIT 10");
            append_offset(&mut r, offset);
        }
    }
    proof {
        assert(r@ =~= prefix + pagination_text(*limit, *offset));
    }
    r.append(";");
    r
}

/// Appends the OFFSET clause, when an offset is given.
fn append_offset(r: &mut String, offset: &Option<usize>)
    ensures
        final(r)@ == old(r)@ + offset_text(*offset),
{
    match offset {
        Option::Some(n) => {
            r.append(" OFFSET ");
            r.append(usize_text(*n).as_str());
        }
        Option::None => {}
    }
    proof {
        assert(final(r)@ =~= old(r)@ + offset_text(*offset));
    }
}

/// Renders a complete deletion; an absent condition deletes every row.
pub fn build_delete_statement(table: Tables, condition: &Option<String>) -> (r: String)
    ensures
        r@ == delete_sql(table_text(table), cond_view(*condition)),
{
    let mut r = "DELETE FROM ".to_owned();
    r.append(table.text());
    match condition {
        Option::Some(c) => {
            r.append(" WHERE ");
            r.append(c.as_str());
        }
        Option::None => {}
    }
    r.append(";");
    proof {
        assert(r@ =~= delete_sql(table_text(table), cond_view(*condition)));
    }
    r
}

/// Renders a complete update from already-rendered assignment fragments;
/// an absent condition updates every row.
pub fn build_update_statement(table: Tables, assignments: &Vec<String>, condition: &Option<String>) -> (r: String)
    ensures
        r@ == update_sql(table_text(table), views_of(assignments@), cond_view(*condition)),
{
    let mut r = "UPDATE ".to_owned();
    r.append(table.text());
    r.append(" SET ");
    r.append(join_strings(assignments, ", ").as_str());
    match condition {
        Option::Some(c) => {
            r.append(" WHERE ");
            r.append(c.as_str());
        }
        Option::None => {}
    }
    r.append(";");
    proof {
        assert(r@ =~= update_sql(table_text(table), views_of(assignments@), cond_view(*condition)));
    }
    r
}

/// Database query for assigning a task to a project.
pub struct AssignTaskQuery {
    pub task_id: i64,
    pub project_id: i64,
}

/// The insertion text that records one task-to-project assignment.
pub open spec fn assign_task_sql(task_id: i64, project_id: i64) -> Seq<char> {
    insert_sql(
        table_text(Tables::TaskAssignments),
        seq![("task_id"@, int_text(task_id as int)), ("project_id"@, int_text(project_id as int))],
    )
}

impl AssignTaskQuery {
    /// Holds the pair of identifiers to record.
    pub fn new(task_id: i64, project_id: i64) -> (r: Self)
        ensures
            r.task_id == task_id,
            r.project_id == project_id,
    {
        Self { task_id, project_id }
    }

    /// Creates the query string from struct data.
    pub fn build_query_string(&self) -> (r: String)
        ensures
            r@ == assign_task_sql(self.task_id, self.project_id),
    {
        let mut pairs = KeyValuePairs(Vec::new());
        pairs.0.push(("task_id".to_owned(), SqlValue::Int(self.task_id)));
        pairs.0.push(("project_id".to_owned(), SqlValue::Int(self.project_id)));
        proof {
            assert(pair_texts(pairs.0@) =~= seq![
                ("task_id"@, int_text(self.task_id as int)),
                ("project_id"@, int_text(self.project_id as int)),
            ]);
        }
        pairs.insert_statement(Tables::TaskAssignments)
    }
}

} // verus!

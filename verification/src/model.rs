//! The generic entity mapper: sparse field sets, the SQL statements built
//! from them, and the reading of what the store answers.

use vstd::prelude::*;
use chrono::{NaiveDate, NaiveDateTime};
use sea_query::{
    Alias, DeleteStatement, Expr, Query, QueryStatementWriter, SelectStatement, SimpleExpr,
    SqliteQueryBuilder, UpdateStatement, Value, Values,
};
use crate::model::error::Error;

pub mod book;
pub mod borrowing;
pub mod category;
pub mod error;
pub mod reservation;
pub mod review;
pub mod user;

verus! {

/// A calendar date of `chrono`, carried through unread.
#[verifier::external_type_specification]
#[verifier::external_body]
pub struct ExNaiveDate(NaiveDate);

/// A date and time of `chrono`, carried through unread.
#[verifier::external_type_specification]
#[verifier::external_body]
pub struct ExNaiveDateTime(NaiveDateTime);

/// The values that `sea_query` collects for the placeholders of a
/// statement, in the order of the placeholders.
#[verifier::external_type_specification]
#[verifier::external_body]
pub struct ExValues(Values);

/// A value bound to a statement.
#[derive(Debug)]
pub enum SqlValue {
    Int(i64),
    Text(String),
    Bool(bool),
    Date(NaiveDate),
}

/// The mathematical value of a [`SqlValue`].
pub enum SqlValueView {
    Int(i64),
    Text(Seq<char>),
    Bool(bool),
    Date(NaiveDate),
}

impl View for SqlValue {
    type V = SqlValueView;

    open spec fn view(&self) -> SqlValueView {
        match *self {
            SqlValue::Int(i) => SqlValueView::Int(i),
            SqlValue::Text(s) => SqlValueView::Text(s@),
            SqlValue::Bool(b) => SqlValueView::Bool(b),
            SqlValue::Date(d) => SqlValueView::Date(d),
        }
    }
}

/// One present attribute of an entity: a column and the value it gets.
#[derive(Debug)]
pub struct Field {
    pub column: &'static str,
    pub value: SqlValue,
}

/// The mathematical value of a [`Field`].
pub struct FieldView {
    pub column: Seq<char>,
    pub value: SqlValueView,
}

impl View for Field {
    type V = FieldView;

    open spec fn view(&self) -> FieldView {
        FieldView { column: self.column@, value: self.value@ }
    }
}

/// The values of a list of fields, in order.
pub open spec fn fields_view(fields: Seq<Field>) -> Seq<FieldView> {
    Seq::new(fields.len(), |i: int| fields[i]@)
}

/// The column names of a list of fields, in order.
pub open spec fn columns_of(fields: Seq<FieldView>) -> Seq<Seq<char>> {
    Seq::new(fields.len(), |i: int| fields[i].column)
}

/// The bound values of a list of fields, in order.
pub open spec fn values_of(fields: Seq<FieldView>) -> Seq<SqlValueView> {
    Seq::new(fields.len(), |i: int| fields[i].value)
}

/// The texts of a list of names, in order.
pub open spec fn names(columns: Seq<&'static str>) -> Seq<Seq<char>> {
    Seq::new(columns.len(), |i: int| columns[i]@)
}

/// The mathematical values of a list of bound values, in order.
pub open spec fn values_view(values: Seq<SqlValue>) -> Seq<SqlValueView> {
    Seq::new(values.len(), |i: int| values[i]@)
}

/// A statement for the store: its text, with one placeholder for each bound
/// value, and the values in the order of their placeholders.
#[derive(Debug)]
pub struct Statement {
    pub sql: String,
    pub values: Vec<SqlValue>,
}

/// The mathematical value of a [`Statement`].
pub struct StatementView {
    pub sql: Seq<char>,
    pub values: Seq<SqlValueView>,
}

impl View for Statement {
    type V = StatementView;

    open spec fn view(&self) -> StatementView {
        StatementView { sql: self.sql@, values: values_view(self.values@) }
    }
}

/// The text `sea_query` writes for SQLite for an insert of one row into
/// `table` that names `columns`, binds one placeholder for each and
/// returns the column `returning`.
pub uninterp spec fn insert_text(table: Seq<char>, columns: Seq<Seq<char>>, returning: Seq<char>) -> Seq<char>;

/// The text `sea_query` writes for SQLite for a select of `columns` from
/// `table`, restricted to the rows in which each of `filters` equals a
/// bound placeholder.
pub uninterp spec fn select_text(table: Seq<char>, columns: Seq<Seq<char>>, filters: Seq<Seq<char>>) -> Seq<char>;

/// The text `sea_query` writes for SQLite for an update of `table` that
/// sets each of `columns` to a bound placeholder, in the rows in which
/// each of `filters` equals a bound placeholder.
pub uninterp spec fn update_text(table: Seq<char>, columns: Seq<Seq<char>>, filters: Seq<Seq<char>>) -> Seq<char>;

/// The text `sea_query` writes for SQLite for a delete from `table` of the
/// rows in which each of `filters` equals a bound placeholder.
pub uninterp spec fn delete_text(table: Seq<char>, filters: Seq<Seq<char>>) -> Seq<char>;

/// The text `sea_query` writes for SQLite for a count of the rows of `table`.
pub uninterp spec fn count_text(table: Seq<char>) -> Seq<char>;

/// What a list of values of `sea_query` holds, in order, where each is a
/// 64-bit integer, a text, a truth value or a date that is not null;
/// `None` where one is of another kind.
pub uninterp spec fn collected(values: Values) -> Option<Seq<SqlValueView>>;

/// Makes the list of `sea_query` values that holds `values`, each through
/// `sea_query::Value::from`.
#[verifier::external_body]
fn sea_values(values: &Vec<SqlValue>) -> (r: Values)
    ensures
        collected(r) == Some(values_view(values@)),
{
    let one = |v: &SqlValue| -> Value {
        match v {
            SqlValue::Int(i) => Value::from(*i),
            SqlValue::Text(s) => Value::from(s.as_str()),
            SqlValue::Bool(b) => Value::from(*b),
            SqlValue::Date(d) => Value::from(*d),
        }
    };
    Values(values.iter().map(one).collect())
}

/// Hands out what a list of `sea_query` values holds, one plain value
/// for each of its items, or nothing where an item is of another kind.
#[verifier::external_body]
fn plain_values(values: Values) -> (r: Option<Vec<SqlValue>>)
    ensures
        match r {
            Some(plain) => collected(values) == Some(values_view(plain@)),
            None => collected(values) is None,
        },
{
    let one = |v: Value| -> Option<SqlValue> {
        match v {
            Value::BigInt(Some(i)) => Some(SqlValue::Int(i)),
            Value::String(Some(s)) => Some(SqlValue::Text(*s)),
            Value::Bool(Some(b)) => Some(SqlValue::Bool(b)),
            Value::ChronoDate(Some(d)) => Some(SqlValue::Date(*d)),
            _ => None,
        }
    };
    values.0.into_iter().map(one).collect()
}

/// Builds an insert with `sea_query::InsertStatement` and writes it with
/// `SqliteQueryBuilder`. The builder refuses a row whose number of values
/// differs from the number of columns, and nothing else. Every value is
/// written as a placeholder, so the text depends on the table and the
/// columns alone, and the values come back in the order of their
/// placeholders, which is the order they were given in.
#[verifier::external_body]
fn sqlite_insert(table: &str, columns: &Vec<&'static str>, values: &Values, returning: &str) -> (r: Result<
    (String, Values),
    String,
>)
    requires
        collected(*values) is Some,
    ensures
        r is Ok <==> columns@.len() == collected(*values)->0.len(),
        r matches Ok(built) ==> built.0@ == insert_text(table@, names(columns@), returning@) && collected(
            built.1,
        ) == collected(*values),
{
    let mut query = Query::insert();
    query.into_table(Alias::new(table)).columns(columns.iter().map(|c| Alias::new(*c)));
    match query.values(values.0.iter().cloned().map(SimpleExpr::Value)) {
        Ok(q) => Ok(q.returning_col(Alias::new(returning)).build(SqliteQueryBuilder)),
        Err(e) => Err(e.to_string()),
    }
}

/// Builds a select with `sea_query::SelectStatement` and writes it with
/// `SqliteQueryBuilder`: the columns, the table, and one equality
/// condition for each filter, joined by `AND`. The values come back in
/// the order of the conditions.
#[verifier::external_body]
fn sqlite_select(table: &str, columns: &Vec<&'static str>, filters: &Vec<&'static str>, values: &Values) -> (r: (
    String,
    Values,
))
    requires
        collected(*values) matches Some(v) && v.len() == filters@.len(),
    ensures
        r.0@ == select_text(table@, names(columns@), names(filters@)),
        collected(r.1) == collected(*values),
{
    let mut query: SelectStatement = Query::select();
    query.from(Alias::new(table)).columns(columns.iter().map(|c| Alias::new(*c)));
    for (c, v) in filters.iter().zip(values.0.iter()) {
        query.and_where(Expr::col(Alias::new(*c)).eq(v.clone()));
    }
    query.build(SqliteQueryBuilder)
}

/// Builds an update with `sea_query::UpdateStatement` and writes it with
/// `SqliteQueryBuilder`: one assignment for each column, and one equality
/// condition for each filter, joined by `AND`. The values come back in
/// the order of their placeholders: those of the assignments, then those
/// of the conditions.
#[verifier::external_body]
fn sqlite_update(
    table: &str,
    columns: &Vec<&'static str>,
    values: &Values,
    filters: &Vec<&'static str>,
    conditions: &Values,
) -> (r: (String, Values))
    requires
        collected(*values) matches Some(v) && v.len() == columns@.len(),
        collected(*conditions) matches Some(v) && v.len() == filters@.len(),
    ensures
        r.0@ == update_text(table@, names(columns@), names(filters@)),
        collected(r.1) == Some(collected(*values)->0 + collected(*conditions)->0),
{
    let mut query: UpdateStatement = Query::update();
    let set = columns.iter().zip(values.0.iter());
    query.table(Alias::new(table)).values(set.map(|(c, v)| (Alias::new(*c), v.clone().into())));
    for (c, v) in filters.iter().zip(conditions.0.iter()) {
        query.and_where(Expr::col(Alias::new(*c)).eq(v.clone()));
    }
    query.build(SqliteQueryBuilder)
}

/// Builds a delete with `sea_query::DeleteStatement` and writes it with
/// `SqliteQueryBuilder`: the table, and one equality condition for each
/// filter, joined by `AND`. The values come back in the order of the
/// conditions.
#[verifier::external_body]
fn sqlite_delete(table: &str, filters: &Vec<&'static str>, values: &Values) -> (r: (String, Values))
    requires
        collected(*values) matches Some(v) && v.len() == filters@.len(),
    ensures
        r.0@ == delete_text(table@, names(filters@)),
        collected(r.1) == collected(*values),
{
    let mut query: DeleteStatement = Query::delete();
    query.from_table(Alias::new(table));
    for (c, v) in filters.iter().zip(values.0.iter()) {
        query.and_where(Expr::col(Alias::new(*c)).eq(v.clone()));
    }
    query.build(SqliteQueryBuilder)
}

/// Builds, with `sea_query::SelectStatement`, the select of the count of
/// the text `counted` from `table` and writes it with
/// `SqliteQueryBuilder`. The counted expression is a value, so it is
/// written as a placeholder and comes back as the one value.
#[verifier::external_body]
fn sqlite_count(table: &str, counted: &str) -> (r: (String, Values))
    ensures
        r.0@ == count_text(table@),
        collected(r.1) == Some(seq![SqlValueView::Text(counted@)]),
{
    let mut query: SelectStatement = Query::select();
    query.expr(Expr::expr(Expr::value(counted)).count()).from(Alias::new(table));
    query.build(SqliteQueryBuilder)
}

/// The contribution of one attribute to a sparse field set: a field
/// when the attribute is present, nothing when it is absent.
pub open spec fn present(column: Seq<char>, value: Option<SqlValueView>) -> Seq<FieldView> {
    match value {
        Some(v) => seq![FieldView { column, value: v }],
        None => Seq::empty(),
    }
}

/// Appending one attribute to a field set adds its column to the named
/// columns exactly when the attribute is present.
pub proof fn lemma_named(fields: Seq<FieldView>, column: Seq<char>, value: Option<SqlValueView>, c: Seq<char>)
    ensures
        columns_of(fields + present(column, value)).contains(c) <==> (columns_of(fields).contains(c)
            || (value is Some && c == column)),
{
    let all = fields + present(column, value);
    if columns_of(all).contains(c) {
        let i = choose|i: int| 0 <= i < columns_of(all).len() && columns_of(all)[i] == c;
        if i < fields.len() {
            assert(columns_of(fields)[i] == c);
        } else {
            assert(all[i] == present(column, value)[i - fields.len()]);
        }
    }
    if columns_of(fields).contains(c) {
        let i = choose|i: int| 0 <= i < columns_of(fields).len() && columns_of(fields)[i] == c;
        assert(columns_of(all)[i] == c);
    }
    if value is Some && c == column {
        assert(columns_of(all)[fields.len() as int] == c);
    }
}

/// The text value of an attribute that may be absent.
pub open spec fn text_of(value: Option<String>) -> Option<SqlValueView> {
    match value {
        Some(s) => Some(SqlValueView::Text(s@)),
        None => None,
    }
}

/// The value of a 64-bit integer attribute that may be absent.
pub open spec fn i64_of(value: Option<i64>) -> Option<SqlValueView> {
    match value {
        Some(i) => Some(SqlValueView::Int(i)),
        None => None,
    }
}

/// The value of a 32-bit integer attribute that may be absent.
pub open spec fn i32_of(value: Option<i32>) -> Option<SqlValueView> {
    match value {
        Some(i) => Some(SqlValueView::Int(i as i64)),
        None => None,
    }
}

/// The value of an 8-bit integer attribute that may be absent.
pub open spec fn i8_of(value: Option<i8>) -> Option<SqlValueView> {
    match value {
        Some(i) => Some(SqlValueView::Int(i as i64)),
        None => None,
    }
}

/// The date value of an attribute that may be absent.
pub open spec fn date_of(value: Option<NaiveDate>) -> Option<SqlValueView> {
    match value {
        Some(d) => Some(SqlValueView::Date(d)),
        None => None,
    }
}

/// Appends the attribute `column` to `fields` if it is present.
pub fn push_field(fields: &mut Vec<Field>, column: &'static str, value: Option<SqlValue>)
    ensures
        fields_view(final(fields)@) == fields_view(old(fields)@) + present(
            column@,
            match value {
                Some(v) => Some(v@),
                None => None,
            },
        ),
{
    match value {
        Some(v) => {
            fields.push(Field { column, value: v });
            assert(fields_view(fields@) =~= fields_view(old(fields)@) + seq![
                FieldView { column: column@, value: v@ },
            ]);
        },
        None => {
            assert(fields_view(fields@) =~= fields_view(old(fields)@) + Seq::empty());
        },
    }
}

/// Appends the text attribute `column` to `fields` if it is present.
pub fn push_text(fields: &mut Vec<Field>, column: &'static str, value: Option<String>)
    ensures
        fields_view(final(fields)@) == fields_view(old(fields)@) + present(column@, text_of(value)),
{
    match value {
        Some(s) => push_field(fields, column, Some(SqlValue::Text(s))),
        None => push_field(fields, column, None),
    }
}

/// Appends the 64-bit integer attribute `column` to `fields` if it is present.
pub fn push_i64(fields: &mut Vec<Field>, column: &'static str, value: Option<i64>)
    ensures
        fields_view(final(fields)@) == fields_view(old(fields)@) + present(column@, i64_of(value)),
{
    match value {
        Some(i) => push_field(fields, column, Some(SqlValue::Int(i))),
        None => push_field(fields, column, None),
    }
}

/// Appends the 32-bit integer attribute `column` to `fields` if it is present.
pub fn push_i32(fields: &mut Vec<Field>, column: &'static str, value: Option<i32>)
    ensures
        fields_view(final(fields)@) == fields_view(old(fields)@) + present(column@, i32_of(value)),
{
    match value {
        Some(i) => push_field(fields, column, Some(SqlValue::Int(i as i64))),
        None => push_field(fields, column, None),
    }
}

/// Appends the 8-bit integer attribute `column` to `fields` if it is present.
pub fn push_i8(fields: &mut Vec<Field>, column: &'static str, value: Option<i8>)
    ensures
        fields_view(final(fields)@) == fields_view(old(fields)@) + present(column@, i8_of(value)),
{
    match value {
        Some(i) => push_field(fields, column, Some(SqlValue::Int(i as i64))),
        None => push_field(fields, column, None),
    }
}

/// Appends the date attribute `column` to `fields` if it is present.
pub fn push_date(fields: &mut Vec<Field>, column: &'static str, value: Option<NaiveDate>)
    ensures
        fields_view(final(fields)@) == fields_view(old(fields)@) + present(column@, date_of(value)),
{
    match value {
        Some(d) => push_field(fields, column, Some(SqlValue::Date(d))),
        None => push_field(fields, column, None),
    }
}

/// The insert of one row of `fields` into `table`.
pub open spec fn insert_spec(table: Seq<char>, fields: Seq<FieldView>) -> StatementView {
    StatementView { sql: insert_text(table, columns_of(fields), "id"@), values: values_of(fields) }
}

/// The select of `columns` from the rows of `table` that match `filters`.
pub open spec fn select_spec(table: Seq<char>, columns: Seq<Seq<char>>, filters: Seq<FieldView>) -> StatementView {
    StatementView { sql: select_text(table, columns, columns_of(filters)), values: values_of(filters) }
}

/// The update that sets `fields`, and nothing else, in the rows of `table`
/// that match `filters`.
pub open spec fn update_spec(table: Seq<char>, fields: Seq<FieldView>, filters: Seq<FieldView>) -> StatementView {
    StatementView {
        sql: update_text(table, columns_of(fields), columns_of(filters)),
        values: values_of(fields) + values_of(filters),
    }
}

/// The delete of the rows of `table` that match `filters`.
pub open spec fn delete_spec(table: Seq<char>, filters: Seq<FieldView>) -> StatementView {
    StatementView { sql: delete_text(table, columns_of(filters)), values: values_of(filters) }
}

/// The count of the rows of `table`; the counted expression is bound as
/// the text `*`.
pub open spec fn count_spec(table: Seq<char>) -> StatementView {
    StatementView { sql: count_text(table), values: seq![SqlValueView::Text("*"@)] }
}

/// The condition that the primary key equals `id`.
pub open spec fn id_is(id: i64) -> Seq<FieldView> {
    seq![FieldView { column: "id"@, value: SqlValueView::Int(id) }]
}

/// The column names of `fields`, in order.
pub fn column_names(fields: &Vec<Field>) -> (r: Vec<&'static str>)
    ensures
        names(r@) == columns_of(fields_view(fields@)),
{
    let mut out: Vec<&'static str> = Vec::new();
    let mut i: usize = 0;
    while i < fields.len()
        invariant
            i <= fields@.len(),
            out@.len() == i,
            forall|j: int| 0 <= j < i ==> out@[j]@ == fields@[j].column@,
        decreases fields@.len() - i,
    {
        out.push(fields[i].column);
        i = i + 1;
    }
    assert(names(out@) =~= columns_of(fields_view(fields@)));
    out
}

/// The values of `fields`, in order, moved out of them.
pub fn into_values(fields: Vec<Field>) -> (r: Vec<SqlValue>)
    ensures
        values_view(r@) == values_of(fields_view(fields@)),
{
    let ghost all = fields@;
    let mut out: Vec<SqlValue> = Vec::new();
    for f in it: fields
        invariant
            it.seq() == all,
            out@.len() == it.index(),
            forall|j: int| 0 <= j < out@.len() ==> out@[j] == all[j].value,
    {
        out.push(f.value);
    }
    assert(values_view(out@) =~= values_of(fields_view(all)));
    out
}

/// The filter that keeps the row whose primary key is `id`.
pub fn by_id(id: i64) -> (r: Vec<Field>)
    ensures
        fields_view(r@) == id_is(id),
{
    let mut out: Vec<Field> = Vec::new();
    out.push(Field { column: "id", value: SqlValue::Int(id) });
    assert(fields_view(out@) =~= id_is(id));
    out
}

/// Pairs a statement's text with the values that the builder collected
/// for its placeholders.
fn built(sql: String, values: Values) -> (r: Statement)
    requires
        collected(values) is Some,
    ensures
        r@ == (StatementView { sql: sql@, values: collected(values)->0 }),
{
    match plain_values(values) {
        Some(plain) => Statement { sql, values: plain },
        None => vstd::pervasive::unreached(),
    }
}

/// The statement that inserts one row into `table`, with `values` for
/// `columns` in order, and asks for the new row's id. The two lists must
/// be of one length; if they are not, no statement is built, and the
/// failure is `SeaQ`.
pub fn insert(table: &'static str, columns: Vec<&'static str>, values: Vec<SqlValue>) -> (r: Result<
    Statement,
    Error,
>)
    ensures
        match r {
            Ok(s) => columns@.len() == values@.len() && s@ == (StatementView {
                sql: insert_text(table@, names(columns@), "id"@),
                values: values_view(values@),
            }),
            Err(e) => columns@.len() != values@.len() && e is SeaQ,
        },
{
    let bound = sea_values(&values);
    match sqlite_insert(table, &columns, &bound, "id") {
        Ok(pair) => Ok(built(pair.0, pair.1)),
        Err(e) => Err(Error::SeaQ(e)),
    }
}

/// The statement that inserts one row holding exactly `fields` into
/// `table` and asks for the new row's id. A column that is not among
/// `fields` is not named, so the store fills it.
pub fn create(table: &'static str, fields: Vec<Field>) -> (r: Result<Statement, Error>)
    ensures
        r matches Ok(s) && s@ == insert_spec(table@, fields_view(fields@)),
{
    let columns = column_names(&fields);
    let values = into_values(fields);
    assert(columns@.len() == names(columns@).len());
    assert(values@.len() == values_view(values@).len());
    insert(table, columns, values)
}

/// The statement that reads `columns` of the rows of `table` that match
/// every one of `filters`.
pub fn select(table: &'static str, columns: Vec<&'static str>, filters: Vec<Field>) -> (r: Statement)
    ensures
        r@ == select_spec(table@, names(columns@), fields_view(filters@)),
{
    let on = column_names(&filters);
    let plain = into_values(filters);
    assert(on@.len() == names(on@).len() && plain@.len() == values_view(plain@).len());
    let bound = sea_values(&plain);
    let pair = sqlite_select(table, &columns, &on, &bound);
    built(pair.0, pair.1)
}

/// The statement that reads `columns` of the row of `table` whose id is `id`.
pub fn get(table: &'static str, columns: Vec<&'static str>, id: i64) -> (r: Statement)
    ensures
        r@ == select_spec(table@, names(columns@), id_is(id)),
{
    select(table, columns, by_id(id))
}

/// The statement that reads `columns` of every row of `table`.
pub fn list(table: &'static str, columns: Vec<&'static str>) -> (r: Statement)
    ensures
        r@ == select_spec(table@, names(columns@), Seq::empty()),
{
    let filters: Vec<Field> = Vec::new();
    assert(fields_view(filters@) =~= Seq::empty());
    select(table, columns, filters)
}

/// The statement that reads `columns` of the rows of `table` in which the
/// one column `col` equals `val`.
pub fn list_where(table: &'static str, columns: Vec<&'static str>, col: &'static str, val: SqlValue) -> (r: Statement)
    ensures
        r@ == select_spec(table@, names(columns@), seq![FieldView { column: col@, value: val@ }]),
{
    let mut filters: Vec<Field> = Vec::new();
    filters.push(Field { column: col, value: val });
    assert(fields_view(filters@) =~= seq![FieldView { column: col@, value: val@ }]);
    select(table, columns, filters)
}

/// The statement that sets exactly `fields` in the rows of `table` that
/// match every one of `filters`. A column that is not among `fields` is
/// not named, so it keeps its value.
pub fn update_where(table: &'static str, fields: Vec<Field>, filters: Vec<Field>) -> (r: Statement)
    ensures
        r@ == update_spec(table@, fields_view(fields@), fields_view(filters@)),
{
    let columns = column_names(&fields);
    let set = into_values(fields);
    assert(columns@.len() == names(columns@).len() && set@.len() == values_view(set@).len());
    let values = sea_values(&set);
    let on = column_names(&filters);
    let kept = into_values(filters);
    assert(on@.len() == names(on@).len() && kept@.len() == values_view(kept@).len());
    let conditions = sea_values(&kept);
    let pair = sqlite_update(table, &columns, &values, &on, &conditions);
    built(pair.0, pair.1)
}

/// The statement that sets exactly `fields` in the row of `table` whose
/// id is `id`.
pub fn update(table: &'static str, id: i64, fields: Vec<Field>) -> (r: Statement)
    ensures
        r@ == update_spec(table@, fields_view(fields@), id_is(id)),
{
    update_where(table, fields, by_id(id))
}

/// The statement that removes the row of `table` whose id is `id`.
pub fn delete(table: &'static str, id: i64) -> (r: Statement)
    ensures
        r@ == delete_spec(table@, id_is(id)),
{
    let filters = by_id(id);
    let on = column_names(&filters);
    let plain = into_values(filters);
    assert(on@.len() == names(on@).len() && plain@.len() == values_view(plain@).len());
    let bound = sea_values(&plain);
    let pair = sqlite_delete(table, &on, &bound);
    built(pair.0, pair.1)
}

/// The statement that counts the rows of `table`.
pub fn count(table: &'static str) -> (r: Statement)
    ensures
        r@ == count_spec(table@),
{
    let pair = sqlite_count(table, "*");
    built(pair.0, pair.1)
}

/// What a lookup by id yields: the row, or that `entity` has no row `id`.
pub open spec fn found_spec<E>(entity: &'static str, id: i64, row: Option<E>) -> Result<E, Error> {
    match row {
        Some(e) => Ok(e),
        None => Err(Error::EntityNotFound { entity, id }),
    }
}

/// Reads the answer to a lookup by id: a missing row is `EntityNotFound`.
pub fn found<E>(entity: &'static str, id: i64, row: Option<E>) -> (r: Result<E, Error>)
    ensures
        r == found_spec(entity, id, row),
{
    match row {
        Some(e) => Ok(e),
        None => Err(Error::EntityNotFound { entity, id }),
    }
}

/// What the number of rows touched by a statement keyed by id means: none
/// is `EntityNotFound`, one is success, more is `CountFail`.
pub open spec fn changed_spec(entity: &'static str, id: i64, rows_affected: u64) -> Result<(), Error> {
    if rows_affected == 0 {
        Err(Error::EntityNotFound { entity, id })
    } else if rows_affected == 1 {
        Ok(())
    } else {
        Err(Error::CountFail)
    }
}

/// Reads the answer to an update or a delete by id.
pub fn changed(entity: &'static str, id: i64, rows_affected: u64) -> (r: Result<(), Error>)
    ensures
        r == changed_spec(entity, id, rows_affected),
{
    if rows_affected == 0 {
        Err(Error::EntityNotFound { entity, id })
    } else if rows_affected == 1 {
        Ok(())
    } else {
        Err(Error::CountFail)
    }
}

/// Reads the store's answer to a statement that yields one value: the
/// value, or the store's failure as `Sqlx`.
pub fn fetched<T>(answer: Result<T, String>) -> (r: Result<T, Error>)
    ensures
        r == match answer {
            Ok(v) => Ok::<T, Error>(v),
            Err(e) => Err::<T, Error>(Error::Sqlx(e)),
        },
{
    match answer {
        Ok(v) => Ok(v),
        Err(e) => Err(Error::Sqlx(e)),
    }
}

} // verus!

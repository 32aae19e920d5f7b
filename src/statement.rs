use vstd::prelude::*;
use crate::model::{RowStruct, TableView, User, UserView};

verus! {

/// A value bound to a `?` marker of a statement.
#[derive(Debug, Clone, PartialEq)]
pub enum Value {
    Int(i32),
    Udt(User),
}

/// What a bound value holds.
pub enum ValueView {
    Int(i32),
    Udt(UserView),
}

impl View for Value {
    type V = ValueView;

    open spec fn view(&self) -> ValueView {
        match self {
            Value::Int(n) => ValueView::Int(*n),
            Value::Udt(u) => ValueView::Udt(u@),
        }
    }
}

/// The statements that provision the employee schema and read or change its table.
#[derive(Debug, Clone, PartialEq)]
pub enum Statement {
    CreateKeyspace,
    CreateType,
    CreateTable,
    Insert(RowStruct),
    Update { id: i32, user: User },
    Delete { id: i32 },
    SelectAll,
}

/// The CQL text of a statement; its `?` markers are bound to `values_of` in order.
pub open spec fn cql_of(s: Statement) -> Seq<char> {
    match s {
        Statement::CreateKeyspace =>
            "CREATE KEYSPACE IF NOT EXISTS EMPLOYEE WITH REPLICATION = {'class' : 'SimpleStrategy', 'replication_factor' : 1};"@,
        Statement::CreateType => "CREATE TYPE IF NOT EXISTS EMPLOYEE.emp (name text, age int)"@,
        Statement::CreateTable =>
            "CREATE TABLE IF NOT EXISTS EMPLOYEE.knoldus (ID INT PRIMARY KEY, USER frozen<EMPLOYEE.emp>);"@,
        Statement::Insert(_) => "INSERT INTO EMPLOYEE.knoldus (ID, USER) VALUES (?,?)"@,
        Statement::Update { .. } => "UPDATE EMPLOYEE.KNOLDUS SET USER = ? WHERE ID = ?"@,
        Statement::Delete { .. } => "DELETE FROM EMPLOYEE.KNOLDUS WHERE ID =?"@,
        Statement::SelectAll => "SELECT * FROM EMPLOYEE.KNOLDUS"@,
    }
}

/// The values bound to a statement's markers, in the order the markers stand.
pub open spec fn values_of(s: Statement) -> Seq<ValueView> {
    match s {
        Statement::Insert(row) => seq![ValueView::Int(row.id), ValueView::Udt(row.user@)],
        Statement::Update { id, user } => seq![ValueView::Udt(user@), ValueView::Int(id)],
        Statement::Delete { id } => seq![ValueView::Int(id)],
        _ => Seq::empty(),
    }
}

/// The table after the database has run the statement on `t`. An update
/// writes the row whether or not the key was there, as CQL's UPDATE does.
pub open spec fn apply(t: TableView, s: Statement) -> TableView {
    match s {
        Statement::Insert(row) => t.insert(row.id, row.user@),
        Statement::Update { id, user } => t.insert(id, user@),
        Statement::Delete { id } => t.remove(id),
        _ => t,
    }
}

/// The rows that a select of the whole table returns from `t`, as a set.
pub open spec fn selected(t: TableView) -> Set<(i32, UserView)> {
    Set::new(|r: (i32, UserView)| t.contains_key(r.0) && t[r.0] == r.1)
}

/// After an insert, a select finds the inserted row, no other row under its
/// key, and every row under another key that it found before.
pub proof fn lemma_select_after_insert(t: TableView, row: RowStruct, r: (i32, UserView))
    ensures
        selected(apply(t, Statement::Insert(row))).contains(r) <==> (r == row@ || (r.0
            != row.id && selected(t).contains(r))),
{
}

/// After a delete of a key, a select finds no row under that key, and every
/// row under another key that it found before.
pub proof fn lemma_select_after_delete(t: TableView, id: i32, r: (i32, UserView))
    ensures
        selected(apply(t, Statement::Delete { id })).contains(r) <==> (r.0 != id && selected(
            t,
        ).contains(r)),
{
}

fn copy_user(u: &User) -> (r: User)
    ensures
        r@ == u@,
{
    User { name: u.name.clone(), age: u.age }
}

impl Statement {
    /// The CQL text to send for this statement.
    pub fn cql(&self) -> (r: &'static str)
        ensures
            r@ == cql_of(*self),
    {
        match self {
            Statement::CreateKeyspace =>
                "CREATE KEYSPACE IF NOT EXISTS EMPLOYEE WITH REPLICATION = {'class' : 'SimpleStrategy', 'replication_factor' : 1};",
            Statement::CreateType => "CREATE TYPE IF NOT EXISTS EMPLOYEE.emp (name text, age int)",
            Statement::CreateTable =>
                "CREATE TABLE IF NOT EXISTS EMPLOYEE.knoldus (ID INT PRIMARY KEY, USER frozen<EMPLOYEE.emp>);",
            Statement::Insert(_) => "INSERT INTO EMPLOYEE.knoldus (ID, USER) VALUES (?,?)",
            Statement::Update { .. } => "UPDATE EMPLOYEE.KNOLDUS SET USER = ? WHERE ID = ?",
            Statement::Delete { .. } => "DELETE FROM EMPLOYEE.KNOLDUS WHERE ID =?",
            Statement::SelectAll => "SELECT * FROM EMPLOYEE.KNOLDUS",
        }
    }

    /// The values to bind to this statement's markers, in order.
    pub fn values(&self) -> (r: Vec<Value>)
        ensures
            r@.len() == values_of(*self).len(),
            forall|i: int| 0 <= i < r@.len() ==> #[trigger] r@[i]@ == values_of(*self)[i],
    {
        let mut r: Vec<Value> = Vec::new();
        match self {
            Statement::Insert(row) => {
                r.push(Value::Int(row.id));
                r.push(Value::Udt(copy_user(&row.user)));
            },
            Statement::Update { id, user } => {
                r.push(Value::Udt(copy_user(user)));
                r.push(Value::Int(*id));
            },
            Statement::Delete { id } => {
                r.push(Value::Int(*id));
            },
            _ => {},
        }
        r
    }
}

} // verus!

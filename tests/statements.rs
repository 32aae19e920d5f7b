use employee_crud::model::{RowStruct, User};
use employee_crud::statement::{Statement, Value};

#[test]
fn user_new_keeps_name_and_age() {
    let u = User::new("Ayush", 25);
    assert_eq!(u.name, "Ayush");
    assert_eq!(u.age, 25);
}

#[test]
fn row_new_keeps_key_and_user() {
    let r = RowStruct::new(3, User::new("Miral", 24));
    assert_eq!(r.id, 3);
    assert_eq!(r.user, User { name: "Miral".to_string(), age: 24 });
}

#[test]
fn schema_statements_have_exact_text() {
    assert_eq!(
        Statement::CreateKeyspace.cql(),
        "CREATE KEYSPACE IF NOT EXISTS EMPLOYEE WITH REPLICATION = {'class' : 'SimpleStrategy', 'replication_factor' : 1};"
    );
    assert_eq!(
        Statement::CreateType.cql(),
        "CREATE TYPE IF NOT EXISTS EMPLOYEE.emp (name text, age int)"
    );
    assert_eq!(
        Statement::CreateTable.cql(),
        "CREATE TABLE IF NOT EXISTS EMPLOYEE.knoldus (ID INT PRIMARY KEY, USER frozen<EMPLOYEE.emp>);"
    );
    assert_eq!(Statement::SelectAll.cql(), "SELECT * FROM EMPLOYEE.KNOLDUS");
}

#[test]
fn unparameterized_statements_bind_nothing() {
    assert!(Statement::CreateKeyspace.values().is_empty());
    assert!(Statement::CreateType.values().is_empty());
    assert!(Statement::CreateTable.values().is_empty());
    assert!(Statement::SelectAll.values().is_empty());
}

#[test]
fn insert_binds_key_then_user() {
    let s = Statement::Insert(RowStruct::new(7, User::new("Ann", 31)));
    assert_eq!(s.cql(), "INSERT INTO EMPLOYEE.knoldus (ID, USER) VALUES (?,?)");
    assert_eq!(s.values(), vec![Value::Int(7), Value::Udt(User::new("Ann", 31))]);
}

#[test]
fn update_binds_user_then_key() {
    let s = Statement::Update { id: -2, user: User::new("", 0) };
    assert_eq!(s.cql(), "UPDATE EMPLOYEE.KNOLDUS SET USER = ? WHERE ID = ?");
    assert_eq!(s.values(), vec![Value::Udt(User::new("", 0)), Value::Int(-2)]);
}

#[test]
fn delete_binds_key() {
    let s = Statement::Delete { id: i32::MAX };
    assert_eq!(s.cql(), "DELETE FROM EMPLOYEE.KNOLDUS WHERE ID =?");
    assert_eq!(s.values(), vec![Value::Int(i32::MAX)]);
}

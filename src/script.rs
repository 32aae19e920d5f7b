use vstd::prelude::*;
use crate::model::{RowStruct, TableView, User};
use crate::statement::{apply, selected, Statement};

verus! {

/// The key of the one employee row that the script writes, changes and removes.
pub const EMPLOYEE_ID: i32 = 3;

/// The steps of the script, in the order it runs them.
#[derive(Clone, Copy, Debug, PartialEq, Eq, Structural)]
pub enum Step {
    CreateKeyspace,
    CreateType,
    CreateTable,
    Insert,
    Update,
    Delete,
    Select,
}

/// What the session does next: run a step's statement, stop the process
/// because a step failed, or end after the last step.
#[derive(Clone, Copy, Debug, PartialEq, Eq, Structural)]
pub enum Action {
    Execute(Step),
    Abort(Step),
    Finish,
}

/// The steps of the script in order.
pub open spec fn script_steps() -> Seq<Step> {
    seq![
        Step::CreateKeyspace,
        Step::CreateType,
        Step::CreateTable,
        Step::Insert,
        Step::Update,
        Step::Delete,
        Step::Select,
    ]
}

/// The step after `s`, or none after the last.
pub open spec fn next_step(s: Step) -> Option<Step> {
    match s {
        Step::CreateKeyspace => Some(Step::CreateType),
        Step::CreateType => Some(Step::CreateTable),
        Step::CreateTable => Some(Step::Insert),
        Step::Insert => Some(Step::Update),
        Step::Update => Some(Step::Delete),
        Step::Delete => Some(Step::Select),
        Step::Select => None,
    }
}

/// What follows a step: on failure the process aborts at that step, on
/// success the next step runs, and after the last step the session ends.
pub open spec fn decision(s: Step, succeeded: bool) -> Action {
    if !succeeded {
        Action::Abort(s)
    } else {
        match next_step(s) {
            Some(n) => Action::Execute(n),
            None => Action::Finish,
        }
    }
}

/// The user that the insert step stores.
pub open spec fn inserted_user() -> (Seq<char>, i32) {
    ("Ayush"@, 25)
}

/// The user that the update step stores in its place.
pub open spec fn updated_user() -> (Seq<char>, i32) {
    ("Miral"@, 24)
}

/// The statement that step `s` runs.
pub open spec fn is_statement_of(s: Step, q: Statement) -> bool {
    match s {
        Step::CreateKeyspace => q is CreateKeyspace,
        Step::CreateType => q is CreateType,
        Step::CreateTable => q is CreateTable,
        Step::Insert => q matches Statement::Insert(row) && row@ == (EMPLOYEE_ID, inserted_user()),
        Step::Update => q matches Statement::Update { id, user } && id == EMPLOYEE_ID && user@ == updated_user(),
        Step::Delete => q matches Statement::Delete { id } && id == EMPLOYEE_ID,
        Step::Select => q is SelectAll,
    }
}

/// What step `s` does to the table when its statement succeeds.
pub open spec fn step_effect(s: Step, t: TableView) -> TableView {
    match s {
        Step::Insert => t.insert(EMPLOYEE_ID, inserted_user()),
        Step::Update => t.insert(EMPLOYEE_ID, updated_user()),
        Step::Delete => t.remove(EMPLOYEE_ID),
        _ => t,
    }
}

/// The table after the first `n` steps of the script have succeeded, starting from `t`.
pub open spec fn table_after(n: nat, t: TableView) -> TableView
    decreases n,
{
    if n == 0 {
        t
    } else {
        step_effect(script_steps()[n - 1], table_after((n - 1) as nat, t))
    }
}

/// The first step of the script.
pub fn first_step() -> (r: Step)
    ensures
        r == script_steps()[0],
{
    Step::CreateKeyspace
}

/// The action that follows `step` once its statement has succeeded or failed.
pub fn decide(step: Step, succeeded: bool) -> (r: Action)
    ensures
        r == decision(step, succeeded),
{
    if !succeeded {
        return Action::Abort(step);
    }
    match step {
        Step::CreateKeyspace => Action::Execute(Step::CreateType),
        Step::CreateType => Action::Execute(Step::CreateTable),
        Step::CreateTable => Action::Execute(Step::Insert),
        Step::Insert => Action::Execute(Step::Update),
        Step::Update => Action::Execute(Step::Delete),
        Step::Delete => Action::Execute(Step::Select),
        Step::Select => Action::Finish,
    }
}

/// The statement that `step` runs.
pub fn statement_for(step: Step) -> (r: Statement)
    ensures
        is_statement_of(step, r),
        forall|t: TableView| #[trigger] apply(t, r) == step_effect(step, t),
{
    match step {
        Step::CreateKeyspace => Statement::CreateKeyspace,
        Step::CreateType => Statement::CreateType,
        Step::CreateTable => Statement::CreateTable,
        Step::Insert => Statement::Insert(RowStruct::new(EMPLOYEE_ID, User::new("Ayush", 25))),
        Step::Update => Statement::Update { id: EMPLOYEE_ID, user: User::new("Miral", 24) },
        Step::Delete => Statement::Delete { id: EMPLOYEE_ID },
        Step::Select => Statement::SelectAll,
    }
}

/// The message with which the process stops when `step` fails.
pub open spec fn failure_text(s: Step) -> Seq<char> {
    match s {
        Step::CreateKeyspace => "Keyspace creation error"@,
        Step::CreateType => "Keyspace creation error"@,
        Step::CreateTable => "table creation error"@,
        Step::Insert => "Insert Query"@,
        Step::Update => "update operation"@,
        Step::Delete => "delete"@,
        Step::Select => "Select query"@,
    }
}

/// The message with which the process stops when `step` fails.
pub fn failure_message(step: Step) -> (r: &'static str)
    ensures
        r@ == failure_text(step),
{
    match step {
        Step::CreateKeyspace => "Keyspace creation error",
        Step::CreateType => "Keyspace creation error",
        Step::CreateTable => "table creation error",
        Step::Insert => "Insert Query",
        Step::Update => "update operation",
        Step::Delete => "delete",
        Step::Select => "Select query",
    }
}

/// On success after success, the decisions walk the script's steps in
/// order, and the session ends after the last one.
pub proof fn lemma_decisions_follow_script(i: nat)
    requires
        i < script_steps().len(),
    ensures
        i + 1 < script_steps().len() ==> decision(script_steps()[i as int], true)
            == Action::Execute(script_steps()[i + 1 as int]),
        i + 1 == script_steps().len() ==> decision(script_steps()[i as int], true)
            == Action::Finish,
{
}

/// Whatever the table held before, once every step has succeeded up to the
/// select, the employee row is gone and every other row is as it was; so
/// the select returns no row under the employee key.
pub proof fn lemma_select_finds_no_employee(t: TableView)
    ensures
        table_after(6, t) == t.remove(EMPLOYEE_ID),
        forall|r: (i32, (Seq<char>, i32))| #[trigger] selected(table_after(6, t)).contains(r)
            ==> r.0 != EMPLOYEE_ID,
        table_after(script_steps().len(), t) == t.remove(EMPLOYEE_ID),
{
    reveal_with_fuel(table_after, 8);
    assert(table_after(6, t) =~= t.remove(EMPLOYEE_ID));
}

/// Just before the delete, the employee row holds the updated user, whatever
/// the table held before.
pub proof fn lemma_update_replaces_inserted_user(t: TableView)
    ensures
        table_after(5, t).contains_key(EMPLOYEE_ID),
        table_after(5, t)[EMPLOYEE_ID] == updated_user(),
{
    reveal_with_fuel(table_after, 6);
}

} // verus!

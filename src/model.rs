use vstd::prelude::*;

verus! {

/// The nested user value, stored in the table as a frozen user-defined type.
#[derive(Debug, Clone, PartialEq)]
pub struct User {
    pub name: String,
    pub age: i32,
}

/// One row of the employee table: the key and the frozen user value.
#[derive(Debug, Clone, PartialEq)]
pub struct RowStruct {
    pub id: i32,
    pub user: User,
}

/// What a user value holds: its name as characters, and its age.
pub type UserView = (Seq<char>, i32);

/// The table as a map from the primary key to the user stored under it.
pub type TableView = Map<i32, UserView>;

impl View for User {
    type V = UserView;

    open spec fn view(&self) -> UserView {
        (self.name@, self.age)
    }
}

impl View for RowStruct {
    type V = (i32, UserView);

    open spec fn view(&self) -> (i32, UserView) {
        (self.id, self.user@)
    }
}

impl User {
    /// A user with the given name and age.
    pub fn new(name: &str, age: i32) -> (r: User)
        ensures
            r@ == (name@, age),
    {
        User { name: name.to_owned(), age }
    }
}

impl RowStruct {
    /// A row that stores `user` under the key `id`.
    pub fn new(id: i32, user: User) -> (r: RowStruct)
        ensures
            r@ == (id, user@),
    {
        RowStruct { id, user }
    }
}

} // verus!

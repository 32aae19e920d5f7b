//! Records of the employee table, the CQL statements that provision and
//! change it, and the fixed script that a session runs against the database.
pub mod model;
pub mod statement;
pub mod script;

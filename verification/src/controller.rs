//! One controller for each kind of descriptor: it checks a descriptor and
//! says which calls bring the backends in line with it.

pub mod base;
pub mod database;
pub mod error;
pub mod flow;
pub mod table;

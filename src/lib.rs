//! Data-access mediator of a web service: request messages, the choice of
//! connection, authentication, transactional patch and delete, and cursor
//! pagination.

pub mod cistring;
pub mod error;
pub mod context;
pub mod auth;
pub mod pagination;
pub mod operation;

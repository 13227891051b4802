//! A company-records service core: validation, use-case rules, an in-memory
//! repository, the listing query builder, the bearer-token guard and the
//! response envelope, each with a verified contract.

pub mod response;
pub mod company;
pub mod query;
pub mod sql;
pub mod search;
pub mod store;
pub mod order;
pub mod usecase;
pub mod auth;
pub mod success;
pub mod handler;
pub mod laws;

//! Rules of a lending-library service: credentials, role gates, sparse field
//! sets and the SQL statements built from them.

pub mod assets;
pub mod auth;
pub mod error;
pub mod middlewares;
pub mod model;
pub mod routes;
pub mod text;

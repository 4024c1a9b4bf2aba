pub mod domain;
pub mod routes;

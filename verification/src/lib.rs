pub mod consts;
pub mod domain;
pub mod file_names;
pub mod ids;
pub mod routes;

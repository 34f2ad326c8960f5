pub mod model;
pub mod statement;
pub mod update;
pub mod database;
pub mod api;

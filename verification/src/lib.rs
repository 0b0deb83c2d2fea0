//! Model of a dashboard that supervises several coding agents at once.
pub mod app;
pub mod clock;
pub mod config;
pub mod import_laws;
pub mod json;
pub mod log_laws;
pub mod log_parser;
pub mod model;
pub mod outcome_laws;
pub mod paths;
pub mod product;
pub mod session;
pub mod session_import;
pub mod state;
pub mod text;
pub mod text_laws;
pub mod ui;
pub mod worker;

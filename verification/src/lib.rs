//! Personal-finance import and bookkeeping library: bank-export detection and
//! parsing (CSV, QuickBooks IIF), the category catalogue, the SQL statements
//! that the storage layer runs, tax-schedule report arithmetic, and the
//! decisions behind the command-line commands.

pub mod text;
pub mod error;
pub mod detect;
pub mod money;
pub mod date;
pub mod ids;
pub mod models;
pub mod csv_import;
pub mod iif;
pub mod category;
pub mod sql;
pub mod db;
pub mod report;
pub mod cli;

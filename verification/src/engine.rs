//! Bytes, searches, and the layout of tables.
pub mod bytes;
pub mod search;
pub mod kinds;
pub mod columns;
pub mod pe;
pub mod table;
pub mod compressed;
pub mod streams;
pub mod tables;
pub mod database;

//! A to-do list library: tasks with a status, a priority, due dates, soft
//! deletion and search, stored as rows of a single `tasks` table.
//!
//! The library decides everything that the command line does with the table:
//! which rows a listing selects, what a command writes, the SQL text of each
//! write, and what is printed. Reading and writing the database file is left
//! to the caller, which hands the rows over as plain values.

pub mod models;
pub mod text;
pub mod dates;
pub mod like;
pub mod db;
pub mod cli;
pub mod seed;
pub mod session;
pub mod laws;
pub mod command_laws;

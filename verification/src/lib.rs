//! Planning logic for deploying a Django application behind an SGI server
//! and a web server: command lines, file paths, rendered service files and
//! the decisions taken while checking that the servers are installed.

pub mod text;
pub mod command;
pub mod sgi;
pub mod webserver;
pub mod report;

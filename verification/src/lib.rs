//! The core of a command-line diary: pages, their file layout, and the chain that links them.

pub mod chain;
pub mod commands;
pub mod config;
pub mod create;
pub mod draft;
pub mod edit;
pub mod ident;
pub mod laws;
pub mod number;
pub mod outside;
pub mod page;
pub mod rename;
pub mod shell;
pub mod show;
pub mod text;
pub mod walk;

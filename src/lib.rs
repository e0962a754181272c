//! A build tool for C-family projects: dependency resolution, content-addressed
//! incremental compilation and linking, with every decision verified.
pub mod cache;
pub mod cli;
pub mod command;
pub mod compdb;
pub mod compiler;
pub mod config;
pub mod error;
pub mod extension;
pub mod headers;
pub mod layout;
pub mod linker;
pub mod names;
pub mod path;
pub mod pipeline;
pub mod resolver;
pub mod text;
pub mod transport;

//! Tary: a personal assistant that collects items from sources (an HTTP form,
//! chat commands), passes them through a middleware pipeline, and hands them
//! to destinations (a console or log file, a receipt printer).
//!
//! This crate holds the decisions and the data of that pipeline; the program
//! around it performs the input and output.

pub mod time;
pub mod config;
pub mod text;
pub mod content;
pub mod destinations;
pub mod sources;
pub mod middlewares;
pub mod args;
pub mod tary_llm;

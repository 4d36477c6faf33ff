//! Start, stop and monitor local development projects from one config file.
//!
//! This crate decides; the program around it acts. What has to be read from
//! the machine comes in as plain values, and what has to be done to it goes
//! out as an action to perform.

pub mod caddy;
pub mod commands;
pub mod config;
pub mod dirs;
pub mod laws;
pub mod logs;
pub mod names;
pub mod process;
pub mod seqs;
pub mod signals;
pub mod startup;
pub mod state;
pub mod text;

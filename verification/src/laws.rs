//! What the library is for, said without its own words: each law here speaks
//! of inputs and results alone, with every number and every text written out.

pub mod caddy;
pub mod commands;
pub mod config;
pub mod dirs;
pub mod logs;
pub mod names;
pub mod process;
pub mod signals;
pub mod startup;
pub mod state;
pub mod text;

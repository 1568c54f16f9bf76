//! Control logic of an Antminer S9 hash chain.

pub mod backend;
pub mod baud;
pub mod bits;
pub mod chain;
pub mod count;
pub mod counter;
pub mod error;
pub mod halt;
pub mod init;
pub mod manager;
pub mod midstate;
pub mod monitor;
pub mod pll;
pub mod power;
pub mod script;
pub mod stats;
pub mod text;
pub mod work;

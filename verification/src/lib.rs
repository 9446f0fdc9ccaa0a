use vstd::prelude::*;

pub mod calendar;
pub mod cli;
pub mod config;
pub mod constants;
pub mod funds;
pub mod mempool;
pub mod samples;
pub mod text;

verus! {
}

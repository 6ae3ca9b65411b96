use vstd::prelude::*;

pub mod config;
pub mod controller;
pub mod dao;
pub mod docs;
pub mod levels;
pub mod middleware;
pub mod text;
pub mod time;

verus! {

} // verus!

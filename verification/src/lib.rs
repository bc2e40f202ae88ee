use vstd::prelude::*;

pub mod actions;
pub mod app;
pub mod commands;
pub mod keys;
pub mod text;
pub mod types;
pub mod view;

verus! {

} // verus!

//! A small policy engine that matches a snapshot of browsing state against a
//! set of countermeasure rules and emits the actions of every rule that fires.

pub mod actions;
pub mod context;
pub mod engine;
pub mod rules;
pub mod strings;

//! Scaffolding of Akka projects for sbt: the rules by which stored defaults,
//! command-line overrides and built-in fallbacks combine into one
//! configuration, the text of the defaults file, and the plan of directories
//! and build descriptor that a new project is made from.
//!
//! Everything here works on plain values. Reading and writing files, creating
//! directories and starting `git` are left to the caller, who is told what to
//! do by [`driver::Action`].

pub mod config;
pub mod driver;
pub mod resolver;
pub mod scaffold;
pub mod store;

//! Resolution core of a toolchain manager: which toolchain does a name mean.

pub mod active;
pub mod command;
pub mod descriptor;
pub mod diagnostic;
pub mod errors;
pub mod overrides;
pub mod report;
pub mod show;
pub mod text;
pub mod triple;
pub mod unset;
pub mod vocabulary;

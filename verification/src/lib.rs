//! Command front end of a block manager: the status line of each command,
//! the shell invocation that carries out a build, and the reading of what
//! the build script wrote.

pub mod fns;
pub mod runner;
pub mod text;

//! Decision logic of a launcher for a Java server: which jar in a directory
//! to start, how the interactive menu is laid out and answered, and which
//! arguments the Java runtime is started with.

pub mod find_jar;
pub mod java;
pub mod launch;
pub mod menu;
pub mod number;
pub mod paths;
pub mod text;

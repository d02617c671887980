//! Commands and directory changes that the build and run steps are made of.
pub use crate::builder::{cmake_build, cmake_config, git_clone};
pub use crate::command::ShellCommand;
pub use crate::layout::create_new_dir;

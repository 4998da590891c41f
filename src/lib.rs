//! Turns a git remote into the web address at which a hosting service shows the
//! repository, a branch of it, a file in it or one line of that file.

pub mod text;
pub mod error;
pub mod remote;
pub mod weburl;
pub mod config;
pub mod state;
pub mod branch;
pub mod provider;
pub mod link;
pub mod laws;

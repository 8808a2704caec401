//! Process rules for repositories: who owns a project, who may approve a
//! change to it, which chat rooms hear about it, and how the cached directory
//! of identities is kept fresh.

pub mod codec;
pub mod constants;
pub mod directory;
pub mod error;
pub mod github;
pub mod process;
pub mod table;
pub mod text;

//! ponte — bridges LangChain OpenWiki into a fleet of repositories.
//!
//! The pipeline runs three jobs against one target repository:
//! context assembly, the OpenWiki invocation, and routing of the
//! generated docs into the repository's agent notes file. This crate holds
//! the decisions those jobs make and the text they compute; the
//! processes, files and scheduler around them live with the caller.

pub mod openwiki;
pub mod pipeline;
pub mod route;
pub mod state;
pub mod text;

//! Navigation and scheduling core for terminal applications built from pages.

pub mod decl;
pub mod nav;
pub mod pages;
pub mod router;

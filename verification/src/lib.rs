//! Build-time manifest pipeline that turns separately declared command
//! handlers into one closed dispatch type.

pub mod args;
pub mod canonical;
pub mod capture;
pub mod collect;
pub mod commands;
pub mod declaration;
pub mod encoding;
pub mod error;
pub mod generate;
pub mod json;
pub mod naming;
pub mod record;
pub mod render;
pub mod store;
pub mod syntax;
pub mod text;

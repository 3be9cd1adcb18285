//! Renders a machine-generated description of a package's public interface
//! (a tree of documented items: functions, enums, and the type expressions
//! their signatures mention) as readable declaration-syntax text.
//!
//! The core is a schema model for type expressions, a structural parser from
//! an untyped JSON tree into that model, and a total renderer that
//! reconstructs canonical declaration syntax.

pub mod json;
pub mod loader;
pub mod schema;
pub mod render;
pub mod parse;
pub mod doc;

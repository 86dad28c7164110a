//! Human-readable labels for source-code declarations.
//!
//! Renders signatures and short labels for functions, constants, type
//! aliases and macro declarations from a plain-value model of the
//! relevant syntax-tree fragments.  The tree itself is an external
//! collaborator: callers answer the capability queries (visibility?
//! name? where-clause?) once, record the answers in the model types of
//! [`node`], and the renderers turn them into text.

pub mod node;
pub mod render;
pub mod text;

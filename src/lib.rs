//! Rendered text collection: the walk over a styled node tree that yields the
//! text fragments and required line breaks behind `innerText` / `outerText`.

pub mod collect;
pub mod laws;
pub mod style;
pub mod tree;
pub mod text;
pub mod whitespace;

//! Compiler core for a declarative color-grading language: colors, typed
//! expression trees over named external sources, a dependency-resolution pass,
//! and code generators that lower weighted color-rotation filters into shader
//! source text.
//!
//! The modules, leaves first: [`color`] holds colors and their channels;
//! [`data`] the typed expression trees; [`dependency`] the per-source
//! requirement graph; [`geometry`] points and curves in the color space;
//! [`filters`] the filter tree and its code generator; [`palette`] the flat
//! predecessor of the tree; [`folding`] the assembly of a complete compute
//! shader around one stage; [`decimal`] decimal text of machine integers;
//! [`imaging`] named image bindings; and [`parser`] the errors of the
//! plain-text specification reader.

pub mod color;
pub mod data;
pub mod decimal;
pub mod dependency;
pub mod filters;
pub mod folding;
pub mod geometry;
pub mod imaging;
pub mod palette;
pub mod parser;

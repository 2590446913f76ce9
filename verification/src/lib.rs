//! Editor colour themes built from a small set of semantic colour roles.
//!
//! The crate has two layers. The colour primitive (`color`, on top of the
//! sRGB transfer tables in `transfer`) parses and prints hex colours, sets
//! opacity and mixes colours in linear light. The encoder (`encoder`, over
//! the model in `theme`) expands a role-based theme into the full document
//! of user-interface and syntax fields (`document`); `names` lists the
//! fields of a style and shows that each occurs once.
//!
//! Around them, `builder` wraps the documents of several themes into the
//! document of a package, and `render` writes a document as JSON text
//! through `serde_json`.
//!
//! Amounts (opacities and mixing weights) are counted in thousandths: 200
//! stands for a fifth.

pub mod builder;
pub mod color;
pub mod document;
pub mod encoder;
pub mod names;
pub mod render;
pub mod theme;
pub mod transfer;

//! Affine transformation of triangle-soup meshes.
//!
//! The crate parses an ordered list of transform operations (translations,
//! axis rotations, axis mirrors) from command-line style arguments, folds the
//! list into a single affine map, and applies that map to triangles, with the
//! distinct handling that face normals require.
//!
//! Every IEEE 754 binary32 scalar is carried as its raw bit pattern (`u32`).
//! The floating-point arithmetic itself is done by `glam` behind a small set
//! of trusted wrappers in [`vecbits`]; everything built on top of those
//! wrappers is verified.

pub mod affine;
pub mod mesh;
pub mod ops;
pub mod parse;
pub mod vecbits;

//! Conversion of OpenStreetMap PBF element blocks into columnar batches.
//!
//! The library holds the logic of the conversion: blob framing and
//! decompression dispatch, the element decoding rules of primitive blocks
//! (string table, delta and dense encodings, coordinates), the columnar
//! batch model with its null conventions, and the rotation policy of the
//! streaming writers.

pub mod delta;
pub mod blobs;
pub mod types;
pub mod block;
pub mod elements;
pub mod records;
pub mod writer;
pub mod pbf;
pub mod io;

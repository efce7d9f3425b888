//! Decoding of the ESRI shapefile geometry format.
//!
//! A shapefile is a main file of variable-length geometry records, an index file with one
//! fixed-size entry per record, and an attribute table. This crate decodes the first two from
//! byte buffers: file headers, shape records, the index table, random access to a record by its
//! ordinal, and the sequential walk over all records. Coordinates are kept as the bit patterns
//! of the IEEE 754 doubles stored in the file.
pub mod attributes;
pub mod bytes;
pub mod error;
pub mod header;
pub mod shape;
pub mod shpfile;
pub mod shxfile;

//! Metadata of Cloud-Optimized GeoTIFF files, read through byte ranges.
//!
//! A Cloud-Optimized GeoTIFF is laid out so that a few small byte ranges of
//! it tell where and how its tiles are stored. This crate decides which byte
//! ranges those are and what their bytes mean. It never performs I/O itself:
//! it is handed the bytes of a range, either as the window of a
//! [`ByteRangeCursor`] or one range at a time through a
//! [`walker::DirectoryChainWalker`], and the caller does the fetching.
//!
//! - [`cursor`]: byte order, byte ranges, and a seekable reader over the bytes
//!   of one range.
//! - [`tag`] and [`value`]: tag records and the values that they decode to.
//! - [`ifd`]: image directories, the addresses of their tiles and their
//!   geotransform.
//! - [`geo_key_directory`]: the GeoKey directory of an image directory.
//! - [`walker`]: the walk along the chain of image directories.
//! - [`cog`]: the header of a file, and a reader of an opened file.
//! - [`decoder`]: what is left to do for the samples of a tile, once its
//!   bytes were fetched.
//!
//! Floating-point numbers are carried as their IEEE 754 bit patterns.

pub mod affine;
pub mod cog;
pub mod cursor;
pub mod decoder;
pub mod enums;
pub mod error;
pub mod geo_key_directory;
pub mod ifd;
pub mod tag;
pub mod value;
pub mod walker;

pub use cog::COGReader;
pub use cursor::{ByteRange, ByteRangeCursor, Endianness};
pub use error::AiocogeoError;

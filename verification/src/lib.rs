//! Decoders for the asset files of a tile-based role-playing game: the
//! index/data archive pair, the fixed-layout records stored in it, the grid
//! layer tables, the colour table and the run-length encoded sprites.
//!
//! Every function carries a contract over plain mathematical models
//! (`Seq<u8>`, `int`) and is proved against it.

pub mod assets;
pub mod error;
pub mod grid;
pub mod le;
pub mod load;
pub mod palette;
pub mod records;
pub mod text;
pub mod texture;

//! Loading of tile maps: decoding of global tile identifiers, resolution of
//! the paths that a map document refers to, and construction of the map
//! asset from a parsed document.
//!
//! Nothing here reads a file or parses a document. The caller reads and
//! parses, asks [`TiledMapLoader::read_source`] and [`PathResolver`] where
//! each read goes, and hands the parsed document to
//! [`TiledMapLoader::load`].

pub mod error;
pub mod gid;
pub mod loader;
pub mod map;
pub mod path;
pub mod resolver;

pub use error::{ConversionError, LoadError};
pub use gid::{decode, DecodedTileReference};
pub use loader::{ReadSource, TiledMapLoader};
pub use map::{MapAsset, MapBuilder, MapLayer, RawDocument, RawLayer, TilesetBinding, TilesetReference};
pub use resolver::PathResolver;

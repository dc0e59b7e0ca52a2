//! The loader that the host runtime registers for tile-map documents.

use vstd::prelude::*;
use crate::error::{ConversionError, LoadError};
use crate::gid::{decode_spec, strip_flags, tile_index_of, MAX_TILE_INDEX};
use crate::map::{
    all_layers_fit, all_tilesets_usable, is_build_result, MapAsset, MapAssetView, MapBuilder,
    RawDocument,
};
use crate::path::join_spec;
use crate::resolver::{PathResolver, DEFAULT_ROOT};

verus! {

/// The one file suffix that the loader claims, without the dot.
pub const MAP_EXTENSION: &'static str = "tmx";

/// Where the bytes of a path that the parser asks for come from.
#[derive(Clone, Debug, PartialEq, Eq)]
pub enum ReadSource {
    /// The path is that of the document being loaded, whose bytes the
    /// host has handed over already.
    Document,
    /// The bytes are read from the store, at `target`.
    Store { target: String },
}

/// The two ends that a load can come to: a map, or the error that
/// stopped it.
///
/// A failed parse is handed on as it is. A parsed document gives what
/// building it gives, with a conversion error wrapped as a load error.
pub open spec fn is_load_result(
    root: Seq<char>,
    parsed: Result<RawDocument, LoadError>,
    logical_path: Seq<char>,
    result: Result<MapAsset, LoadError>,
) -> bool {
    match parsed {
        Err(error) => result == Err::<MapAsset, LoadError>(error),
        Ok(document) => match result {
            Ok(asset) => is_build_result(
                root,
                document@,
                logical_path,
                Ok::<MapAssetView, ConversionError>(asset@),
            ),
            Err(LoadError::Conversion(error)) => is_build_result(
                root,
                document@,
                logical_path,
                Err::<MapAssetView, ConversionError>(error),
            ),
            Err(_) => false,
        },
    }
}

/// Loads tile maps. It holds the resolution root and nothing that a load
/// changes, so one loader serves any number of loads.
#[derive(Clone, Debug, PartialEq, Eq)]
pub struct TiledMapLoader {
    builder: MapBuilder,
}

impl View for TiledMapLoader {
    type V = Seq<char>;

    /// The resolution root.
    closed spec fn view(&self) -> Seq<char> {
        self.builder@
    }
}

impl TiledMapLoader {
    /// A loader that reads through `resolver`.
    pub fn new(resolver: PathResolver) -> (loader: Self)
        ensures
            loader@ == resolver@,
    {
        TiledMapLoader { builder: MapBuilder::new(resolver) }
    }

    /// The resolver through which every read of a load goes.
    pub fn resolver(&self) -> (resolver: &PathResolver)
        ensures
            resolver@ == self@,
    {
        self.builder.resolver()
    }

    /// The tile index of an identifier: the identifier without its three
    /// orientation bits.
    pub fn remove_tile_flags(tile: u32) -> (index: u32)
        ensures
            index == tile_index_of(tile),
            index == decode_spec(tile).tile_index,
            index as int == tile as int % 0x2000_0000,
            index <= MAX_TILE_INDEX,
    {
        strip_flags(tile)
    }

    /// The file suffixes that the loader claims: [`MAP_EXTENSION`] alone.
    pub fn extensions(&self) -> (extensions: &'static [&'static str])
        ensures
            extensions@.len() == 1,
            extensions@[0]@ == MAP_EXTENSION@,
    {
        &[MAP_EXTENSION]
    }

    /// Where the parser's read of `requested` is served from while the
    /// document at `logical_path` is being loaded.
    pub fn read_source(&self, logical_path: &str, requested: &str) -> (source: ReadSource)
        ensures
            requested@ == logical_path@ ==> source == ReadSource::Document,
            requested@ != logical_path@ ==> source is Store && source->target@ == join_spec(
                self@,
                requested@,
            ),
    {
        if requested.to_owned() == logical_path.to_owned() {
            ReadSource::Document
        } else {
            ReadSource::Store { target: self.builder.resolver().target(requested) }
        }
    }

    /// Finishes the load of the document at `logical_path`, given what
    /// the parser made of its bytes.
    pub fn load(&self, parsed: Result<RawDocument, LoadError>, logical_path: &str) -> (result:
        Result<MapAsset, LoadError>)
        ensures
            is_load_result(self@, parsed, logical_path@, result),
            result is Ok <==> parsed is Ok && all_layers_fit(parsed->Ok_0@) && all_tilesets_usable(
                parsed->Ok_0@,
                logical_path@,
            ),
    {
        match parsed {
            Err(error) => Err(error),
            Ok(document) => match self.builder.build(document, logical_path) {
                Ok(asset) => Ok(asset),
                Err(error) => Err(LoadError::Conversion(error)),
            },
        }
    }
}

impl Default for TiledMapLoader {
    /// A loader rooted at the default resolution root.
    fn default() -> (loader: Self)
        ensures
            loader@ == DEFAULT_ROOT@,
    {
        TiledMapLoader { builder: MapBuilder::new(PathResolver::default()) }
    }
}

} // verus!

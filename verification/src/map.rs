//! The parsed document, the map asset, and the step from one to the other.

use vstd::prelude::*;
use crate::error::ConversionError;
use crate::gid::{
    decode, decode_spec, encode_spec, fields_in_range, lemma_encode_decode, DecodedTileReference,
    TileFields,
};
use crate::path::{
    is_absolute, is_absolute_spec, join_spec, lemma_join, resolve_path, resolve_spec,
};
use crate::resolver::PathResolver;

verus! {

/// One tile layer as the parser hands it over: the identifiers of its
/// cells, row after row.
#[derive(Clone, Debug, PartialEq, Eq)]
pub struct RawLayer {
    pub name: String,
    pub gids: Vec<u32>,
}

/// A raw layer as plain values.
pub struct RawLayerView {
    pub name: Seq<char>,
    pub gids: Seq<u32>,
}

impl View for RawLayer {
    type V = RawLayerView;

    open spec fn view(&self) -> RawLayerView {
        RawLayerView { name: self.name@, gids: self.gids@ }
    }
}

/// A tileset that a document refers to by a path of its own, written
/// relative to the document.
#[derive(Clone, Debug, PartialEq, Eq)]
pub struct TilesetReference {
    pub source: String,
}

impl View for TilesetReference {
    type V = Seq<char>;

    open spec fn view(&self) -> Seq<char> {
        self.source@
    }
}

/// A parsed map document: its size in tiles, the size of a tile in
/// pixels, its layers and the tilesets it refers to.
#[derive(Clone, Debug, PartialEq, Eq)]
pub struct RawDocument {
    pub width: u32,
    pub height: u32,
    pub tile_width: u32,
    pub tile_height: u32,
    pub layers: Vec<RawLayer>,
    pub tilesets: Vec<TilesetReference>,
}

/// A parsed document as plain values.
pub struct RawDocumentView {
    pub width: u32,
    pub height: u32,
    pub tile_width: u32,
    pub tile_height: u32,
    pub layers: Seq<RawLayerView>,
    pub tilesets: Seq<Seq<char>>,
}

impl View for RawDocument {
    type V = RawDocumentView;

    open spec fn view(&self) -> RawDocumentView {
        RawDocumentView {
            width: self.width,
            height: self.height,
            tile_width: self.tile_width,
            tile_height: self.tile_height,
            layers: self.layers@.map_values(|layer: RawLayer| layer@),
            tilesets: self.tilesets@.map_values(|tileset: TilesetReference| tileset@),
        }
    }
}

/// A layer of a map asset as plain values.
pub struct MapLayerView {
    pub name: Seq<char>,
    pub cells: Seq<TileFields>,
}

/// A map asset as plain values.
pub struct MapAssetView {
    pub source: Seq<char>,
    pub width: u32,
    pub height: u32,
    pub tile_width: u32,
    pub tile_height: u32,
    pub layers: Seq<MapLayerView>,
    pub tilesets: Seq<Seq<char>>,
}

/// The number of cells that every layer of a document must hold.
pub open spec fn cell_count(document: RawDocumentView) -> nat {
    document.width as nat * document.height as nat
}

/// Whether the layer at `layer` holds as many cells as the size of the
/// map asks for.
pub open spec fn layer_fits(document: RawDocumentView, layer: int) -> bool {
    document.layers[layer].gids.len() == cell_count(document)
}

/// Whether a tileset reference met in the document at `logical_path`
/// names a file under the resolution root: it is not empty, and what it
/// resolves to is a relative path.
pub open spec fn tileset_usable(logical_path: Seq<char>, source: Seq<char>) -> bool {
    source.len() > 0 && !is_absolute_spec(resolve_spec(logical_path, source))
}

/// The location of a tileset: its reference resolved against the
/// document, behind the resolution root.
pub open spec fn tileset_location(root: Seq<char>, logical_path: Seq<char>, source: Seq<char>) -> Seq<
    char,
> {
    join_spec(root, resolve_spec(logical_path, source))
}

/// A layer with each identifier decoded.
pub open spec fn decoded_layer(layer: RawLayerView) -> MapLayerView {
    MapLayerView { name: layer.name, cells: layer.gids.map_values(|gid: u32| decode_spec(gid)) }
}

/// The map that a document at `logical_path` describes under the
/// resolution root `root`.
pub open spec fn built_asset(
    root: Seq<char>,
    document: RawDocumentView,
    logical_path: Seq<char>,
) -> MapAssetView {
    MapAssetView {
        source: logical_path,
        width: document.width,
        height: document.height,
        tile_width: document.tile_width,
        tile_height: document.tile_height,
        layers: document.layers.map_values(|layer: RawLayerView| decoded_layer(layer)),
        tilesets: document.tilesets.map_values(
            |source: Seq<char>| tileset_location(root, logical_path, source),
        ),
    }
}

/// Whether every layer of a document fits the size of the map.
pub open spec fn all_layers_fit(document: RawDocumentView) -> bool {
    forall|layer: int| 0 <= layer < document.layers.len() ==> layer_fits(document, layer)
}

/// Whether every tileset reference of a document is usable.
pub open spec fn all_tilesets_usable(document: RawDocumentView, logical_path: Seq<char>) -> bool {
    forall|tileset: int|
        0 <= tileset < document.tilesets.len() ==> tileset_usable(
            logical_path,
            #[trigger] document.tilesets[tileset],
        )
}

/// What building a map from a document gives.
///
/// The layers are examined first, in their order, then the tilesets, in
/// theirs; the first that is at fault is reported. Where none is, the
/// result is the map that the document describes.
pub open spec fn is_build_result(
    root: Seq<char>,
    document: RawDocumentView,
    logical_path: Seq<char>,
    result: Result<MapAssetView, ConversionError>,
) -> bool {
    match result {
        Ok(asset) => {
            &&& all_layers_fit(document)
            &&& all_tilesets_usable(document, logical_path)
            &&& asset == built_asset(root, document, logical_path)
        },
        Err(ConversionError::LayerSizeMismatch { layer, expected, found }) => {
            &&& layer < document.layers.len()
            &&& !layer_fits(document, layer as int)
            &&& forall|earlier: int| 0 <= earlier < layer ==> layer_fits(document, earlier)
            &&& expected == cell_count(document)
            &&& found == document.layers[layer as int].gids.len()
        },
        Err(ConversionError::UnusableTileset { tileset }) => {
            &&& all_layers_fit(document)
            &&& tileset < document.tilesets.len()
            &&& !tileset_usable(logical_path, document.tilesets[tileset as int])
            &&& forall|earlier: int|
                0 <= earlier < tileset ==> tileset_usable(
                    logical_path,
                    #[trigger] document.tilesets[earlier],
                )
        },
    }
}

/// A document has one build result: two results that both fit the
/// description are the same.
pub proof fn lemma_build_result_unique(
    root: Seq<char>,
    document: RawDocumentView,
    logical_path: Seq<char>,
    first: Result<MapAssetView, ConversionError>,
    second: Result<MapAssetView, ConversionError>,
)
    requires
        is_build_result(root, document, logical_path, first),
        is_build_result(root, document, logical_path, second),
    ensures
        first == second,
{
    match (first, second) {
        (
            Err(ConversionError::LayerSizeMismatch { layer: a, .. }),
            Err(ConversionError::LayerSizeMismatch { layer: b, .. }),
        ) => {
            if a < b {
                assert(layer_fits(document, a as int));
            } else if b < a {
                assert(layer_fits(document, b as int));
            }
        },
        (
            Err(ConversionError::UnusableTileset { tileset: a }),
            Err(ConversionError::UnusableTileset { tileset: b }),
        ) => {
            if a < b {
                assert(tileset_usable(logical_path, document.tilesets[a as int]));
            } else if b < a {
                assert(tileset_usable(logical_path, document.tilesets[b as int]));
            }
        },
        _ => {},
    }
}

/// What a built map holds. Every layer has one cell for each position
/// of the map. Every cell is the decoded form of the identifier at its
/// place, and encodes to that identifier again. Every tileset lies
/// under the resolution root, at the place where the resolver reads
/// what the reference resolves to.
pub proof fn lemma_built_asset(
    root: Seq<char>,
    document: RawDocumentView,
    logical_path: Seq<char>,
)
    requires
        all_layers_fit(document),
        all_tilesets_usable(document, logical_path),
    ensures
        ({
            let asset = built_asset(root, document, logical_path);
            &&& layers_complete(asset)
            &&& asset.source == logical_path
            &&& asset.layers.len() == document.layers.len()
            &&& asset.tilesets.len() == document.tilesets.len()
            &&& forall|layer: int, cell: int|
                0 <= layer < document.layers.len() && 0 <= cell < document.layers[layer].gids.len()
                    ==> {
                    &&& (#[trigger] asset.layers[layer].cells[cell]) == decode_spec(
                        document.layers[layer].gids[cell],
                    )
                    &&& fields_in_range(asset.layers[layer].cells[cell])
                    &&& encode_spec(asset.layers[layer].cells[cell])
                        == document.layers[layer].gids[cell]
                }
            &&& forall|tileset: int|
                0 <= tileset < document.tilesets.len() ==> {
                    &&& (#[trigger] asset.tilesets[tileset]) == join_spec(
                        root,
                        resolve_spec(logical_path, document.tilesets[tileset]),
                    )
                    &&& root.is_prefix_of(asset.tilesets[tileset])
                }
        }),
{
    let asset = built_asset(root, document, logical_path);
    assert forall|layer: int| 0 <= layer < asset.layers.len() implies (
    #[trigger] asset.layers[layer]).cells.len() == asset.width as nat * asset.height as nat by {
        assert(layer_fits(document, layer));
    }
    assert forall|layer: int, cell: int|
        0 <= layer < document.layers.len() && 0 <= cell < document.layers[layer].gids.len() implies {
        &&& (#[trigger] asset.layers[layer].cells[cell]) == decode_spec(
            document.layers[layer].gids[cell],
        )
        &&& fields_in_range(asset.layers[layer].cells[cell])
        &&& encode_spec(asset.layers[layer].cells[cell]) == document.layers[layer].gids[cell]
    } by {
        lemma_encode_decode(document.layers[layer].gids[cell]);
    }
    assert forall|tileset: int| 0 <= tileset < document.tilesets.len() implies {
        &&& (#[trigger] asset.tilesets[tileset]) == join_spec(
            root,
            resolve_spec(logical_path, document.tilesets[tileset]),
        )
        &&& root.is_prefix_of(asset.tilesets[tileset])
    } by {
        let source = document.tilesets[tileset];
        assert(tileset_usable(logical_path, source));
        lemma_join(root, resolve_spec(logical_path, source));
    }
}

/// One layer of a map: a name and the decoded cells, row after row.
#[derive(Clone, Debug, PartialEq, Eq)]
pub struct MapLayer {
    name: String,
    cells: Vec<DecodedTileReference>,
}

impl View for MapLayer {
    type V = MapLayerView;

    closed spec fn view(&self) -> MapLayerView {
        MapLayerView {
            name: self.name@,
            cells: self.cells@.map_values(|cell: DecodedTileReference| cell@),
        }
    }
}

impl MapLayer {
    /// The name of the layer.
    pub fn name(&self) -> (name: &str)
        ensures
            name@ == self@.name,
    {
        self.name.as_str()
    }

    /// The number of cells.
    pub fn len(&self) -> (len: usize)
        ensures
            len == self@.cells.len(),
    {
        self.cells.len()
    }

    /// The cell at `index`, counted row after row.
    pub fn cell(&self, index: usize) -> (cell: Option<DecodedTileReference>)
        ensures
            index < self@.cells.len() ==> cell is Some && cell->Some_0@ == self@.cells[index as int],
            index >= self@.cells.len() ==> cell is None,
    {
        if index < self.cells.len() {
            Some(self.cells[index])
        } else {
            None
        }
    }
}

/// A tileset of a map, bound to the location of its file under the
/// resolution root.
#[derive(Clone, Debug, PartialEq, Eq)]
pub struct TilesetBinding {
    path: String,
}

impl View for TilesetBinding {
    type V = Seq<char>;

    closed spec fn view(&self) -> Seq<char> {
        self.path@
    }
}

impl TilesetBinding {
    /// The location of the tileset's file.
    pub fn path(&self) -> (path: &str)
        ensures
            path@ == self@,
    {
        self.path.as_str()
    }
}

/// A loaded map. It is made by [`MapBuilder::build`] and never changes.
#[derive(Debug, PartialEq, Eq)]
pub struct MapAsset {
    source: String,
    width: u32,
    height: u32,
    tile_width: u32,
    tile_height: u32,
    layers: Vec<MapLayer>,
    tilesets: Vec<TilesetBinding>,
}

impl View for MapAsset {
    type V = MapAssetView;

    closed spec fn view(&self) -> MapAssetView {
        MapAssetView {
            source: self.source@,
            width: self.width,
            height: self.height,
            tile_width: self.tile_width,
            tile_height: self.tile_height,
            layers: self.layers@.map_values(|layer: MapLayer| layer@),
            tilesets: self.tilesets@.map_values(|tileset: TilesetBinding| tileset@),
        }
    }
}

/// Whether every layer of a map holds one cell for each position.
pub open spec fn layers_complete(asset: MapAssetView) -> bool {
    forall|layer: int|
        0 <= layer < asset.layers.len() ==> (#[trigger] asset.layers[layer]).cells.len()
            == asset.width as nat * asset.height as nat
}

impl MapAsset {
    #[verifier::type_invariant]
    spec fn complete(self) -> bool {
        layers_complete(self@)
    }

    /// The logical path of the document that the map was loaded from.
    pub fn source(&self) -> (source: &str)
        ensures
            source@ == self@.source,
    {
        self.source.as_str()
    }

    /// The width of the map, in tiles.
    pub fn width(&self) -> (width: u32)
        ensures
            width == self@.width,
    {
        self.width
    }

    /// The height of the map, in tiles.
    pub fn height(&self) -> (height: u32)
        ensures
            height == self@.height,
    {
        self.height
    }

    /// The width of a tile, in pixels.
    pub fn tile_width(&self) -> (tile_width: u32)
        ensures
            tile_width == self@.tile_width,
    {
        self.tile_width
    }

    /// The height of a tile, in pixels.
    pub fn tile_height(&self) -> (tile_height: u32)
        ensures
            tile_height == self@.tile_height,
    {
        self.tile_height
    }

    /// The number of layers.
    pub fn layer_count(&self) -> (count: usize)
        ensures
            count == self@.layers.len(),
    {
        self.layers.len()
    }

    /// The layer at `index`.
    pub fn layer(&self, index: usize) -> (layer: Option<&MapLayer>)
        ensures
            index < self@.layers.len() ==> layer is Some && layer->Some_0@
                == self@.layers[index as int],
            index >= self@.layers.len() ==> layer is None,
            layers_complete(self@),
    {
        proof {
            use_type_invariant(self);
        }
        if index < self.layers.len() {
            Some(&self.layers[index])
        } else {
            None
        }
    }

    /// The number of tilesets.
    pub fn tileset_count(&self) -> (count: usize)
        ensures
            count == self@.tilesets.len(),
    {
        self.tilesets.len()
    }

    /// The tileset at `index`.
    pub fn tileset(&self, index: usize) -> (tileset: Option<&TilesetBinding>)
        ensures
            index < self@.tilesets.len() ==> tileset is Some && tileset->Some_0@
                == self@.tilesets[index as int],
            index >= self@.tilesets.len() ==> tileset is None,
    {
        if index < self.tilesets.len() {
            Some(&self.tilesets[index])
        } else {
            None
        }
    }

    /// The cell in column `x` of row `y` of the layer at `layer`, where
    /// the map has such a cell.
    pub fn tile_at(&self, layer: usize, x: u32, y: u32) -> (cell: Option<DecodedTileReference>)
        ensures
            layers_complete(self@),
            cell is Some <==> layer < self@.layers.len() && x < self@.width && y < self@.height,
            cell is Some ==> cell->Some_0@ == self@.layers[layer as int].cells[y * self@.width + x],
    {
        proof {
            use_type_invariant(self);
        }
        if layer < self.layers.len() && x < self.width && y < self.height {
            let cells = &self.layers[layer].cells;
            let count = cells.len();
            assert(self@.layers[layer as int].cells.len() == count);
            assert(y * self.width + x < self.width * self.height) by (nonlinear_arith)
                requires
                    x < self.width,
                    y < self.height,
            ;
            assert(0 <= y * self.width) by (nonlinear_arith);
            let row: u64 = (y as u64) * (self.width as u64);
            let index: usize = (row + x as u64) as usize;
            Some(cells[index])
        } else {
            None
        }
    }
}

/// Makes maps out of parsed documents, under one resolution root.
#[derive(Clone, Debug, PartialEq, Eq)]
pub struct MapBuilder {
    resolver: PathResolver,
}

impl View for MapBuilder {
    type V = Seq<char>;

    /// The resolution root.
    closed spec fn view(&self) -> Seq<char> {
        self.resolver@
    }
}

/// An outcome of a build with the map taken by its view.
pub open spec fn build_view(result: Result<MapAsset, ConversionError>) -> Result<
    MapAssetView,
    ConversionError,
> {
    match result {
        Ok(asset) => Ok(asset@),
        Err(error) => Err(error),
    }
}

/// Decodes the cells of a layer, each identifier once.
fn decode_cells(gids: &Vec<u32>) -> (cells: Vec<DecodedTileReference>)
    ensures
        cells@.map_values(|cell: DecodedTileReference| cell@) == gids@.map_values(
            |gid: u32| decode_spec(gid),
        ),
{
    let mut cells: Vec<DecodedTileReference> = Vec::new();
    let mut next: usize = 0;
    while next < gids.len()
        invariant
            next <= gids.len(),
            cells@.len() == next,
            forall|k: int| 0 <= k < next ==> (#[trigger] cells@[k])@ == decode_spec(gids@[k]),
        decreases gids.len() - next,
    {
        cells.push(decode(gids[next]));
        next = next + 1;
    }
    assert(cells@.map_values(|cell: DecodedTileReference| cell@) =~= gids@.map_values(
        |gid: u32| decode_spec(gid),
    ));
    cells
}

impl MapBuilder {
    /// A builder that binds tilesets under the root of `resolver`.
    pub fn new(resolver: PathResolver) -> (builder: Self)
        ensures
            builder@ == resolver@,
    {
        MapBuilder { resolver }
    }

    /// The resolver under whose root tilesets are bound.
    pub fn resolver(&self) -> (resolver: &PathResolver)
        ensures
            resolver@ == self@,
    {
        &self.resolver
    }

    /// Builds the map that `document`, found at `logical_path`,
    /// describes.
    pub fn build(&self, document: RawDocument, logical_path: &str) -> (result: Result<
        MapAsset,
        ConversionError,
    >)
        ensures
            is_build_result(self@, document@, logical_path@, build_view(result)),
            result is Ok <==> all_layers_fit(document@) && all_tilesets_usable(
                document@,
                logical_path@,
            ),
    {
        assert(document.width * document.height <= u64::MAX) by (nonlinear_arith)
            requires
                document.width <= u32::MAX,
                document.height <= u32::MAX,
        ;
        let expected: u64 = (document.width as u64) * (document.height as u64);
        let mut layers: Vec<MapLayer> = Vec::new();
        let mut at: usize = 0;
        while at < document.layers.len()
            invariant
                at <= document.layers.len(),
                expected == cell_count(document@),
                layers@.len() == at,
                forall|k: int| 0 <= k < at ==> layer_fits(document@, k),
                forall|k: int|
                    0 <= k < at ==> (#[trigger] layers@[k])@ == decoded_layer(document@.layers[k]),
            decreases document.layers.len() - at,
        {
            let layer = &document.layers[at];
            assert(document@.layers[at as int] == layer@);
            let found = layer.gids.len();
            if found as u64 != expected {
                return Err(ConversionError::LayerSizeMismatch { layer: at, expected, found });
            }
            let cells = decode_cells(&layer.gids);
            layers.push(MapLayer { name: layer.name.clone(), cells });
            at = at + 1;
        }
        let mut tilesets: Vec<TilesetBinding> = Vec::new();
        let mut at: usize = 0;
        while at < document.tilesets.len()
            invariant
                at <= document.tilesets.len(),
                all_layers_fit(document@),
                tilesets@.len() == at,
                forall|k: int|
                    0 <= k < at ==> tileset_usable(
                        logical_path@,
                        #[trigger] document@.tilesets[k],
                    ),
                forall|k: int|
                    0 <= k < at ==> (#[trigger] tilesets@[k])@ == tileset_location(
                        self@,
                        logical_path@,
                        document@.tilesets[k],
                    ),
            decreases document.tilesets.len() - at,
        {
            let source = document.tilesets[at].source.as_str();
            assert(document@.tilesets[at as int] == source@);
            let resolved = resolve_path(logical_path, source);
            if source.is_empty() || is_absolute(resolved.as_str()) {
                return Err(ConversionError::UnusableTileset { tileset: at });
            }
            tilesets.push(TilesetBinding { path: self.resolver.target(resolved.as_str()) });
            at = at + 1;
        }
        let ghost wanted = built_asset(self@, document@, logical_path@);
        let ghost made_layers = layers@.map_values(|layer: MapLayer| layer@);
        let ghost made_tilesets = tilesets@.map_values(|tileset: TilesetBinding| tileset@);
        assert(made_layers =~= wanted.layers);
        assert(made_tilesets =~= wanted.tilesets);
        assert forall|k: int| 0 <= k < made_layers.len() implies (#[trigger] made_layers[k]).cells.len()
            == document.width as nat * document.height as nat by {
            assert(layer_fits(document@, k));
        }
        let asset = MapAsset {
            source: logical_path.to_owned(),
            width: document.width,
            height: document.height,
            tile_width: document.tile_width,
            tile_height: document.tile_height,
            layers,
            tilesets,
        };
        assert(asset@ == wanted);
        Ok(asset)
    }
}

} // verus!

//! The ways in which loading a map fails.

use vstd::prelude::*;

verus! {

/// A parsed document from which no map can be made.
#[derive(Clone, Copy, Debug, PartialEq, Eq)]
pub enum ConversionError {
    /// The layer at position `layer` holds `found` cells where the size
    /// of the map asks for `expected`.
    LayerSizeMismatch { layer: usize, expected: u64, found: usize },
    /// The tileset at position `tileset` names no file under the
    /// resolution root.
    UnusableTileset { tileset: usize },
}

/// Why a load produced no map.
#[derive(Clone, Debug, PartialEq, Eq)]
pub enum LoadError {
    /// Nothing could be read at `path`, which is the location that was
    /// asked for: the requested path behind the resolution root.
    Io { path: String },
    /// The document is malformed; `diagnostic` says where and how.
    Parse { diagnostic: String },
    /// The document was parsed, but describes no map.
    Conversion(ConversionError),
}

/// A load error with its texts as sequences of characters.
pub enum LoadErrorView {
    Io { path: Seq<char> },
    Parse { diagnostic: Seq<char> },
    Conversion(ConversionError),
}

impl View for LoadError {
    type V = LoadErrorView;

    open spec fn view(&self) -> LoadErrorView {
        match self {
            LoadError::Io { path } => LoadErrorView::Io { path: path@ },
            LoadError::Parse { diagnostic } => LoadErrorView::Parse { diagnostic: diagnostic@ },
            LoadError::Conversion(error) => LoadErrorView::Conversion(*error),
        }
    }
}

} // verus!
